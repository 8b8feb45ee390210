use vstd::prelude::*;

use crate::sharky_data_types::{DataModel, SharkyDataType};

verus! {

#[derive(Debug, Clone, Copy, PartialEq, Eq, Structural)]
pub enum ArithmeticMode {
    Add,
    Subtract,
    Multiply,
    Divide,
    Mod,
}

impl ArithmeticMode {
    /// The mode whose number is `value` (in declaration order, from 0).
    pub fn try_from_u8(value: u8) -> (r: Option<Self>)
        ensures
            r == (if value == 0 {
                Some(ArithmeticMode::Add)
            } else if value == 1 {
                Some(ArithmeticMode::Subtract)
            } else if value == 2 {
                Some(ArithmeticMode::Multiply)
            } else if value == 3 {
                Some(ArithmeticMode::Divide)
            } else if value == 4 {
                Some(ArithmeticMode::Mod)
            } else {
                None::<ArithmeticMode>
            }),
    {
        match value {
            0 => Some(ArithmeticMode::Add),
            1 => Some(ArithmeticMode::Subtract),
            2 => Some(ArithmeticMode::Multiply),
            3 => Some(ArithmeticMode::Divide),
            4 => Some(ArithmeticMode::Mod),
            _ => None,
        }
    }
}

#[derive(Debug, Clone, Copy, PartialEq, Eq, Structural)]
pub enum BitwiseMode {
    ShiftLeft,
    ShiftRight,
    And,
    Or,
    Xor,
    Not,
}

impl BitwiseMode {
    /// The mode whose number is `value` (in declaration order, from 0).
    pub fn try_from_u8(value: u8) -> (r: Option<Self>)
        ensures
            r == (if value == 0 {
                Some(BitwiseMode::ShiftLeft)
            } else if value == 1 {
                Some(BitwiseMode::ShiftRight)
            } else if value == 2 {
                Some(BitwiseMode::And)
            } else if value == 3 {
                Some(BitwiseMode::Or)
            } else if value == 4 {
                Some(BitwiseMode::Xor)
            } else if value == 5 {
                Some(BitwiseMode::Not)
            } else {
                None::<BitwiseMode>
            }),
    {
        match value {
            0 => Some(BitwiseMode::ShiftLeft),
            1 => Some(BitwiseMode::ShiftRight),
            2 => Some(BitwiseMode::And),
            3 => Some(BitwiseMode::Or),
            4 => Some(BitwiseMode::Xor),
            5 => Some(BitwiseMode::Not),
            _ => None,
        }
    }
}

#[derive(Debug, Clone, Copy, PartialEq, Eq, Structural)]
pub enum ComparisonMode {
    And,
    Or,
    Equals,
    NotEquals,
    GreaterThan,
    LessThan,
    GreaterThanOrEquals,
    LessThanOrEquals,
}

impl ComparisonMode {
    /// The mode whose number is `value` (in declaration order, from 0).
    pub fn try_from_u8(value: u8) -> (r: Option<Self>)
        ensures
            r == (if value == 0 {
                Some(ComparisonMode::And)
            } else if value == 1 {
                Some(ComparisonMode::Or)
            } else if value == 2 {
                Some(ComparisonMode::Equals)
            } else if value == 3 {
                Some(ComparisonMode::NotEquals)
            } else if value == 4 {
                Some(ComparisonMode::GreaterThan)
            } else if value == 5 {
                Some(ComparisonMode::LessThan)
            } else if value == 6 {
                Some(ComparisonMode::GreaterThanOrEquals)
            } else if value == 7 {
                Some(ComparisonMode::LessThanOrEquals)
            } else {
                None::<ComparisonMode>
            }),
    {
        match value {
            0 => Some(ComparisonMode::And),
            1 => Some(ComparisonMode::Or),
            2 => Some(ComparisonMode::Equals),
            3 => Some(ComparisonMode::NotEquals),
            4 => Some(ComparisonMode::GreaterThan),
            5 => Some(ComparisonMode::LessThan),
            6 => Some(ComparisonMode::GreaterThanOrEquals),
            7 => Some(ComparisonMode::LessThanOrEquals),
            _ => None,
        }
    }
}

#[derive(Debug, Clone, Copy, PartialEq, Eq, Structural)]
pub enum ConversionMode {
    Max,
    Int,
    Real,
    Byte,
    Bool,
    HeapReference,
    ByteString,
    Nil,
}

impl ConversionMode {
    /// The mode whose number is `value` (in declaration order, from 0).
    pub fn try_from_u8(value: u8) -> (r: Option<Self>)
        ensures
            r == (if value == 0 {
                Some(ConversionMode::Max)
            } else if value == 1 {
                Some(ConversionMode::Int)
            } else if value == 2 {
                Some(ConversionMode::Real)
            } else if value == 3 {
                Some(ConversionMode::Byte)
            } else if value == 4 {
                Some(ConversionMode::Bool)
            } else if value == 5 {
                Some(ConversionMode::HeapReference)
            } else if value == 6 {
                Some(ConversionMode::ByteString)
            } else if value == 7 {
                Some(ConversionMode::Nil)
            } else {
                None::<ConversionMode>
            }),
    {
        match value {
            0 => Some(ConversionMode::Max),
            1 => Some(ConversionMode::Int),
            2 => Some(ConversionMode::Real),
            3 => Some(ConversionMode::Byte),
            4 => Some(ConversionMode::Bool),
            5 => Some(ConversionMode::HeapReference),
            6 => Some(ConversionMode::ByteString),
            7 => Some(ConversionMode::Nil),
            _ => None,
        }
    }
}

#[derive(Debug, Clone, Copy, PartialEq, Eq, Structural)]
pub enum LogicMode {
    If,
    IfNot,
}

impl LogicMode {
    /// The mode whose number is `value` (in declaration order, from 0).
    pub fn try_from_u8(value: u8) -> (r: Option<Self>)
        ensures
            r == (if value == 0 {
                Some(LogicMode::If)
            } else if value == 1 {
                Some(LogicMode::IfNot)
            } else {
                None::<LogicMode>
            }),
    {
        match value {
            0 => Some(LogicMode::If),
            1 => Some(LogicMode::IfNot),
            _ => None,
        }
    }
}

#[derive(Debug, Clone, Copy, PartialEq, Eq, Structural)]
pub enum SelectStackMode {
    Fixed,
    Indexed,
}

impl SelectStackMode {
    /// The mode whose number is `value` (in declaration order, from 0).
    pub fn try_from_u8(value: u8) -> (r: Option<Self>)
        ensures
            r == (if value == 0 {
                Some(SelectStackMode::Fixed)
            } else if value == 1 {
                Some(SelectStackMode::Indexed)
            } else {
                None::<SelectStackMode>
            }),
    {
        match value {
            0 => Some(SelectStackMode::Fixed),
            1 => Some(SelectStackMode::Indexed),
            _ => None,
        }
    }
}

#[derive(Debug, Clone, Copy, PartialEq, Eq, Structural)]
pub enum FixedStackMode {
    Operative,
    Transitional,
    Parameter,
}

/// The fixed stack whose number is `value` (in declaration order, from 0).
pub open spec fn spec_fixed_stack_mode(value: u8) -> Option<FixedStackMode> {
    if value == 0 {
        Some(FixedStackMode::Operative)
    } else if value == 1 {
        Some(FixedStackMode::Transitional)
    } else if value == 2 {
        Some(FixedStackMode::Parameter)
    } else {
        None
    }
}

impl FixedStackMode {
    /// The mode whose number is `value` (in declaration order, from 0).
    pub fn try_from_u8(value: u8) -> (r: Option<Self>)
        ensures
            r == spec_fixed_stack_mode(value),
    {
        match value {
            0 => Some(FixedStackMode::Operative),
            1 => Some(FixedStackMode::Transitional),
            2 => Some(FixedStackMode::Parameter),
            _ => None,
        }
    }
}

#[derive(Debug, Clone, Copy, PartialEq, Eq, Structural)]
pub enum HeapOpMode {
    Create,
    Clone,
    NewItem,
    Size,
}

impl HeapOpMode {
    /// The mode whose number is `value` (in declaration order, from 0).
    pub fn try_from_u8(value: u8) -> (r: Option<Self>)
        ensures
            r == (if value == 0 {
                Some(HeapOpMode::Create)
            } else if value == 1 {
                Some(HeapOpMode::Clone)
            } else if value == 2 {
                Some(HeapOpMode::NewItem)
            } else if value == 3 {
                Some(HeapOpMode::Size)
            } else {
                None::<HeapOpMode>
            }),
    {
        match value {
            0 => Some(HeapOpMode::Create),
            1 => Some(HeapOpMode::Clone),
            2 => Some(HeapOpMode::NewItem),
            3 => Some(HeapOpMode::Size),
            _ => None,
        }
    }
}

/// Where an instruction takes an operand from.
#[derive(Debug)]
pub enum OpParameter {
    /// No operand.
    Empty,
    /// A constant value.
    Constant(SharkyDataType),
    /// The value at a stack index.
    Index(usize),
    /// The value at the stack index that the cell at this index holds.
    Pointer(usize),
}

impl Default for OpParameter {
    fn default() -> (r: Self)
        ensures
            r is Empty,
    {
        OpParameter::Empty
    }
}

impl Clone for OpParameter {
    fn clone(&self) -> (r: Self)
        ensures
            r@ == self@,
    {
        match self {
            OpParameter::Empty => OpParameter::Empty,
            OpParameter::Constant(v) => OpParameter::Constant(v.clone()),
            OpParameter::Index(i) => OpParameter::Index(*i),
            OpParameter::Pointer(i) => OpParameter::Pointer(*i),
        }
    }
}

/// An operand, with a constant taken by its view.
pub enum OpParameterModel {
    Empty,
    Constant(DataModel),
    Index(usize),
    Pointer(usize),
}

impl View for OpParameter {
    type V = OpParameterModel;

    open spec fn view(&self) -> OpParameterModel {
        match self {
            OpParameter::Empty => OpParameterModel::Empty,
            OpParameter::Constant(v) => OpParameterModel::Constant(v@),
            OpParameter::Index(i) => OpParameterModel::Index(*i),
            OpParameter::Pointer(i) => OpParameterModel::Pointer(*i),
        }
    }
}

/// One instruction of the machine.
#[derive(Debug)]
pub enum SharkyInstruction {
    NoOperation,
    /// stack index, mode
    SelectStack(OpParameter, SelectStackMode),
    /// add a local stack
    PushStack,
    /// remove the last local stack
    PopStack,
    /// copy a value of the selected stack onto the transitional stack
    CopyToTransition(OpParameter),
    /// copy a value of the transitional stack onto the selected stack
    CopyFromTransition(OpParameter),
    /// push a value onto the selected stack
    Push(SharkyDataType),
    /// convert a value and push the result onto the selected stack
    Convert(OpParameter, ConversionMode),
    /// copy a value of the selected stack onto the selected stack
    Copy(OpParameter),
    /// set a value of the selected stack to nil
    Nilify(OpParameter),
    /// set value[0] in the selected stack to value[1]
    Assign(OpParameter, OpParameter),
    /// pop the selected stack
    Pop,
    /// clear the selected stack
    Clear,
    /// perform a heap operation on the selected heap frame
    Heap(HeapOpMode),
    SelectHeap(OpParameter),
    CopyToHeapItem(OpParameter, OpParameter),
    CopyFromHeapItem(OpParameter, OpParameter),
    /// dest, value
    FillByteStringWithValue(OpParameter, OpParameter),
    /// dest, length
    ExtendByteString(OpParameter, OpParameter),
    /// dest, src
    CopyToByteString(OpParameter, OpParameter),
    /// dest, src
    CopyFromByteString(OpParameter, OpParameter),
    /// dest, src
    AppendByteString(OpParameter, OpParameter),
    /// input
    ClearByteString(OpParameter),
    /// input
    ByteStringSize(OpParameter),
    /// src, begin, end
    SliceByteString(OpParameter, OpParameter, OpParameter),
    ArithmeticOp(OpParameter, OpParameter, ArithmeticMode),
    BitwiseOp(OpParameter, OpParameter, BitwiseMode),
    ComparisonOp(OpParameter, OpParameter, ComparisonMode),
    NotBool(OpParameter),
    Goto(OpParameter),
    LogicalGoto(OpParameter, OpParameter, LogicMode),
    SpawnSubtask(OpParameter),
    EndTask,
    FFICall(OpParameter),
}

impl Default for SharkyInstruction {
    fn default() -> (r: Self)
        ensures
            r is NoOperation,
    {
        SharkyInstruction::NoOperation
    }
}

pub type SharkyProgram = Vec<SharkyInstruction>;

} // verus!
