use vstd::prelude::*;

use crate::sharky_data_types::{
    SharkyBool, SharkyByte, SharkyHeapFrameIndex, SharkyInt, SharkyMax, SharkyRealBits,
};

verus! {

/// Which stack the stack operations of this instruction set work on.
#[derive(Debug, Clone, Copy, PartialEq, Eq, Structural)]
pub enum SharkyStackMode {
    Indexed,
    Addressed,
    Operative,
    Native,
    Parameter,
    String,
    Transitional,
}

impl Default for SharkyStackMode {
    fn default() -> (r: Self)
        ensures
            r == SharkyStackMode::Indexed,
    {
        SharkyStackMode::Indexed
    }
}

/// An operand: nothing, a constant, or the value at a stack index.
#[derive(Debug, Clone)]
pub enum SharkyParameter<T> {
    Empty,
    Constant(T),
    StackIndex(usize),
}

impl<T> Default for SharkyParameter<T> {
    fn default() -> (r: Self)
        ensures
            r is Empty,
    {
        SharkyParameter::Empty
    }
}

pub type SharkyIndexParameter = SharkyParameter<usize>;

/// An instruction set with typed heaps (byte, int, max and real heaps).
#[derive(Debug, Clone)]
pub enum SharkyInstruction {
    StackMode(SharkyStackMode),
    SelectStack(SharkyIndexParameter),
    PushStack,
    PopStack,
    /// push a constant value onto the top of the stack
    PushMax(SharkyParameter<SharkyMax>),
    PushInt(SharkyParameter<SharkyInt>),
    PushReal(SharkyParameter<SharkyRealBits>),
    PushByte(SharkyParameter<SharkyByte>),
    PushBool(SharkyParameter<SharkyBool>),
    PushHeapReference(SharkyParameter<SharkyHeapFrameIndex>),
    PushNil,
    ToMax(SharkyIndexParameter),
    ToByte(SharkyIndexParameter),
    ToInt(SharkyIndexParameter),
    PushTransition(SharkyIndexParameter),
    CopyTransition(SharkyIndexParameter),
    Copy(SharkyIndexParameter),
    Nilify(SharkyIndexParameter),
    /// All copy operations are (dest, src)
    Assign(SharkyIndexParameter, SharkyIndexParameter),
    Pop,
    Clear,
    /// creates a dynamic heap (any type, memory not flat.) address is pushed to the top of the stack.
    CreateDynamicHeap,
    /// creates a byte heap (bytes only, memory flat and contiguous) address is pushed to the top of the stack.
    CreateByteHeap,
    /// creates an int heap (ints only, memory flat and contiguous) address is pushed to the top of the stack.
    CreateIntHeap,
    /// creates a max heap (max's only, memory flat and contiguous) address is pushed to the top of the stack.
    CreateMaxHeap,
    /// creates a real heap (reals only, memory flat and contiguous) address is pushed to the top of the stack.
    CreateRealHeap,
    /// Reads heap address (param_b) to the selected stack address (param_a)
    ReadHeap(SharkyIndexParameter, SharkyIndexParameter),
    /// Writes to heap address (param_a) from the selected stack address (param_b)
    WriteHeap(SharkyIndexParameter, SharkyIndexParameter),
    /// Pushes to heap (param_a) from the selected stack address (param_b)
    PushHeap(SharkyIndexParameter, SharkyIndexParameter),
    /// Deletes heap (param_a)
    DeleteHeap(SharkyIndexParameter),
    /// Clones heap (param_a) address is pushed to the top of the stack.
    CloneHeap(SharkyIndexParameter),
    /// Clones heap from (param_a) to (param_b) to a new heap. address is pushed to the top of the stack.
    SliceHeap(SharkyIndexParameter, SharkyIndexParameter),
    /// Reads the size of the heap (param_a) to the top of the stack
    SizeHeap(SharkyIndexParameter),
    /// a OP b
    Add(SharkyIndexParameter, SharkyIndexParameter),
    Subtract(SharkyIndexParameter, SharkyIndexParameter),
    Multiply(SharkyIndexParameter, SharkyIndexParameter),
    Divide(SharkyIndexParameter, SharkyIndexParameter),
    Modulus(SharkyIndexParameter, SharkyIndexParameter),
    BitLeftShift(SharkyIndexParameter, SharkyIndexParameter),
    BitRightShift(SharkyIndexParameter, SharkyIndexParameter),
    BitAnd(SharkyIndexParameter, SharkyIndexParameter),
    BitXor(SharkyIndexParameter, SharkyIndexParameter),
    BitOr(SharkyIndexParameter, SharkyIndexParameter),
    BitNot(SharkyIndexParameter),
    Not(SharkyIndexParameter),
    And(SharkyIndexParameter, SharkyIndexParameter),
    Or(SharkyIndexParameter, SharkyIndexParameter),
    Equals(SharkyIndexParameter, SharkyIndexParameter),
    NotEquals(SharkyIndexParameter, SharkyIndexParameter),
    GreaterThan(SharkyIndexParameter, SharkyIndexParameter),
    LesserThan(SharkyIndexParameter, SharkyIndexParameter),
    GreaterThanOrEquals(SharkyIndexParameter, SharkyIndexParameter),
    LesserThanOrEquals(SharkyIndexParameter, SharkyIndexParameter),
    Jump(SharkyIndexParameter),
    /// conditional jumps are (to, condition)
    JumpIfNot(SharkyIndexParameter, SharkyIndexParameter),
    /// popjumpifnot checks if the top of the stack is false then if false it pops it, and jumps to the location
    PopJumpIfNot(SharkyIndexParameter),
    NoOperation,
}

impl Default for SharkyInstruction {
    fn default() -> (r: Self)
        ensures
            r is NoOperation,
    {
        SharkyInstruction::NoOperation
    }
}

pub type SharkyProgram = Vec<SharkyInstruction>;

} // verus!
