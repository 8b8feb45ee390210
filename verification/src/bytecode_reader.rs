use vstd::prelude::*;

verus! {

/// The operation code of an instruction in a bytecode file.
#[derive(Debug, Clone, Copy, PartialEq, Eq, Structural)]
pub enum SharkyOpCode {
    NoOperation,
    SelectStack,
    PushStack,
    PopStack,
    CopyToTransition,
    CopyFromTransition,
    Push,
    Convert,
    Copy,
    Nilify,
    Assign,
    Pop,
    Clear,
    Heap,
    SelectHeap,
    CopyToHeapItem,
    CopyFromHeapItem,
    FillByteStringWithValue,
    ExtendByteString,
    CopyToByteString,
    CopyFromByteString,
    AppendByteString,
    ClearByteString,
    ByteStringSize,
    SliceByteString,
    ArithmeticOp,
    BitwiseOp,
    ComparisonOp,
    NotBool,
    Goto,
    LogicalGoto,
    SpawnSubtask,
    EndTask,
    FFICall,
}

/// The number of each variant, in declaration order from 0.
pub open spec fn spec_sharky_op_code_code(v: SharkyOpCode) -> u16 {
    match v {
        SharkyOpCode::NoOperation => 0,
        SharkyOpCode::SelectStack => 1,
        SharkyOpCode::PushStack => 2,
        SharkyOpCode::PopStack => 3,
        SharkyOpCode::CopyToTransition => 4,
        SharkyOpCode::CopyFromTransition => 5,
        SharkyOpCode::Push => 6,
        SharkyOpCode::Convert => 7,
        SharkyOpCode::Copy => 8,
        SharkyOpCode::Nilify => 9,
        SharkyOpCode::Assign => 10,
        SharkyOpCode::Pop => 11,
        SharkyOpCode::Clear => 12,
        SharkyOpCode::Heap => 13,
        SharkyOpCode::SelectHeap => 14,
        SharkyOpCode::CopyToHeapItem => 15,
        SharkyOpCode::CopyFromHeapItem => 16,
        SharkyOpCode::FillByteStringWithValue => 17,
        SharkyOpCode::ExtendByteString => 18,
        SharkyOpCode::CopyToByteString => 19,
        SharkyOpCode::CopyFromByteString => 20,
        SharkyOpCode::AppendByteString => 21,
        SharkyOpCode::ClearByteString => 22,
        SharkyOpCode::ByteStringSize => 23,
        SharkyOpCode::SliceByteString => 24,
        SharkyOpCode::ArithmeticOp => 25,
        SharkyOpCode::BitwiseOp => 26,
        SharkyOpCode::ComparisonOp => 27,
        SharkyOpCode::NotBool => 28,
        SharkyOpCode::Goto => 29,
        SharkyOpCode::LogicalGoto => 30,
        SharkyOpCode::SpawnSubtask => 31,
        SharkyOpCode::EndTask => 32,
        SharkyOpCode::FFICall => 33,
    }
}

impl SharkyOpCode {
    /// The variant's number.
    pub fn code(&self) -> (r: u16)
        ensures
            r == spec_sharky_op_code_code(*self),
    {
        match self {
            SharkyOpCode::NoOperation => 0,
            SharkyOpCode::SelectStack => 1,
            SharkyOpCode::PushStack => 2,
            SharkyOpCode::PopStack => 3,
            SharkyOpCode::CopyToTransition => 4,
            SharkyOpCode::CopyFromTransition => 5,
            SharkyOpCode::Push => 6,
            SharkyOpCode::Convert => 7,
            SharkyOpCode::Copy => 8,
            SharkyOpCode::Nilify => 9,
            SharkyOpCode::Assign => 10,
            SharkyOpCode::Pop => 11,
            SharkyOpCode::Clear => 12,
            SharkyOpCode::Heap => 13,
            SharkyOpCode::SelectHeap => 14,
            SharkyOpCode::CopyToHeapItem => 15,
            SharkyOpCode::CopyFromHeapItem => 16,
            SharkyOpCode::FillByteStringWithValue => 17,
            SharkyOpCode::ExtendByteString => 18,
            SharkyOpCode::CopyToByteString => 19,
            SharkyOpCode::CopyFromByteString => 20,
            SharkyOpCode::AppendByteString => 21,
            SharkyOpCode::ClearByteString => 22,
            SharkyOpCode::ByteStringSize => 23,
            SharkyOpCode::SliceByteString => 24,
            SharkyOpCode::ArithmeticOp => 25,
            SharkyOpCode::BitwiseOp => 26,
            SharkyOpCode::ComparisonOp => 27,
            SharkyOpCode::NotBool => 28,
            SharkyOpCode::Goto => 29,
            SharkyOpCode::LogicalGoto => 30,
            SharkyOpCode::SpawnSubtask => 31,
            SharkyOpCode::EndTask => 32,
            SharkyOpCode::FFICall => 33,
        }
    }

    /// The variant with number `code`, if there is one.
    pub fn from_code(code: u16) -> (r: Option<Self>)
        ensures
            code < 34 ==> (r matches Some(v) && spec_sharky_op_code_code(v) == code),
            code >= 34 ==> r is None,
    {
        match code {
            0 => Some(SharkyOpCode::NoOperation),
            1 => Some(SharkyOpCode::SelectStack),
            2 => Some(SharkyOpCode::PushStack),
            3 => Some(SharkyOpCode::PopStack),
            4 => Some(SharkyOpCode::CopyToTransition),
            5 => Some(SharkyOpCode::CopyFromTransition),
            6 => Some(SharkyOpCode::Push),
            7 => Some(SharkyOpCode::Convert),
            8 => Some(SharkyOpCode::Copy),
            9 => Some(SharkyOpCode::Nilify),
            10 => Some(SharkyOpCode::Assign),
            11 => Some(SharkyOpCode::Pop),
            12 => Some(SharkyOpCode::Clear),
            13 => Some(SharkyOpCode::Heap),
            14 => Some(SharkyOpCode::SelectHeap),
            15 => Some(SharkyOpCode::CopyToHeapItem),
            16 => Some(SharkyOpCode::CopyFromHeapItem),
            17 => Some(SharkyOpCode::FillByteStringWithValue),
            18 => Some(SharkyOpCode::ExtendByteString),
            19 => Some(SharkyOpCode::CopyToByteString),
            20 => Some(SharkyOpCode::CopyFromByteString),
            21 => Some(SharkyOpCode::AppendByteString),
            22 => Some(SharkyOpCode::ClearByteString),
            23 => Some(SharkyOpCode::ByteStringSize),
            24 => Some(SharkyOpCode::SliceByteString),
            25 => Some(SharkyOpCode::ArithmeticOp),
            26 => Some(SharkyOpCode::BitwiseOp),
            27 => Some(SharkyOpCode::ComparisonOp),
            28 => Some(SharkyOpCode::NotBool),
            29 => Some(SharkyOpCode::Goto),
            30 => Some(SharkyOpCode::LogicalGoto),
            31 => Some(SharkyOpCode::SpawnSubtask),
            32 => Some(SharkyOpCode::EndTask),
            33 => Some(SharkyOpCode::FFICall),
            _ => None,
        }
    }
}

/// How a bytecode parameter addresses its operand.
#[derive(Debug, Clone, Copy, PartialEq, Eq, Structural)]
pub enum SharkyParamType {
    Constant,
    Index,
    Pointer,
}

/// The number of each variant, in declaration order from 0.
pub open spec fn spec_sharky_param_type_code(v: SharkyParamType) -> u8 {
    match v {
        SharkyParamType::Constant => 0,
        SharkyParamType::Index => 1,
        SharkyParamType::Pointer => 2,
    }
}

impl SharkyParamType {
    /// The variant's number.
    pub fn code(&self) -> (r: u8)
        ensures
            r == spec_sharky_param_type_code(*self),
    {
        match self {
            SharkyParamType::Constant => 0,
            SharkyParamType::Index => 1,
            SharkyParamType::Pointer => 2,
        }
    }

    /// The variant with number `code`, if there is one.
    pub fn from_code(code: u8) -> (r: Option<Self>)
        ensures
            code < 3 ==> (r matches Some(v) && spec_sharky_param_type_code(v) == code),
            code >= 3 ==> r is None,
    {
        match code {
            0 => Some(SharkyParamType::Constant),
            1 => Some(SharkyParamType::Index),
            2 => Some(SharkyParamType::Pointer),
            _ => None,
        }
    }
}

/// The type of a bytecode constant.
#[derive(Debug, Clone, Copy, PartialEq, Eq, Structural)]
pub enum SharkyTypeCode {
    Nil,
    Max,
    Int,
    Byte,
    Real,
    Bool,
    HeapReferencePtr,
    ByteStringPtr,
}

/// The number of each variant, in declaration order from 0.
pub open spec fn spec_sharky_type_code_code(v: SharkyTypeCode) -> u8 {
    match v {
        SharkyTypeCode::Nil => 0,
        SharkyTypeCode::Max => 1,
        SharkyTypeCode::Int => 2,
        SharkyTypeCode::Byte => 3,
        SharkyTypeCode::Real => 4,
        SharkyTypeCode::Bool => 5,
        SharkyTypeCode::HeapReferencePtr => 6,
        SharkyTypeCode::ByteStringPtr => 7,
    }
}

impl SharkyTypeCode {
    /// The variant's number.
    pub fn code(&self) -> (r: u8)
        ensures
            r == spec_sharky_type_code_code(*self),
    {
        match self {
            SharkyTypeCode::Nil => 0,
            SharkyTypeCode::Max => 1,
            SharkyTypeCode::Int => 2,
            SharkyTypeCode::Byte => 3,
            SharkyTypeCode::Real => 4,
            SharkyTypeCode::Bool => 5,
            SharkyTypeCode::HeapReferencePtr => 6,
            SharkyTypeCode::ByteStringPtr => 7,
        }
    }

    /// The variant with number `code`, if there is one.
    pub fn from_code(code: u8) -> (r: Option<Self>)
        ensures
            code < 8 ==> (r matches Some(v) && spec_sharky_type_code_code(v) == code),
            code >= 8 ==> r is None,
    {
        match code {
            0 => Some(SharkyTypeCode::Nil),
            1 => Some(SharkyTypeCode::Max),
            2 => Some(SharkyTypeCode::Int),
            3 => Some(SharkyTypeCode::Byte),
            4 => Some(SharkyTypeCode::Real),
            5 => Some(SharkyTypeCode::Bool),
            6 => Some(SharkyTypeCode::HeapReferencePtr),
            7 => Some(SharkyTypeCode::ByteStringPtr),
            _ => None,
        }
    }
}

pub type SharkyByteSlice = [u8; 128];

/// A library path and a symbol in it.
pub struct SharkyLibrarySymbol(String, String);

/// A constant: its type and its bytes.
pub struct SharkyConstant(SharkyTypeCode, SharkyByteSlice);

/// A parameter of a bytecode instruction.
pub struct SharkyParameter(SharkyOpCode, SharkyParamType, SharkyByteSlice);

/// The header at the start of a bytecode file.
pub struct SharkyBytecodeHeader {
    magic: u32,
    version: u32,
    symbol_offset: u64,
    string_offset: u64,
    globals_offset: u64,
    program_offset: u64,
    end_offset: u64,
}

/// The little-endian `u32` in the four bytes at `offset`.
pub open spec fn spec_le_u32(bytes: Seq<u8>, offset: int) -> u32 {
    (bytes[offset] + 256 * bytes[offset + 1] + 65536 * bytes[offset + 2] + 16777216 * bytes[offset
        + 3]) as u32
}

/// The little-endian `u64` in the eight bytes at `offset`.
pub open spec fn spec_le_u64(bytes: Seq<u8>, offset: int) -> u64 {
    (spec_le_u32(bytes, offset) + 4294967296 * spec_le_u32(bytes, offset + 4)) as u64
}

/// The number of bytes of a header.
pub const SHARKY_HEADER_SIZE: usize = 48;

impl SharkyBytecodeHeader {
    /// The header's magic number.
    pub closed spec fn spec_magic(&self) -> u32 {
        self.magic
    }

    /// The header's format version.
    pub closed spec fn spec_version(&self) -> u32 {
        self.version
    }

    /// The offsets of the symbol, string, global and program sections and of the end.
    pub closed spec fn spec_offsets(&self) -> (u64, u64, u64, u64, u64) {
        (self.symbol_offset, self.string_offset, self.globals_offset, self.program_offset, self.end_offset)
    }

    /// The little-endian `u32` that starts at `offset`; `None` where fewer
    /// than four bytes are left.
    pub fn read_le_u32(bytes: &[u8], offset: usize) -> (r: Option<u32>)
        ensures
            offset + 4 <= bytes@.len() ==> r == Some(spec_le_u32(bytes@, offset as int)),
            offset + 4 > bytes@.len() ==> r is None,
    {
        if offset > bytes.len() || bytes.len() - offset < 4 {
            return None;
        }
        let b0 = bytes[offset] as u32;
        let b1 = bytes[offset + 1] as u32;
        let b2 = bytes[offset + 2] as u32;
        let b3 = bytes[offset + 3] as u32;
        Some(b0 + 256 * b1 + 65536 * b2 + 16777216 * b3)
    }

    /// The little-endian `u64` that starts at `offset`; `None` where fewer
    /// than eight bytes are left.
    pub fn read_le_u64(bytes: &[u8], offset: usize) -> (r: Option<u64>)
        ensures
            offset + 8 <= bytes@.len() ==> r == Some(spec_le_u64(bytes@, offset as int)),
            offset + 8 > bytes@.len() ==> r is None,
    {
        if offset > bytes.len() || bytes.len() - offset < 8 {
            return None;
        }
        let low = Self::read_le_u32(bytes, offset);
        let high = Self::read_le_u32(bytes, offset + 4);
        match (low, high) {
            (Some(lo), Some(hi)) => Some(lo as u64 + 4294967296 * (hi as u64)),
            _ => None,
        }
    }

    /// Reads a header from the start of `bytes`: the magic number and the
    /// version as little-endian `u32`s, then the five section offsets as
    /// little-endian `u64`s, in the order of the fields. `None` where
    /// `bytes` is shorter than a header.
    pub fn from(bytes: &[u8]) -> (r: Option<Self>)
        ensures
            bytes@.len() < SHARKY_HEADER_SIZE ==> r is None,
            bytes@.len() >= SHARKY_HEADER_SIZE ==> (r matches Some(h) && h.spec_magic() == spec_le_u32(bytes@, 0)
                && h.spec_version() == spec_le_u32(bytes@, 4) && h.spec_offsets() == (
                spec_le_u64(bytes@, 8),
                spec_le_u64(bytes@, 16),
                spec_le_u64(bytes@, 24),
                spec_le_u64(bytes@, 32),
                spec_le_u64(bytes@, 40),
            )),
    {
        if bytes.len() < SHARKY_HEADER_SIZE {
            return None;
        }
        let magic = Self::read_le_u32(bytes, 0)?;
        let version = Self::read_le_u32(bytes, 4)?;
        let symbol_offset = Self::read_le_u64(bytes, 8)?;
        let string_offset = Self::read_le_u64(bytes, 16)?;
        let globals_offset = Self::read_le_u64(bytes, 24)?;
        let program_offset = Self::read_le_u64(bytes, 32)?;
        let end_offset = Self::read_le_u64(bytes, 40)?;
        Some(SharkyBytecodeHeader {
            magic,
            version,
            symbol_offset,
            string_offset,
            globals_offset,
            program_offset,
            end_offset,
        })
    }

    pub fn magic(&self) -> (r: u32)
        ensures
            r == self.spec_magic(),
    {
        self.magic
    }

    pub fn version(&self) -> (r: u32)
        ensures
            r == self.spec_version(),
    {
        self.version
    }

    /// The offsets of the symbol, string, global and program sections and of the end.
    pub fn offsets(&self) -> (r: (u64, u64, u64, u64, u64))
        ensures
            r == self.spec_offsets(),
    {
        (self.symbol_offset, self.string_offset, self.globals_offset, self.program_offset, self.end_offset)
    }
}

/// The tables of a bytecode file.
pub struct SharkyBytecodeConstants {
    symbols: Vec<SharkyLibrarySymbol>,
    strings: Vec<String>,
    constants: Vec<SharkyConstant>,
}

/// One instruction of a bytecode file.
pub struct SharkyBytecodeInstruction {
    code: SharkyOpCode,
    parameters: Vec<SharkyParameter>,
}

/// A bytecode file: header, tables and instructions.
pub struct SharkyBytecodeProgram {
    header: SharkyBytecodeHeader,
    constants: SharkyBytecodeConstants,
    instructions: Vec<SharkyBytecodeInstruction>,
}


/// Different op codes have different numbers, so that reading back the number
/// of an op code gives it back.
pub proof fn law_op_code_injective(a: SharkyOpCode, b: SharkyOpCode)
    ensures
        spec_sharky_op_code_code(a) == spec_sharky_op_code_code(b) ==> a == b,
{
}

/// Different parameter types have different numbers, so that reading back the number
/// of a parameter type gives it back.
pub proof fn law_param_type_code_injective(a: SharkyParamType, b: SharkyParamType)
    ensures
        spec_sharky_param_type_code(a) == spec_sharky_param_type_code(b) ==> a == b,
{
}

/// Different type codes have different numbers, so that reading back the number
/// of a type code gives it back.
pub proof fn law_type_code_injective(a: SharkyTypeCode, b: SharkyTypeCode)
    ensures
        spec_sharky_type_code_code(a) == spec_sharky_type_code_code(b) ==> a == b,
{
}

} // verus!
