use vstd::prelude::*;
use vstd::std_specs::cmp::PartialEqSpecImpl;

use crate::ffi_collections::CVec;

verus! {

pub type SharkyHeapFrameIndex = usize;

pub type SharkyHeapCellIndex = usize;

pub type SharkyBytePoolIndex = usize;

pub type SharkyMax = usize;

pub type SharkyInt = i64;

/// A real number, held as the bit pattern of an IEEE-754 binary64 value.
pub type SharkyRealBits = u64;

pub type SharkyByte = u8;

pub type SharkyBool = bool;

/// What a value of `SharkyDataType` is, with a byte string taken as its bytes.
#[verifier::ext_equal]
pub enum DataModel {
    Nil,
    Max(SharkyMax),
    Int(SharkyInt),
    Real(SharkyRealBits),
    Byte(SharkyByte),
    Bool(SharkyBool),
    HeapReference(SharkyHeapFrameIndex),
    ByteString(Seq<SharkyByte>),
}

/// A value that a stack cell of the machine holds.
#[derive(Debug)]
pub enum SharkyDataType {
    Nil,
    Max(SharkyMax),
    Int(SharkyInt),
    Real(SharkyRealBits),
    Byte(SharkyByte),
    Bool(SharkyBool),
    HeapReference(SharkyHeapFrameIndex),
    ByteString(CVec<SharkyByte>),
}

impl View for SharkyDataType {
    type V = DataModel;

    open spec fn view(&self) -> DataModel {
        match self {
            SharkyDataType::Nil => DataModel::Nil,
            SharkyDataType::Max(v) => DataModel::Max(*v),
            SharkyDataType::Int(v) => DataModel::Int(*v),
            SharkyDataType::Real(v) => DataModel::Real(*v),
            SharkyDataType::Byte(v) => DataModel::Byte(*v),
            SharkyDataType::Bool(v) => DataModel::Bool(*v),
            SharkyDataType::HeapReference(v) => DataModel::HeapReference(*v),
            SharkyDataType::ByteString(v) => DataModel::ByteString(v@),
        }
    }
}

/// The view of an optional value.
pub open spec fn opt_view(o: Option<SharkyDataType>) -> Option<DataModel> {
    match o {
        Some(v) => Some(v@),
        None => None,
    }
}

/// Whether two byte vectors hold the same bytes.
fn bytes_equal(a: &CVec<SharkyByte>, b: &CVec<SharkyByte>) -> (r: bool)
    ensures
        r == (a@ == b@),
{
    let sa = a.as_slice();
    let sb = b.as_slice();
    if sa.len() != sb.len() {
        return false;
    }
    let mut i: usize = 0;
    while i < sa.len()
        invariant
            sa@ == a@,
            sb@ == b@,
            sa@.len() == sb@.len(),
            0 <= i <= sa@.len(),
            forall|j: int| 0 <= j < i ==> sa@[j] == sb@[j],
        decreases sa@.len() - i,
    {
        if sa[i] != sb[i] {
            return false;
        }
        i = i + 1;
    }
    assert(a@ =~= b@);
    true
}

impl SharkyDataType {
    /// Whether two values are the same value (byte strings by their bytes).
    pub fn same_value(&self, other: &Self) -> (r: bool)
        ensures
            r == (self@ == other@),
    {
        match (self, other) {
            (SharkyDataType::Nil, SharkyDataType::Nil) => true,
            (SharkyDataType::Max(a), SharkyDataType::Max(b)) => *a == *b,
            (SharkyDataType::Int(a), SharkyDataType::Int(b)) => *a == *b,
            (SharkyDataType::Real(a), SharkyDataType::Real(b)) => *a == *b,
            (SharkyDataType::Byte(a), SharkyDataType::Byte(b)) => *a == *b,
            (SharkyDataType::Bool(a), SharkyDataType::Bool(b)) => *a == *b,
            (SharkyDataType::HeapReference(a), SharkyDataType::HeapReference(b)) => *a == *b,
            (SharkyDataType::ByteString(a), SharkyDataType::ByteString(b)) => bytes_equal(a, b),
            _ => false,
        }
    }
}

impl Clone for SharkyDataType {
    /// A value with the same view (a byte string's bytes are copied).
    fn clone(&self) -> (r: Self)
        ensures
            r@ == self@,
    {
        match self {
            SharkyDataType::Nil => SharkyDataType::Nil,
            SharkyDataType::Max(v) => SharkyDataType::Max(*v),
            SharkyDataType::Int(v) => SharkyDataType::Int(*v),
            SharkyDataType::Real(v) => SharkyDataType::Real(*v),
            SharkyDataType::Byte(v) => SharkyDataType::Byte(*v),
            SharkyDataType::Bool(v) => SharkyDataType::Bool(*v),
            SharkyDataType::HeapReference(v) => SharkyDataType::HeapReference(*v),
            SharkyDataType::ByteString(v) => {
                let c = v.clone();
                assert(c@ =~= v@);
                SharkyDataType::ByteString(c)
            },
        }
    }
}

/// Whether the bits are those of a NaN: all exponent bits set and a
/// mantissa that is not zero.
pub open spec fn is_nan_bits(bits: SharkyRealBits) -> bool {
    bits & 0x7ff0_0000_0000_0000u64 == 0x7ff0_0000_0000_0000u64 && bits & 0x000f_ffff_ffff_ffffu64 != 0
}

/// Whether the bits are those of `0.0` or `-0.0`.
pub open spec fn is_zero_bits(bits: SharkyRealBits) -> bool {
    bits & 0x7fff_ffff_ffff_ffffu64 == 0
}

/// Whether two reals, given by their bits, are equal as binary64 numbers:
/// neither is a NaN, and they have the same bits or are both zeros.
pub open spec fn real_bits_equal(a: SharkyRealBits, b: SharkyRealBits) -> bool {
    !is_nan_bits(a) && !is_nan_bits(b) && (a == b || (is_zero_bits(a) && is_zero_bits(b)))
}

/// Whether two values are equal: of the same kind and holding the same
/// value, with reals compared as binary64 numbers and byte strings by their
/// bytes.
pub open spec fn data_equal(a: DataModel, b: DataModel) -> bool {
    match (a, b) {
        (DataModel::Real(x), DataModel::Real(y)) => real_bits_equal(x, y),
        _ => a == b,
    }
}

/// Whether two reals, given by their bits, are equal as binary64 numbers.
pub fn real_equal(a: SharkyRealBits, b: SharkyRealBits) -> (r: bool)
    ensures
        r == real_bits_equal(a, b),
{
    let a_nan = a & 0x7ff0_0000_0000_0000u64 == 0x7ff0_0000_0000_0000u64 && a & 0x000f_ffff_ffff_ffffu64 != 0;
    let b_nan = b & 0x7ff0_0000_0000_0000u64 == 0x7ff0_0000_0000_0000u64 && b & 0x000f_ffff_ffff_ffffu64 != 0;
    !a_nan && !b_nan && (a == b || (a & 0x7fff_ffff_ffff_ffffu64 == 0 && b & 0x7fff_ffff_ffff_ffffu64 == 0))
}

/// Two values are equal when they are of the same kind and hold the same
/// value: reals as binary64 numbers (a NaN equals nothing, `0.0` equals
/// `-0.0`), byte strings by their bytes.
impl PartialEq for SharkyDataType {
    fn eq(&self, other: &Self) -> (r: bool) {
        match (self, other) {
            (SharkyDataType::Real(a), SharkyDataType::Real(b)) => real_equal(*a, *b),
            _ => self.same_value(other),
        }
    }
}

impl PartialEqSpecImpl for SharkyDataType {
    open spec fn obeys_eq_spec() -> bool {
        true
    }

    open spec fn eq_spec(&self, other: &Self) -> bool {
        data_equal(self@, other@)
    }
}

impl Default for SharkyDataType {
    fn default() -> (r: Self)
        ensures
            r@ == DataModel::Nil,
    {
        SharkyDataType::Nil
    }
}

/// A kind of plain value that a cell can be read as.
pub trait SharkyValue: Sized {
    /// The value read from a cell of the given view, if the cell holds this kind.
    spec fn spec_from_data(data: DataModel) -> Option<Self>;

    fn from_data(data: &SharkyDataType) -> (r: Option<Self>)
        ensures
            r == Self::spec_from_data(data@),
    ;
}

impl SharkyValue for SharkyMax {
    open spec fn spec_from_data(data: DataModel) -> Option<SharkyMax> {
        match data {
            DataModel::Max(v) => Some(v),
            _ => None,
        }
    }

    fn from_data(data: &SharkyDataType) -> (r: Option<SharkyMax>) {
        match data {
            SharkyDataType::Max(v) => Some(*v),
            _ => None,
        }
    }
}

impl SharkyValue for SharkyInt {
    open spec fn spec_from_data(data: DataModel) -> Option<SharkyInt> {
        match data {
            DataModel::Int(v) => Some(v),
            _ => None,
        }
    }

    fn from_data(data: &SharkyDataType) -> (r: Option<SharkyInt>) {
        match data {
            SharkyDataType::Int(v) => Some(*v),
            _ => None,
        }
    }
}

impl SharkyValue for SharkyRealBits {
    open spec fn spec_from_data(data: DataModel) -> Option<SharkyRealBits> {
        match data {
            DataModel::Real(v) => Some(v),
            _ => None,
        }
    }

    fn from_data(data: &SharkyDataType) -> (r: Option<SharkyRealBits>) {
        match data {
            SharkyDataType::Real(v) => Some(*v),
            _ => None,
        }
    }
}

impl SharkyValue for SharkyByte {
    open spec fn spec_from_data(data: DataModel) -> Option<SharkyByte> {
        match data {
            DataModel::Byte(v) => Some(v),
            _ => None,
        }
    }

    fn from_data(data: &SharkyDataType) -> (r: Option<SharkyByte>) {
        match data {
            SharkyDataType::Byte(v) => Some(*v),
            _ => None,
        }
    }
}

impl SharkyValue for SharkyBool {
    open spec fn spec_from_data(data: DataModel) -> Option<SharkyBool> {
        match data {
            DataModel::Bool(v) => Some(v),
            _ => None,
        }
    }

    fn from_data(data: &SharkyDataType) -> (r: Option<SharkyBool>) {
        match data {
            SharkyDataType::Bool(v) => Some(*v),
            _ => None,
        }
    }
}

/// Which stack the machine's stack operations work on.
#[derive(Debug, Clone, Copy, PartialEq, Eq, Structural)]
pub enum SharkyStackMode {
    Indexed,
    Addressed,
    Operative,
    Native,
    Parameter,
    String,
    Transitional,
}

impl Default for SharkyStackMode {
    fn default() -> (r: Self)
        ensures
            r == SharkyStackMode::Indexed,
    {
        SharkyStackMode::Indexed
    }
}

/// An operand: nothing, a constant, or the value at a stack index.
#[derive(Debug, Clone)]
pub enum SharkyParameter<T> {
    Empty,
    Constant(T),
    StackIndex(usize),
}

impl<T> Default for SharkyParameter<T> {
    fn default() -> (r: Self)
        ensures
            r is Empty,
    {
        SharkyParameter::Empty
    }
}

pub type SharkyIndexParameter = SharkyParameter<usize>;

/// The instruction set that addresses operands through `SharkyParameter`.
#[derive(Debug, Clone)]
pub enum SharkyInstruction {
    NoOperation,
    SetStackMode(SharkyStackMode),
    SelectLocalStack(SharkyIndexParameter),
    PushLocalStack,
    PopLocalStack,
    PushMax(SharkyParameter<SharkyMax>),
    PushInt(SharkyParameter<SharkyInt>),
    PushReal(SharkyParameter<SharkyRealBits>),
    PushByte(SharkyParameter<SharkyByte>),
    PushBool(SharkyParameter<SharkyBool>),
    PushHeapReference(SharkyParameter<SharkyHeapFrameIndex>),
    PushNil,
    ToMax(SharkyIndexParameter),
    ToByte(SharkyIndexParameter),
    ToInt(SharkyIndexParameter),
    PushTransition(SharkyIndexParameter),
    CopyTransition(SharkyIndexParameter),
    Copy(SharkyIndexParameter),
    Nilify(SharkyIndexParameter),
    Assign(SharkyIndexParameter, SharkyIndexParameter),
    Pop,
    Clear,
    CreateHeap,
    CloneHeap,
    SizeHeap,
    PushHeap,
    SelectHeap(SharkyIndexParameter),
    WriteHeap(SharkyIndexParameter, SharkyIndexParameter),
    ReadHeap(SharkyIndexParameter, SharkyIndexParameter),
    Add(SharkyIndexParameter, SharkyIndexParameter),
    Subtract(SharkyIndexParameter, SharkyIndexParameter),
    Multiply(SharkyIndexParameter, SharkyIndexParameter),
    Divide(SharkyIndexParameter, SharkyIndexParameter),
    Modulus(SharkyIndexParameter, SharkyIndexParameter),
    BitLeftShift(SharkyIndexParameter, SharkyIndexParameter),
    BitRightShift(SharkyIndexParameter, SharkyIndexParameter),
    BitAnd(SharkyIndexParameter, SharkyIndexParameter),
    BitXor(SharkyIndexParameter, SharkyIndexParameter),
    BitOr(SharkyIndexParameter, SharkyIndexParameter),
    BitNot(SharkyIndexParameter),
    Not(SharkyIndexParameter),
    And(SharkyIndexParameter, SharkyIndexParameter),
    Or(SharkyIndexParameter, SharkyIndexParameter),
    Equals(SharkyIndexParameter, SharkyIndexParameter),
    NotEquals(SharkyIndexParameter, SharkyIndexParameter),
    GreaterThan(SharkyIndexParameter, SharkyIndexParameter),
    LesserThan(SharkyIndexParameter, SharkyIndexParameter),
    GreaterThanOrEquals(SharkyIndexParameter, SharkyIndexParameter),
    LesserThanOrEquals(SharkyIndexParameter, SharkyIndexParameter),
    Jump(SharkyIndexParameter),
    JumpIfNot(SharkyIndexParameter, SharkyIndexParameter),
    PopJumpIfNot(SharkyIndexParameter),
    SpawnSubtask(SharkyIndexParameter),
    KillSelf,
    FFICall(SharkyIndexParameter),
}

impl Default for SharkyInstruction {
    fn default() -> (r: Self)
        ensures
            r is NoOperation,
    {
        SharkyInstruction::NoOperation
    }
}

pub type SharkyProgram = Vec<SharkyInstruction>;

} // verus!
