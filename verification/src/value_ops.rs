use vstd::prelude::*;

use crate::sharky_data_types::{opt_view, DataModel, SharkyDataType};

verus! {

// Operations on values. Each one is defined for two values of the same
// integer kind (Max, Int or Byte) unless said otherwise, and gives `None`
// for any other pair, for a result that does not fit its kind, for a
// division by zero, and for a shift by at least the kind's width. A Real
// operand is never computed here: floating point belongs to the host.

pub open spec fn spec_try_add(lhs: DataModel, rhs: DataModel) -> Option<DataModel> {
    match (lhs, rhs) {
        (DataModel::Max(a), DataModel::Max(b)) => match a.checked_add(b) {
            Some(v) => Some(DataModel::Max(v)),
            None => None,
        },
        (DataModel::Int(a), DataModel::Int(b)) => match a.checked_add(b) {
            Some(v) => Some(DataModel::Int(v)),
            None => None,
        },
        (DataModel::Byte(a), DataModel::Byte(b)) => match a.checked_add(b) {
            Some(v) => Some(DataModel::Byte(v)),
            None => None,
        },
        _ => None,
    }
}

pub open spec fn spec_try_subtract(lhs: DataModel, rhs: DataModel) -> Option<DataModel> {
    match (lhs, rhs) {
        (DataModel::Max(a), DataModel::Max(b)) => match a.checked_sub(b) {
            Some(v) => Some(DataModel::Max(v)),
            None => None,
        },
        (DataModel::Int(a), DataModel::Int(b)) => match a.checked_sub(b) {
            Some(v) => Some(DataModel::Int(v)),
            None => None,
        },
        (DataModel::Byte(a), DataModel::Byte(b)) => match a.checked_sub(b) {
            Some(v) => Some(DataModel::Byte(v)),
            None => None,
        },
        _ => None,
    }
}

pub open spec fn spec_try_multiply(lhs: DataModel, rhs: DataModel) -> Option<DataModel> {
    match (lhs, rhs) {
        (DataModel::Max(a), DataModel::Max(b)) => match a.checked_mul(b) {
            Some(v) => Some(DataModel::Max(v)),
            None => None,
        },
        (DataModel::Int(a), DataModel::Int(b)) => match a.checked_mul(b) {
            Some(v) => Some(DataModel::Int(v)),
            None => None,
        },
        (DataModel::Byte(a), DataModel::Byte(b)) => match a.checked_mul(b) {
            Some(v) => Some(DataModel::Byte(v)),
            None => None,
        },
        _ => None,
    }
}

pub open spec fn spec_try_divide(lhs: DataModel, rhs: DataModel) -> Option<DataModel> {
    match (lhs, rhs) {
        (DataModel::Max(a), DataModel::Max(b)) => match a.checked_div(b) {
            Some(v) => Some(DataModel::Max(v)),
            None => None,
        },
        (DataModel::Int(a), DataModel::Int(b)) => match a.checked_div(b) {
            Some(v) => Some(DataModel::Int(v)),
            None => None,
        },
        (DataModel::Byte(a), DataModel::Byte(b)) => match a.checked_div(b) {
            Some(v) => Some(DataModel::Byte(v)),
            None => None,
        },
        _ => None,
    }
}

pub open spec fn spec_try_mod(lhs: DataModel, rhs: DataModel) -> Option<DataModel> {
    match (lhs, rhs) {
        (DataModel::Max(a), DataModel::Max(b)) => match a.checked_rem(b) {
            Some(v) => Some(DataModel::Max(v)),
            None => None,
        },
        (DataModel::Int(a), DataModel::Int(b)) => match a.checked_rem(b) {
            Some(v) => Some(DataModel::Int(v)),
            None => None,
        },
        (DataModel::Byte(a), DataModel::Byte(b)) => match a.checked_rem(b) {
            Some(v) => Some(DataModel::Byte(v)),
            None => None,
        },
        _ => None,
    }
}

pub open spec fn spec_try_shift_left(lhs: DataModel, rhs: DataModel) -> Option<DataModel> {
    match (lhs, rhs) {
        (DataModel::Max(a), DataModel::Max(b)) => if b < usize::BITS {
            Some(DataModel::Max(a << b))
        } else {
            None
        },
        (DataModel::Int(a), DataModel::Int(b)) => if 0 <= b < 64 {
            Some(DataModel::Int(a << (b as u32)))
        } else {
            None
        },
        (DataModel::Byte(a), DataModel::Byte(b)) => if b < 8 {
            Some(DataModel::Byte(a << b))
        } else {
            None
        },
        _ => None,
    }
}

pub open spec fn spec_try_shift_right(lhs: DataModel, rhs: DataModel) -> Option<DataModel> {
    match (lhs, rhs) {
        (DataModel::Max(a), DataModel::Max(b)) => if b < usize::BITS {
            Some(DataModel::Max(a >> b))
        } else {
            None
        },
        (DataModel::Int(a), DataModel::Int(b)) => if 0 <= b < 64 {
            Some(DataModel::Int(a >> (b as u32)))
        } else {
            None
        },
        (DataModel::Byte(a), DataModel::Byte(b)) => if b < 8 {
            Some(DataModel::Byte(a >> b))
        } else {
            None
        },
        _ => None,
    }
}

pub open spec fn spec_try_bitwise_and(lhs: DataModel, rhs: DataModel) -> Option<DataModel> {
    match (lhs, rhs) {
        (DataModel::Max(a), DataModel::Max(b)) => Some(DataModel::Max(a & b)),
        (DataModel::Int(a), DataModel::Int(b)) => Some(DataModel::Int(a & b)),
        (DataModel::Byte(a), DataModel::Byte(b)) => Some(DataModel::Byte(a & b)),
        _ => None,
    }
}

pub open spec fn spec_try_bitwise_or(lhs: DataModel, rhs: DataModel) -> Option<DataModel> {
    match (lhs, rhs) {
        (DataModel::Max(a), DataModel::Max(b)) => Some(DataModel::Max(a | b)),
        (DataModel::Int(a), DataModel::Int(b)) => Some(DataModel::Int(a | b)),
        (DataModel::Byte(a), DataModel::Byte(b)) => Some(DataModel::Byte(a | b)),
        _ => None,
    }
}

pub open spec fn spec_try_bitwise_xor(lhs: DataModel, rhs: DataModel) -> Option<DataModel> {
    match (lhs, rhs) {
        (DataModel::Max(a), DataModel::Max(b)) => Some(DataModel::Max(a ^ b)),
        (DataModel::Int(a), DataModel::Int(b)) => Some(DataModel::Int(a ^ b)),
        (DataModel::Byte(a), DataModel::Byte(b)) => Some(DataModel::Byte(a ^ b)),
        _ => None,
    }
}

pub open spec fn spec_try_bitwise_not(value: DataModel) -> Option<DataModel> {
    match value {
        DataModel::Max(a) => Some(DataModel::Max(!a)),
        DataModel::Int(a) => Some(DataModel::Int(!a)),
        DataModel::Byte(a) => Some(DataModel::Byte(!a)),
        _ => None,
    }
}

/// `Bool(lhs == rhs)` for two values of the same kind other than Real;
/// byte strings are equal when their bytes are.
pub open spec fn spec_try_equals(lhs: DataModel, rhs: DataModel) -> Option<DataModel> {
    match (lhs, rhs) {
        (DataModel::Nil, DataModel::Nil) => Some(DataModel::Bool(true)),
        (DataModel::Max(a), DataModel::Max(b)) => Some(DataModel::Bool(a == b)),
        (DataModel::Int(a), DataModel::Int(b)) => Some(DataModel::Bool(a == b)),
        (DataModel::Byte(a), DataModel::Byte(b)) => Some(DataModel::Bool(a == b)),
        (DataModel::Bool(a), DataModel::Bool(b)) => Some(DataModel::Bool(a == b)),
        (DataModel::HeapReference(a), DataModel::HeapReference(b)) => Some(
            DataModel::Bool(a == b),
        ),
        (DataModel::ByteString(a), DataModel::ByteString(b)) => Some(DataModel::Bool(a == b)),
        _ => None,
    }
}

/// `Bool(lhs > rhs)` for two values of the same ordered kind: Nil (never
/// greater), Max, Int, Byte, Bool (true above false) and HeapReference.
pub open spec fn spec_try_greater_than(lhs: DataModel, rhs: DataModel) -> Option<DataModel> {
    match (lhs, rhs) {
        (DataModel::Nil, DataModel::Nil) => Some(DataModel::Bool(false)),
        (DataModel::Max(a), DataModel::Max(b)) => Some(DataModel::Bool(a > b)),
        (DataModel::Int(a), DataModel::Int(b)) => Some(DataModel::Bool(a > b)),
        (DataModel::Byte(a), DataModel::Byte(b)) => Some(DataModel::Bool(a > b)),
        (DataModel::Bool(a), DataModel::Bool(b)) => Some(DataModel::Bool(a && !b)),
        (DataModel::HeapReference(a), DataModel::HeapReference(b)) => Some(
            DataModel::Bool(a > b),
        ),
        _ => None,
    }
}

/// `Bool(lhs < rhs)` for two values of the same ordered kind.
pub open spec fn spec_try_less_than(lhs: DataModel, rhs: DataModel) -> Option<DataModel> {
    spec_try_greater_than(rhs, lhs)
}

pub open spec fn spec_to_max(value: DataModel) -> Option<DataModel> {
    match value {
        DataModel::Max(v) => Some(DataModel::Max(v)),
        DataModel::Int(v) => Some(DataModel::Max(v as usize)),
        DataModel::Byte(v) => Some(DataModel::Max(v as usize)),
        DataModel::HeapReference(v) => Some(DataModel::Max(v)),
        _ => None,
    }
}

pub open spec fn spec_to_int(value: DataModel) -> Option<DataModel> {
    match value {
        DataModel::Max(v) => Some(DataModel::Int(v as i64)),
        DataModel::Int(v) => Some(DataModel::Int(v)),
        DataModel::Byte(v) => Some(DataModel::Int(v as i64)),
        _ => None,
    }
}

pub open spec fn spec_to_byte(value: DataModel) -> Option<DataModel> {
    match value {
        DataModel::Max(v) => Some(DataModel::Byte(v as u8)),
        DataModel::Int(v) => Some(DataModel::Byte(v as u8)),
        DataModel::Byte(v) => Some(DataModel::Byte(v)),
        _ => None,
    }
}

pub open spec fn spec_to_bool(value: DataModel) -> Option<DataModel> {
    match value {
        DataModel::Max(v) => Some(DataModel::Bool(v != 0)),
        DataModel::Int(v) => Some(DataModel::Bool(v != 0)),
        DataModel::Byte(v) => Some(DataModel::Bool(v != 0)),
        DataModel::Bool(v) => Some(DataModel::Bool(v)),
        _ => None,
    }
}

pub open spec fn spec_to_heap_reference(value: DataModel) -> Option<DataModel> {
    match value {
        DataModel::Max(v) => Some(DataModel::HeapReference(v)),
        DataModel::HeapReference(v) => Some(DataModel::HeapReference(v)),
        _ => None,
    }
}

impl SharkyDataType {
    pub fn try_add(lhs: SharkyDataType, rhs: SharkyDataType) -> (r: Option<SharkyDataType>)
        ensures
            opt_view(r) == spec_try_add(lhs@, rhs@),
    {
        match (lhs, rhs) {
            (SharkyDataType::Max(a), SharkyDataType::Max(b)) => match a.checked_add(b) {
                Some(v) => Some(SharkyDataType::Max(v)),
                None => None,
            },
            (SharkyDataType::Int(a), SharkyDataType::Int(b)) => match a.checked_add(b) {
                Some(v) => Some(SharkyDataType::Int(v)),
                None => None,
            },
            (SharkyDataType::Byte(a), SharkyDataType::Byte(b)) => match a.checked_add(b) {
                Some(v) => Some(SharkyDataType::Byte(v)),
                None => None,
            },
            _ => None,
        }
    }

    pub fn try_subtract(lhs: SharkyDataType, rhs: SharkyDataType) -> (r: Option<SharkyDataType>)
        ensures
            opt_view(r) == spec_try_subtract(lhs@, rhs@),
    {
        match (lhs, rhs) {
            (SharkyDataType::Max(a), SharkyDataType::Max(b)) => match a.checked_sub(b) {
                Some(v) => Some(SharkyDataType::Max(v)),
                None => None,
            },
            (SharkyDataType::Int(a), SharkyDataType::Int(b)) => match a.checked_sub(b) {
                Some(v) => Some(SharkyDataType::Int(v)),
                None => None,
            },
            (SharkyDataType::Byte(a), SharkyDataType::Byte(b)) => match a.checked_sub(b) {
                Some(v) => Some(SharkyDataType::Byte(v)),
                None => None,
            },
            _ => None,
        }
    }

    pub fn try_multiply(lhs: SharkyDataType, rhs: SharkyDataType) -> (r: Option<SharkyDataType>)
        ensures
            opt_view(r) == spec_try_multiply(lhs@, rhs@),
    {
        match (lhs, rhs) {
            (SharkyDataType::Max(a), SharkyDataType::Max(b)) => match a.checked_mul(b) {
                Some(v) => Some(SharkyDataType::Max(v)),
                None => None,
            },
            (SharkyDataType::Int(a), SharkyDataType::Int(b)) => match a.checked_mul(b) {
                Some(v) => Some(SharkyDataType::Int(v)),
                None => None,
            },
            (SharkyDataType::Byte(a), SharkyDataType::Byte(b)) => match a.checked_mul(b) {
                Some(v) => Some(SharkyDataType::Byte(v)),
                None => None,
            },
            _ => None,
        }
    }

    pub fn try_divide(lhs: SharkyDataType, rhs: SharkyDataType) -> (r: Option<SharkyDataType>)
        ensures
            opt_view(r) == spec_try_divide(lhs@, rhs@),
    {
        match (lhs, rhs) {
            (SharkyDataType::Max(a), SharkyDataType::Max(b)) => match a.checked_div(b) {
                Some(v) => Some(SharkyDataType::Max(v)),
                None => None,
            },
            (SharkyDataType::Int(a), SharkyDataType::Int(b)) => match a.checked_div(b) {
                Some(v) => Some(SharkyDataType::Int(v)),
                None => None,
            },
            (SharkyDataType::Byte(a), SharkyDataType::Byte(b)) => match a.checked_div(b) {
                Some(v) => Some(SharkyDataType::Byte(v)),
                None => None,
            },
            _ => None,
        }
    }

    pub fn try_mod(lhs: SharkyDataType, rhs: SharkyDataType) -> (r: Option<SharkyDataType>)
        ensures
            opt_view(r) == spec_try_mod(lhs@, rhs@),
    {
        match (lhs, rhs) {
            (SharkyDataType::Max(a), SharkyDataType::Max(b)) => match a.checked_rem(b) {
                Some(v) => Some(SharkyDataType::Max(v)),
                None => None,
            },
            (SharkyDataType::Int(a), SharkyDataType::Int(b)) => match a.checked_rem(b) {
                Some(v) => Some(SharkyDataType::Int(v)),
                None => None,
            },
            (SharkyDataType::Byte(a), SharkyDataType::Byte(b)) => match a.checked_rem(b) {
                Some(v) => Some(SharkyDataType::Byte(v)),
                None => None,
            },
            _ => None,
        }
    }

    pub fn try_shift_left(lhs: SharkyDataType, rhs: SharkyDataType) -> (r: Option<SharkyDataType>)
        ensures
            opt_view(r) == spec_try_shift_left(lhs@, rhs@),
    {
        match (lhs, rhs) {
            (SharkyDataType::Max(a), SharkyDataType::Max(b)) => if b < usize::BITS as usize {
                Some(SharkyDataType::Max(a << b))
            } else {
                None
            },
            (SharkyDataType::Int(a), SharkyDataType::Int(b)) => if 0 <= b && b < 64 {
                Some(SharkyDataType::Int(a << (b as u32)))
            } else {
                None
            },
            (SharkyDataType::Byte(a), SharkyDataType::Byte(b)) => if b < 8 {
                Some(SharkyDataType::Byte(a << b))
            } else {
                None
            },
            _ => None,
        }
    }

    pub fn try_shift_right(lhs: SharkyDataType, rhs: SharkyDataType) -> (r: Option<SharkyDataType>)
        ensures
            opt_view(r) == spec_try_shift_right(lhs@, rhs@),
    {
        match (lhs, rhs) {
            (SharkyDataType::Max(a), SharkyDataType::Max(b)) => if b < usize::BITS as usize {
                Some(SharkyDataType::Max(a >> b))
            } else {
                None
            },
            (SharkyDataType::Int(a), SharkyDataType::Int(b)) => if 0 <= b && b < 64 {
                Some(SharkyDataType::Int(a >> (b as u32)))
            } else {
                None
            },
            (SharkyDataType::Byte(a), SharkyDataType::Byte(b)) => if b < 8 {
                Some(SharkyDataType::Byte(a >> b))
            } else {
                None
            },
            _ => None,
        }
    }

    pub fn try_bitwise_and(lhs: SharkyDataType, rhs: SharkyDataType) -> (r: Option<SharkyDataType>)
        ensures
            opt_view(r) == spec_try_bitwise_and(lhs@, rhs@),
    {
        match (lhs, rhs) {
            (SharkyDataType::Max(a), SharkyDataType::Max(b)) => Some(SharkyDataType::Max(a & b)),
            (SharkyDataType::Int(a), SharkyDataType::Int(b)) => Some(SharkyDataType::Int(a & b)),
            (SharkyDataType::Byte(a), SharkyDataType::Byte(b)) => Some(SharkyDataType::Byte(a & b)),
            _ => None,
        }
    }

    pub fn try_bitwise_or(lhs: SharkyDataType, rhs: SharkyDataType) -> (r: Option<SharkyDataType>)
        ensures
            opt_view(r) == spec_try_bitwise_or(lhs@, rhs@),
    {
        match (lhs, rhs) {
            (SharkyDataType::Max(a), SharkyDataType::Max(b)) => Some(SharkyDataType::Max(a | b)),
            (SharkyDataType::Int(a), SharkyDataType::Int(b)) => Some(SharkyDataType::Int(a | b)),
            (SharkyDataType::Byte(a), SharkyDataType::Byte(b)) => Some(SharkyDataType::Byte(a | b)),
            _ => None,
        }
    }

    pub fn try_bitwise_xor(lhs: SharkyDataType, rhs: SharkyDataType) -> (r: Option<SharkyDataType>)
        ensures
            opt_view(r) == spec_try_bitwise_xor(lhs@, rhs@),
    {
        match (lhs, rhs) {
            (SharkyDataType::Max(a), SharkyDataType::Max(b)) => Some(SharkyDataType::Max(a ^ b)),
            (SharkyDataType::Int(a), SharkyDataType::Int(b)) => Some(SharkyDataType::Int(a ^ b)),
            (SharkyDataType::Byte(a), SharkyDataType::Byte(b)) => Some(SharkyDataType::Byte(a ^ b)),
            _ => None,
        }
    }

    pub fn try_bitwise_not(value: SharkyDataType) -> (r: Option<SharkyDataType>)
        ensures
            opt_view(r) == spec_try_bitwise_not(value@),
    {
        match value {
            SharkyDataType::Max(a) => Some(SharkyDataType::Max(!a)),
            SharkyDataType::Int(a) => Some(SharkyDataType::Int(!a)),
            SharkyDataType::Byte(a) => Some(SharkyDataType::Byte(!a)),
            _ => None,
        }
    }

    pub fn try_equals(lhs: SharkyDataType, rhs: SharkyDataType) -> (r: Option<SharkyDataType>)
        ensures
            opt_view(r) == spec_try_equals(lhs@, rhs@),
    {
        match (&lhs, &rhs) {
            (SharkyDataType::Nil, SharkyDataType::Nil) => Some(SharkyDataType::Bool(true)),
            (SharkyDataType::Max(a), SharkyDataType::Max(b)) => Some(SharkyDataType::Bool(*a == *b)),
            (SharkyDataType::Int(a), SharkyDataType::Int(b)) => Some(SharkyDataType::Bool(*a == *b)),
            (SharkyDataType::Byte(a), SharkyDataType::Byte(b)) => Some(
                SharkyDataType::Bool(*a == *b),
            ),
            (SharkyDataType::Bool(a), SharkyDataType::Bool(b)) => Some(
                SharkyDataType::Bool(*a == *b),
            ),
            (SharkyDataType::HeapReference(a), SharkyDataType::HeapReference(b)) => Some(
                SharkyDataType::Bool(*a == *b),
            ),
            (SharkyDataType::ByteString(_), SharkyDataType::ByteString(_)) => Some(
                SharkyDataType::Bool(lhs.same_value(&rhs)),
            ),
            _ => None,
        }
    }

    pub fn try_greater_than(lhs: SharkyDataType, rhs: SharkyDataType) -> (r: Option<SharkyDataType>)
        ensures
            opt_view(r) == spec_try_greater_than(lhs@, rhs@),
    {
        match (lhs, rhs) {
            (SharkyDataType::Nil, SharkyDataType::Nil) => Some(SharkyDataType::Bool(false)),
            (SharkyDataType::Max(a), SharkyDataType::Max(b)) => Some(SharkyDataType::Bool(a > b)),
            (SharkyDataType::Int(a), SharkyDataType::Int(b)) => Some(SharkyDataType::Bool(a > b)),
            (SharkyDataType::Byte(a), SharkyDataType::Byte(b)) => Some(SharkyDataType::Bool(a > b)),
            (SharkyDataType::Bool(a), SharkyDataType::Bool(b)) => Some(
                SharkyDataType::Bool(a && !b),
            ),
            (SharkyDataType::HeapReference(a), SharkyDataType::HeapReference(b)) => Some(
                SharkyDataType::Bool(a > b),
            ),
            _ => None,
        }
    }

    pub fn try_less_than(lhs: SharkyDataType, rhs: SharkyDataType) -> (r: Option<SharkyDataType>)
        ensures
            opt_view(r) == spec_try_less_than(lhs@, rhs@),
    {
        Self::try_greater_than(rhs, lhs)
    }

    pub fn to_max(&self) -> (r: Option<SharkyDataType>)
        ensures
            opt_view(r) == spec_to_max(self@),
    {
        match self {
            SharkyDataType::Max(v) => Some(SharkyDataType::Max(*v)),
            SharkyDataType::Int(v) => Some(SharkyDataType::Max(*v as usize)),
            SharkyDataType::Byte(v) => Some(SharkyDataType::Max(*v as usize)),
            SharkyDataType::HeapReference(v) => Some(SharkyDataType::Max(*v)),
            _ => None,
        }
    }

    pub fn to_int(&self) -> (r: Option<SharkyDataType>)
        ensures
            opt_view(r) == spec_to_int(self@),
    {
        match self {
            SharkyDataType::Max(v) => Some(SharkyDataType::Int(*v as i64)),
            SharkyDataType::Int(v) => Some(SharkyDataType::Int(*v)),
            SharkyDataType::Byte(v) => Some(SharkyDataType::Int(*v as i64)),
            _ => None,
        }
    }

    pub fn to_byte(&self) -> (r: Option<SharkyDataType>)
        ensures
            opt_view(r) == spec_to_byte(self@),
    {
        match self {
            SharkyDataType::Max(v) => Some(SharkyDataType::Byte(*v as u8)),
            SharkyDataType::Int(v) => Some(SharkyDataType::Byte(*v as u8)),
            SharkyDataType::Byte(v) => Some(SharkyDataType::Byte(*v)),
            _ => None,
        }
    }

    pub fn to_bool(&self) -> (r: Option<SharkyDataType>)
        ensures
            opt_view(r) == spec_to_bool(self@),
    {
        match self {
            SharkyDataType::Max(v) => Some(SharkyDataType::Bool(*v != 0)),
            SharkyDataType::Int(v) => Some(SharkyDataType::Bool(*v != 0)),
            SharkyDataType::Byte(v) => Some(SharkyDataType::Bool(*v != 0)),
            SharkyDataType::Bool(v) => Some(SharkyDataType::Bool(*v)),
            _ => None,
        }
    }

    pub fn to_heap_reference(&self) -> (r: Option<SharkyDataType>)
        ensures
            opt_view(r) == spec_to_heap_reference(self@),
    {
        match self {
            SharkyDataType::Max(v) => Some(SharkyDataType::HeapReference(*v)),
            SharkyDataType::HeapReference(v) => Some(SharkyDataType::HeapReference(*v)),
            _ => None,
        }
    }
}


/// Adding two values gives the same result in either order.
pub proof fn law_add_commutes(a: DataModel, b: DataModel)
    ensures
        spec_try_add(a, b) == spec_try_add(b, a),
{
}

/// Multiplying two values gives the same result in either order.
pub proof fn law_multiply_commutes(a: DataModel, b: DataModel)
    ensures
        spec_try_multiply(a, b) == spec_try_multiply(b, a),
{
    match (a, b) {
        (DataModel::Max(x), DataModel::Max(y)) => {
            assert(x * y == y * x) by (nonlinear_arith);
        },
        (DataModel::Int(x), DataModel::Int(y)) => {
            assert(x * y == y * x) by (nonlinear_arith);
        },
        (DataModel::Byte(x), DataModel::Byte(y)) => {
            assert(x * y == y * x) by (nonlinear_arith);
        },
        _ => {},
    }
}

/// Subtracting what was added gives the first value back.
pub proof fn law_subtract_undoes_add(a: DataModel, b: DataModel)
    requires
        spec_try_add(a, b) is Some,
    ensures
        spec_try_subtract(spec_try_add(a, b)->0, b) == Some(a),
{
}

/// Bitwise and, or and xor give the same result in either order.
pub proof fn law_bitwise_commutes(a: DataModel, b: DataModel)
    ensures
        spec_try_bitwise_and(a, b) == spec_try_bitwise_and(b, a),
        spec_try_bitwise_or(a, b) == spec_try_bitwise_or(b, a),
        spec_try_bitwise_xor(a, b) == spec_try_bitwise_xor(b, a),
{
    match (a, b) {
        (DataModel::Max(x), DataModel::Max(y)) => {
            assert(x & y == y & x && x | y == y | x && x ^ y == y ^ x) by (bit_vector);
        },
        (DataModel::Int(x), DataModel::Int(y)) => {
            assert(x & y == y & x && x | y == y | x && x ^ y == y ^ x) by (bit_vector);
        },
        (DataModel::Byte(x), DataModel::Byte(y)) => {
            assert(x & y == y & x && x | y == y | x && x ^ y == y ^ x) by (bit_vector);
        },
        _ => {},
    }
}

/// Inverting the bits of a value twice gives the value back.
pub proof fn law_bitwise_not_twice(a: DataModel)
    requires
        spec_try_bitwise_not(a) is Some,
    ensures
        spec_try_bitwise_not(spec_try_bitwise_not(a)->0) == Some(a),
{
    match a {
        DataModel::Max(x) => {
            assert(!!x == x) by (bit_vector);
        },
        DataModel::Int(x) => {
            assert(!!x == x) by (bit_vector);
        },
        DataModel::Byte(x) => {
            assert(!!x == x) by (bit_vector);
        },
        _ => {},
    }
}

/// Equality gives the same result in either order, and a value of a kind
/// that can be compared equals itself.
pub proof fn law_equals_symmetric(a: DataModel, b: DataModel)
    ensures
        spec_try_equals(a, b) == spec_try_equals(b, a),
        spec_try_equals(a, a) is Some ==> spec_try_equals(a, a) == Some(DataModel::Bool(true)),
{
}

/// Of two values of an ordered kind, at most one is greater than the other,
/// and `<` is `>` with its operands swapped.
pub proof fn law_order_antisymmetric(a: DataModel, b: DataModel)
    ensures
        spec_try_greater_than(a, b) == Some(DataModel::Bool(true)) ==> spec_try_greater_than(b, a)
            == Some(DataModel::Bool(false)),
        spec_try_less_than(a, b) == spec_try_greater_than(b, a),
{
}

/// A byte converted to an integer or an index and back is the same byte.
pub proof fn law_byte_conversion_round_trip(b: u8)
    ensures
        spec_to_int(DataModel::Byte(b)) matches Some(v) && spec_to_byte(v) == Some(DataModel::Byte(b)),
        spec_to_max(DataModel::Byte(b)) matches Some(v) && spec_to_byte(v) == Some(DataModel::Byte(b)),
{
    assert((b as i64) as u8 == b) by (bit_vector);
    assert((b as usize) as u8 == b) by (bit_vector);
}


/// Whether `r` is the index `n`, or nothing when `n` is not an index.
pub open spec fn gives_max(r: Option<DataModel>, n: int) -> bool {
    if 0 <= n <= usize::MAX {
        r matches Some(DataModel::Max(z)) && z == n
    } else {
        r is None
    }
}

/// Whether `r` is the integer `n`, or nothing when `n` does not fit in 64 bits.
pub open spec fn gives_int(r: Option<DataModel>, n: int) -> bool {
    if i64::MIN <= n <= i64::MAX {
        r matches Some(DataModel::Int(z)) && z == n
    } else {
        r is None
    }
}

/// Whether `r` is the byte `n`, or nothing when `n` is not a byte.
pub open spec fn gives_byte(r: Option<DataModel>, n: int) -> bool {
    if 0 <= n <= 255 {
        r matches Some(DataModel::Byte(z)) && z == n
    } else {
        r is None
    }
}

/// Arithmetic on two indexes gives the mathematical sum, difference,
/// product, quotient and remainder when it is an index, and nothing
/// otherwise; dividing by zero gives nothing.
pub proof fn law_index_arithmetic(x: usize, y: usize)
    ensures
        gives_max(spec_try_add(DataModel::Max(x), DataModel::Max(y)), x + y),
        gives_max(spec_try_subtract(DataModel::Max(x), DataModel::Max(y)), x - y),
        gives_max(spec_try_multiply(DataModel::Max(x), DataModel::Max(y)), x * y),
        y != 0 ==> gives_max(spec_try_divide(DataModel::Max(x), DataModel::Max(y)), x as int / y as int),
        y != 0 ==> gives_max(spec_try_mod(DataModel::Max(x), DataModel::Max(y)), x as int % y as int),
        y == 0 ==> spec_try_divide(DataModel::Max(x), DataModel::Max(y)) is None,
        y == 0 ==> spec_try_mod(DataModel::Max(x), DataModel::Max(y)) is None,
{
}

/// Arithmetic on two bytes gives the mathematical result when it is a byte,
/// and nothing otherwise; dividing by zero gives nothing.
pub proof fn law_byte_arithmetic(x: u8, y: u8)
    ensures
        gives_byte(spec_try_add(DataModel::Byte(x), DataModel::Byte(y)), x + y),
        gives_byte(spec_try_subtract(DataModel::Byte(x), DataModel::Byte(y)), x - y),
        gives_byte(spec_try_multiply(DataModel::Byte(x), DataModel::Byte(y)), x * y),
        y != 0 ==> gives_byte(spec_try_divide(DataModel::Byte(x), DataModel::Byte(y)), x as int / y as int),
        y != 0 ==> gives_byte(spec_try_mod(DataModel::Byte(x), DataModel::Byte(y)), x as int % y as int),
        y == 0 ==> spec_try_divide(DataModel::Byte(x), DataModel::Byte(y)) is None,
        y == 0 ==> spec_try_mod(DataModel::Byte(x), DataModel::Byte(y)) is None,
{
}

/// Arithmetic on two integers gives the mathematical sum, difference and
/// product when it fits in 64 bits, and nothing otherwise; division and
/// remainder of a non-negative integer by a positive one are the usual
/// ones; dividing by zero gives nothing.
pub proof fn law_integer_arithmetic(x: i64, y: i64)
    ensures
        gives_int(spec_try_add(DataModel::Int(x), DataModel::Int(y)), x + y),
        gives_int(spec_try_subtract(DataModel::Int(x), DataModel::Int(y)), x - y),
        gives_int(spec_try_multiply(DataModel::Int(x), DataModel::Int(y)), x * y),
        x >= 0 && y > 0 ==> gives_int(spec_try_divide(DataModel::Int(x), DataModel::Int(y)), x as int / y as int),
        x >= 0 && y > 0 ==> gives_int(spec_try_mod(DataModel::Int(x), DataModel::Int(y)), x as int % y as int),
        y == 0 ==> spec_try_divide(DataModel::Int(x), DataModel::Int(y)) is None,
        y == 0 ==> spec_try_mod(DataModel::Int(x), DataModel::Int(y)) is None,
{
    if y != 0 {
        lemma_signed_division(x, y);
    }
    if x >= 0 && y > 0 {
        let (a, b) = (x as int, y as int);
        assert(0 <= a % b < b && 0 <= a / b <= a) by (nonlinear_arith)
            requires
                a >= 0,
                b > 0,
        ;
        if x == 0 {
            assert(0int % b == 0) by (nonlinear_arith) requires b > 0;
        }
        assert(x.checked_rem(y) == Some((a % b) as i64));
    }
}

/// Integer division and remainder round toward zero: the quotient of
/// integers of different signs is the negated quotient of their magnitudes,
/// and the remainder takes the sign of the dividend; the one quotient that
/// does not fit in 64 bits, and its remainder, give nothing.
pub proof fn law_integer_division_signs(x: i64, y: i64)
    requires
        y != 0,
    ensures
        x < 0 && y > 0 ==> gives_int(spec_try_divide(DataModel::Int(x), DataModel::Int(y)), -((-x) / (y as int))),
        x >= 0 && y < 0 ==> gives_int(spec_try_divide(DataModel::Int(x), DataModel::Int(y)), -((x as int) / (-y))),
        x < 0 && y < 0 ==> gives_int(spec_try_divide(DataModel::Int(x), DataModel::Int(y)), (-x) / (-y)),
        x < 0 && y > 0 ==> gives_int(spec_try_mod(DataModel::Int(x), DataModel::Int(y)), -((-x) % (y as int))),
        x >= 0 && y < 0 ==> gives_int(spec_try_mod(DataModel::Int(x), DataModel::Int(y)), (x as int) % (-y)),
        x < 0 && y < 0 && !(x == i64::MIN && y == -1) ==> gives_int(
            spec_try_mod(DataModel::Int(x), DataModel::Int(y)),
            -((-x) % (-y)),
        ),
        x == i64::MIN && y == -1 ==> spec_try_divide(DataModel::Int(x), DataModel::Int(y)) is None,
        x == i64::MIN && y == -1 ==> spec_try_mod(DataModel::Int(x), DataModel::Int(y)) is None,
{
    lemma_signed_division(x, y);
    if x == i64::MIN && y == -1 {
        let (a, b) = (x as int, y as int);
        assert((a * -1) / (b * -1) == 0x8000_0000_0000_0000int) by (nonlinear_arith)
            requires
                a == -0x8000_0000_0000_0000int,
                b == -1,
        ;
    }
}

proof fn lemma_signed_division(x: i64, y: i64)
    requires
        y != 0,
    ensures
        x < 0 && y > 0 ==> 0 <= (-x) / (y as int) <= -x && 0 <= (-x) % (y as int) < y,
        x >= 0 && y < 0 ==> 0 <= (x as int) / (-y) <= x && 0 <= (x as int) % (-y) < -y,
        x < 0 && y < 0 ==> 0 <= (-x) / (-y) <= -x && 0 <= (-x) % (-y) < -y,
        y < 0 ==> 0int % (-y) == 0 && 0int / (-y) == 0,
{
    let (a, b) = (x as int, y as int);
    if a < 0 && b > 0 {
        assert(0 <= (-a) / b <= -a && 0 <= (-a) % b < b) by (nonlinear_arith)
            requires
                -a > 0,
                b > 0,
        ;
    }
    if a >= 0 && b < 0 {
        assert(0 <= a / (-b) <= a && 0 <= a % (-b) < -b) by (nonlinear_arith)
            requires
                a >= 0,
                -b > 0,
        ;
    }
    if b < 0 {
        assert(0int % (-b) == 0 && 0int / (-b) == 0) by (nonlinear_arith)
            requires
                -b > 0,
        ;
    }
    if a < 0 && b < 0 {
        assert(0 <= (-a) / (-b) <= -a && 0 <= (-a) % (-b) < -b) by (nonlinear_arith)
            requires
                -a > 0,
                -b > 0,
        ;
    }
}

/// Comparing two values of the same ordered kind gives whether the first is
/// greater, smaller, or equal, as numbers (for indexes, integers, bytes and
/// heap references) or with `false` below `true` (for booleans).
pub proof fn law_comparisons(a: DataModel, b: DataModel)
    ensures
        (a, b) matches (DataModel::Max(x), DataModel::Max(y)) ==> {
            &&& spec_try_greater_than(a, b) == Some(DataModel::Bool(x > y))
            &&& spec_try_less_than(a, b) == Some(DataModel::Bool(x < y))
            &&& spec_try_equals(a, b) == Some(DataModel::Bool(x == y))
        },
        (a, b) matches (DataModel::Int(x), DataModel::Int(y)) ==> {
            &&& spec_try_greater_than(a, b) == Some(DataModel::Bool(x > y))
            &&& spec_try_less_than(a, b) == Some(DataModel::Bool(x < y))
            &&& spec_try_equals(a, b) == Some(DataModel::Bool(x == y))
        },
        (a, b) matches (DataModel::Byte(x), DataModel::Byte(y)) ==> {
            &&& spec_try_greater_than(a, b) == Some(DataModel::Bool(x > y))
            &&& spec_try_less_than(a, b) == Some(DataModel::Bool(x < y))
            &&& spec_try_equals(a, b) == Some(DataModel::Bool(x == y))
        },
        (a, b) matches (DataModel::HeapReference(x), DataModel::HeapReference(y)) ==> {
            &&& spec_try_greater_than(a, b) == Some(DataModel::Bool(x > y))
            &&& spec_try_less_than(a, b) == Some(DataModel::Bool(x < y))
            &&& spec_try_equals(a, b) == Some(DataModel::Bool(x == y))
        },
        (a, b) matches (DataModel::Bool(x), DataModel::Bool(y)) ==> {
            &&& spec_try_greater_than(a, b) == Some(DataModel::Bool(x && !y))
            &&& spec_try_less_than(a, b) == Some(DataModel::Bool(!x && y))
            &&& spec_try_equals(a, b) == Some(DataModel::Bool(x == y))
        },
{
}

/// Converting keeps a value that fits the new kind: an index or byte that
/// fits in 64 bits becomes that integer, an integer that is an index or a byte or
/// a heap reference becomes that index, an index or integer below 256
/// becomes that byte, a number becomes whether it is not zero, and an index
/// becomes a reference to that frame; an index taken to an integer and back
/// is the same index.
pub proof fn law_conversions(v: DataModel)
    ensures
        v matches DataModel::Max(x) ==> (x <= i64::MAX) ==> (spec_to_int(v) matches Some(DataModel::Int(z)) && z == x),
        v matches DataModel::Max(x) ==> (x <= i64::MAX) ==> (spec_to_int(v) matches Some(w) && spec_to_max(w) == Some(v)),
        v matches DataModel::Byte(x) ==> (spec_to_int(v) matches Some(DataModel::Int(z)) && z == x),
        v matches DataModel::Int(x) ==> spec_to_int(v) == Some(v),
        v matches DataModel::Int(x) ==> (0 <= x <= usize::MAX) ==> (spec_to_max(v) matches Some(DataModel::Max(z)) && z == x),
        v matches DataModel::Byte(x) ==> (spec_to_max(v) matches Some(DataModel::Max(z)) && z == x),
        v matches DataModel::HeapReference(x) ==> spec_to_max(v) == Some(DataModel::Max(x)),
        v matches DataModel::Max(x) ==> spec_to_max(v) == Some(v),
        v matches DataModel::Max(x) ==> (x < 256) ==> (spec_to_byte(v) matches Some(DataModel::Byte(z)) && z == x),
        v matches DataModel::Int(x) ==> (0 <= x < 256) ==> (spec_to_byte(v) matches Some(DataModel::Byte(z)) && z == x),
        v matches DataModel::Byte(x) ==> spec_to_byte(v) == Some(v),
        v matches DataModel::Max(x) ==> spec_to_bool(v) == Some(DataModel::Bool(x != 0)),
        v matches DataModel::Int(x) ==> spec_to_bool(v) == Some(DataModel::Bool(x != 0)),
        v matches DataModel::Byte(x) ==> spec_to_bool(v) == Some(DataModel::Bool(x != 0)),
        v matches DataModel::Bool(x) ==> spec_to_bool(v) == Some(v),
        v matches DataModel::Max(x) ==> spec_to_heap_reference(v) == Some(DataModel::HeapReference(x)),
        v matches DataModel::HeapReference(x) ==> spec_to_heap_reference(v) == Some(v),
{
}


/// Bitwise `and`, `or` and `xor` of two values of the same integer kind
/// relate as bits do: `and` plus `or` is the sum of the operands, `xor` is
/// `or` minus `and`, and `and` is at most either operand (for the unsigned
/// kinds).
pub proof fn law_bitwise_relations(a: DataModel, b: DataModel)
    ensures
        (a, b) matches (DataModel::Max(x), DataModel::Max(y)) ==> (spec_try_bitwise_and(a, b), spec_try_bitwise_or(a, b), spec_try_bitwise_xor(a, b))
            matches (Some(DataModel::Max(p)), Some(DataModel::Max(q)), Some(DataModel::Max(r))) && p + q == x + y && r == q - p && p <= x && p <= y,
        (a, b) matches (DataModel::Byte(x), DataModel::Byte(y)) ==> (spec_try_bitwise_and(a, b), spec_try_bitwise_or(a, b), spec_try_bitwise_xor(a, b))
            matches (Some(DataModel::Byte(p)), Some(DataModel::Byte(q)), Some(DataModel::Byte(r))) && p + q == x + y && r == q - p && p <= x && p <= y,
        (a, b) matches (DataModel::Int(x), DataModel::Int(y)) ==> (spec_try_bitwise_and(a, b), spec_try_bitwise_or(a, b), spec_try_bitwise_xor(a, b))
            matches (Some(DataModel::Int(p)), Some(DataModel::Int(q)), Some(DataModel::Int(r))) && p + q == x + y && r == q - p,
{
    match (a, b) {
        (DataModel::Max(x), DataModel::Max(y)) => {
            assert((x & y) as int + (x | y) as int == x as int + y as int) by (bit_vector);
            assert((x ^ y) as int == (x | y) as int - (x & y) as int) by (bit_vector);
            assert(x & y <= x && x & y <= y) by (bit_vector);
        },
        (DataModel::Byte(x), DataModel::Byte(y)) => {
            assert((x & y) as int + (x | y) as int == x as int + y as int) by (bit_vector);
            assert((x ^ y) as int == (x | y) as int - (x & y) as int) by (bit_vector);
            assert(x & y <= x && x & y <= y) by (bit_vector);
        },
        (DataModel::Int(x), DataModel::Int(y)) => {
            assert((x & y) as int + (x | y) as int == x as int + y as int) by (bit_vector);
            assert((x ^ y) as int == (x | y) as int - (x & y) as int) by (bit_vector);
        },
        _ => {},
    }
}

/// Shifting a byte or an index by one doubles it (dropping the bit shifted
/// out) or halves it (rounding down); an integer shifted right by one is
/// halved rounding down; a shift by the width or more, or for an integer by
/// a negative amount, gives nothing.
pub proof fn law_shifts(x: u8, m: usize, i: i64, k: u8, n: usize, j: i64)
    ensures
        spec_try_shift_left(DataModel::Byte(x), DataModel::Byte(1)) matches Some(DataModel::Byte(z)) && z == (2 * x) % 256,
        spec_try_shift_right(DataModel::Byte(x), DataModel::Byte(1)) matches Some(DataModel::Byte(z)) && z == x / 2,
        spec_try_shift_right(DataModel::Max(m), DataModel::Max(1)) matches Some(DataModel::Max(z)) && z == m / 2,
        spec_try_shift_right(DataModel::Int(i), DataModel::Int(1)) matches Some(DataModel::Int(z)) && z == i / 2,
        k >= 8 ==> spec_try_shift_left(DataModel::Byte(x), DataModel::Byte(k)) is None,
        k >= 8 ==> spec_try_shift_right(DataModel::Byte(x), DataModel::Byte(k)) is None,
        n >= usize::BITS ==> spec_try_shift_left(DataModel::Max(m), DataModel::Max(n)) is None,
        n >= usize::BITS ==> spec_try_shift_right(DataModel::Max(m), DataModel::Max(n)) is None,
        (j < 0 || j >= 64) ==> spec_try_shift_left(DataModel::Int(i), DataModel::Int(j)) is None,
        (j < 0 || j >= 64) ==> spec_try_shift_right(DataModel::Int(i), DataModel::Int(j)) is None,
{
    assert((x << 1u8) as int == (2 * x) % 256) by (bit_vector);
    assert((x >> 1u8) as int == x / 2) by (bit_vector);
    assert((m >> 1usize) as int == m / 2) by (bit_vector);
    assert((i >> 1u32) as int == i / 2) by (bit_vector);
}

} // verus!
