use sharky_env::ffi_collections::CVec;
use sharky_env::sharky_data_types::{SharkyDataType, SharkyValue};

use SharkyDataType::{Bool, Byte, ByteString, HeapReference, Int, Max, Nil, Real};

#[test]
fn add_subtract_multiply_exact_values() {
    assert_eq!(SharkyDataType::try_add(Int(40), Int(2)), Some(Int(42)));
    assert_eq!(SharkyDataType::try_add(Max(1), Max(2)), Some(Max(3)));
    assert_eq!(SharkyDataType::try_add(Byte(250), Byte(5)), Some(Byte(255)));
    assert_eq!(SharkyDataType::try_subtract(Int(2), Int(5)), Some(Int(-3)));
    assert_eq!(SharkyDataType::try_multiply(Int(-6), Int(7)), Some(Int(-42)));
    assert_eq!(SharkyDataType::try_divide(Max(17), Max(5)), Some(Max(3)));
    assert_eq!(SharkyDataType::try_mod(Max(17), Max(5)), Some(Max(2)));
    assert_eq!(SharkyDataType::try_divide(Int(-7), Int(2)), Some(Int(-3)));
    assert_eq!(SharkyDataType::try_mod(Int(-7), Int(2)), Some(Int(-1)));
}

#[test]
fn arithmetic_overflow_and_division_by_zero_give_none() {
    assert_eq!(SharkyDataType::try_add(Byte(250), Byte(6)), None);
    assert_eq!(SharkyDataType::try_add(Int(i64::MAX), Int(1)), None);
    assert_eq!(SharkyDataType::try_subtract(Max(0), Max(1)), None);
    assert_eq!(SharkyDataType::try_multiply(Max(usize::MAX), Max(2)), None);
    assert_eq!(SharkyDataType::try_divide(Int(1), Int(0)), None);
    assert_eq!(SharkyDataType::try_mod(Byte(1), Byte(0)), None);
    assert_eq!(SharkyDataType::try_divide(Int(i64::MIN), Int(-1)), None);
}

#[test]
fn arithmetic_on_mixed_or_other_kinds_gives_none() {
    assert_eq!(SharkyDataType::try_add(Int(1), Max(1)), None);
    assert_eq!(SharkyDataType::try_add(Bool(true), Bool(true)), None);
    assert_eq!(SharkyDataType::try_add(Nil, Nil), None);
    assert_eq!(SharkyDataType::try_add(Real(0), Real(0)), None);
}

#[test]
fn subtract_undoes_add_on_examples() {
    let sum = SharkyDataType::try_add(Int(-9), Int(4)).unwrap();
    assert_eq!(SharkyDataType::try_subtract(sum, Int(4)), Some(Int(-9)));
    assert_eq!(
        SharkyDataType::try_add(Max(5), Max(8)),
        SharkyDataType::try_add(Max(8), Max(5))
    );
}

#[test]
fn shifts_and_bitwise_ops() {
    assert_eq!(SharkyDataType::try_shift_left(Byte(1), Byte(7)), Some(Byte(128)));
    assert_eq!(SharkyDataType::try_shift_left(Byte(3), Byte(7)), Some(Byte(128)));
    assert_eq!(SharkyDataType::try_shift_left(Byte(1), Byte(8)), None);
    assert_eq!(SharkyDataType::try_shift_right(Int(-8), Int(1)), Some(Int(-4)));
    assert_eq!(SharkyDataType::try_shift_right(Int(1), Int(-1)), None);
    assert_eq!(SharkyDataType::try_shift_left(Max(1), Max(3)), Some(Max(8)));
    assert_eq!(SharkyDataType::try_bitwise_and(Byte(0b1100), Byte(0b1010)), Some(Byte(0b1000)));
    assert_eq!(SharkyDataType::try_bitwise_or(Byte(0b1100), Byte(0b1010)), Some(Byte(0b1110)));
    assert_eq!(SharkyDataType::try_bitwise_xor(Byte(0b1100), Byte(0b1010)), Some(Byte(0b0110)));
    assert_eq!(SharkyDataType::try_bitwise_not(Byte(0)), Some(Byte(255)));
    assert_eq!(SharkyDataType::try_bitwise_not(Int(0)), Some(Int(-1)));
    assert_eq!(SharkyDataType::try_bitwise_not(Bool(true)), None);
    assert_eq!(SharkyDataType::try_bitwise_and(Int(1), Byte(1)), None);
}

#[test]
fn comparisons() {
    assert_eq!(SharkyDataType::try_equals(Int(3), Int(3)), Some(Bool(true)));
    assert_eq!(SharkyDataType::try_equals(Nil, Nil), Some(Bool(true)));
    assert_eq!(SharkyDataType::try_equals(Int(3), Max(3)), None);
    assert_eq!(SharkyDataType::try_equals(Real(1), Real(1)), None);
    assert_eq!(
        SharkyDataType::try_equals(
            ByteString(CVec::from(vec![1u8, 2])),
            ByteString(CVec::from(vec![1u8, 2]))
        ),
        Some(Bool(true))
    );
    assert_eq!(SharkyDataType::try_greater_than(Int(3), Int(-3)), Some(Bool(true)));
    assert_eq!(SharkyDataType::try_less_than(Int(3), Int(-3)), Some(Bool(false)));
    assert_eq!(SharkyDataType::try_greater_than(Bool(true), Bool(false)), Some(Bool(true)));
    assert_eq!(SharkyDataType::try_greater_than(Nil, Nil), Some(Bool(false)));
    assert_eq!(SharkyDataType::try_less_than(HeapReference(1), HeapReference(2)), Some(Bool(true)));
    assert_eq!(SharkyDataType::try_greater_than(Int(1), Byte(0)), None);
}

#[test]
fn conversions() {
    assert_eq!(Int(-1).to_max(), Some(Max(usize::MAX)));
    assert_eq!(Byte(200).to_int(), Some(Int(200)));
    assert_eq!(Max(300).to_byte(), Some(Byte(44)));
    assert_eq!(Int(-1).to_byte(), Some(Byte(255)));
    assert_eq!(Int(0).to_bool(), Some(Bool(false)));
    assert_eq!(Byte(2).to_bool(), Some(Bool(true)));
    assert_eq!(Max(6).to_heap_reference(), Some(HeapReference(6)));
    assert_eq!(HeapReference(6).to_max(), Some(Max(6)));
    assert_eq!(Nil.to_max(), None);
    assert_eq!(Bool(true).to_int(), None);
    assert_eq!(Int(4).to_heap_reference(), None);
    assert_eq!(Byte(77).to_int().unwrap().to_byte(), Some(Byte(77)));
}

#[test]
fn values_compare_by_content_and_clone() {
    let a = ByteString(CVec::from(vec![9u8, 8]));
    let b = a.clone();
    assert_eq!(a, b);
    assert!(a.same_value(&b));
    assert_ne!(a, ByteString(CVec::from(vec![9u8])));
    assert_ne!(Int(1), Max(1));
    assert_eq!(SharkyDataType::default(), Nil);
}

#[test]
fn plain_values_read_from_cells() {
    assert_eq!(<usize as SharkyValue>::from_data(&Max(5)), Some(5usize));
    assert_eq!(<usize as SharkyValue>::from_data(&Int(5)), None);
    assert_eq!(<i64 as SharkyValue>::from_data(&Int(-5)), Some(-5i64));
    assert_eq!(<u8 as SharkyValue>::from_data(&Byte(5)), Some(5u8));
    assert_eq!(<bool as SharkyValue>::from_data(&Bool(true)), Some(true));
    assert_eq!(<u64 as SharkyValue>::from_data(&Real(7)), Some(7u64));
}

#[test]
fn value_laws_on_examples() {
    assert_eq!(
        SharkyDataType::try_multiply(Int(-3), Int(11)),
        SharkyDataType::try_multiply(Int(11), Int(-3))
    );
    assert_eq!(
        SharkyDataType::try_bitwise_and(Max(12), Max(10)),
        SharkyDataType::try_bitwise_and(Max(10), Max(12))
    );
    assert_eq!(
        SharkyDataType::try_bitwise_or(Int(-12), Int(10)),
        SharkyDataType::try_bitwise_or(Int(10), Int(-12))
    );
    assert_eq!(
        SharkyDataType::try_bitwise_xor(Byte(200), Byte(7)),
        SharkyDataType::try_bitwise_xor(Byte(7), Byte(200))
    );
    let inverted = SharkyDataType::try_bitwise_not(Int(1234)).unwrap();
    assert_eq!(SharkyDataType::try_bitwise_not(inverted), Some(Int(1234)));
    assert_eq!(
        SharkyDataType::try_equals(Byte(3), Byte(4)),
        SharkyDataType::try_equals(Byte(4), Byte(3))
    );
    assert_eq!(SharkyDataType::try_greater_than(Max(9), Max(2)), Some(Bool(true)));
    assert_eq!(SharkyDataType::try_greater_than(Max(2), Max(9)), Some(Bool(false)));
    assert_eq!(
        SharkyDataType::try_less_than(Byte(1), Byte(2)),
        SharkyDataType::try_greater_than(Byte(2), Byte(1))
    );
    assert_eq!(Byte(77).to_max().unwrap().to_byte(), Some(Byte(77)));
}

#[test]
fn reals_compare_as_floats() {
    let nan = f64::NAN.to_bits();
    assert_ne!(Real(nan), Real(nan));
    assert_eq!(Real(0.0f64.to_bits()), Real((-0.0f64).to_bits()));
    assert_eq!(Real(1.5f64.to_bits()), Real(1.5f64.to_bits()));
    assert_ne!(Real(1.5f64.to_bits()), Real(2.5f64.to_bits()));
    assert!(sharky_env::sharky_data_types::real_equal(0.0f64.to_bits(), (-0.0f64).to_bits()));
    assert!(!sharky_env::sharky_data_types::real_equal(nan, nan));
    let mut stack = sharky_env::sharky_memory::SharkyDataStack::default();
    stack.push(Real(nan));
    stack.push(Real((-0.0f64).to_bits()));
    assert!(!stack.search(&Real(nan)));
    assert!(stack.search(&Real(0.0f64.to_bits())));
}

#[test]
fn values_print_by_kind() {
    assert_eq!(Max(3).to_string(), Some("Max(3)".to_string()));
    assert_eq!(Max(usize::MAX).to_string(), Some(format!("Max({})", usize::MAX)));
    assert_eq!(Int(-42).to_string(), Some("Int(-42)".to_string()));
    assert_eq!(Int(i64::MIN).to_string(), Some("Int(-9223372036854775808)".to_string()));
    assert_eq!(Int(0).to_string(), Some("Int(0)".to_string()));
    assert_eq!(Byte(200).to_string(), Some("Byte(200)".to_string()));
    assert_eq!(Bool(false).to_string(), Some("Bool(false)".to_string()));
    assert_eq!(HeapReference(7).to_string(), Some("Ref(7)".to_string()));
    assert_eq!(Nil.to_string(), Some("nil".to_string()));
    assert_eq!(Real(1.0f64.to_bits()).to_string(), None);
    assert_eq!(ByteString(CVec::from(vec![65u8])).to_string(), None);
}
