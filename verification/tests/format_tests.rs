use sharky_env::bytecode_reader::{
    SharkyBytecodeHeader, SharkyOpCode, SharkyParamType, SharkyTypeCode, SHARKY_HEADER_SIZE,
};
use sharky_env::instructions::{
    ArithmeticMode, BitwiseMode, ComparisonMode, ConversionMode, FixedStackMode, HeapOpMode,
    LogicMode, SelectStackMode,
};
use sharky_env::sharky_string::SharkyStringPool;

#[test]
fn string_pool_reads_back_each_string() {
    let mut pool = SharkyStringPool::new();
    let a = pool.create_string(b"hello");
    let b = pool.create_string(b"");
    let c = pool.create_string(b"sharky");
    assert_eq!((a, b, c), (0, 1, 2));
    assert_eq!(pool.get_slice(a), Some(&b"hello"[..]));
    assert_eq!(pool.get_slice(b), Some(&b""[..]));
    assert_eq!(pool.get_slice(c), Some(&b"sharky"[..]));
    assert_eq!(pool.get_slice(3), None);
    let d = SharkyStringPool::default();
    assert_eq!(d.get_slice(0), None);
}

#[test]
fn op_codes_round_trip() {
    assert_eq!(SharkyOpCode::NoOperation.code(), 0);
    assert_eq!(SharkyOpCode::Heap.code(), 13);
    assert_eq!(SharkyOpCode::FFICall.code(), 33);
    for code in 0u16..34 {
        let op = SharkyOpCode::from_code(code).unwrap();
        assert_eq!(op.code(), code);
    }
    assert_eq!(SharkyOpCode::from_code(34), None);
    assert_eq!(SharkyOpCode::from_code(SharkyOpCode::LogicalGoto.code()), Some(SharkyOpCode::LogicalGoto));
}

#[test]
fn parameter_and_type_codes_round_trip() {
    for code in 0u8..3 {
        assert_eq!(SharkyParamType::from_code(code).unwrap().code(), code);
    }
    assert_eq!(SharkyParamType::from_code(3), None);
    assert_eq!(SharkyParamType::Pointer.code(), 2);
    for code in 0u8..8 {
        assert_eq!(SharkyTypeCode::from_code(code).unwrap().code(), code);
    }
    assert_eq!(SharkyTypeCode::from_code(8), None);
    assert_eq!(SharkyTypeCode::from_code(4), Some(SharkyTypeCode::Real));
}

#[test]
fn header_reads_little_endian_fields() {
    let mut bytes: Vec<u8> = Vec::new();
    bytes.extend_from_slice(&0x5348_4B59u32.to_le_bytes());
    bytes.extend_from_slice(&3u32.to_le_bytes());
    for offset in [48u64, 64, 0x0102_0304_0506_0708, 200, u64::MAX] {
        bytes.extend_from_slice(&offset.to_le_bytes());
    }
    assert_eq!(bytes.len(), SHARKY_HEADER_SIZE);
    let header = SharkyBytecodeHeader::from(&bytes).unwrap();
    assert_eq!(header.magic(), 0x5348_4B59);
    assert_eq!(header.version(), 3);
    assert_eq!(header.offsets(), (48, 64, 0x0102_0304_0506_0708, 200, u64::MAX));
    assert!(SharkyBytecodeHeader::from(&bytes[..47]).is_none());
    assert_eq!(SharkyBytecodeHeader::read_le_u32(&[1, 2, 3, 4, 5], 1), Some(0x0504_0302));
    assert_eq!(SharkyBytecodeHeader::read_le_u32(&[1, 2, 3], 0), None);
    assert_eq!(SharkyBytecodeHeader::read_le_u64(&[0xff; 8], 0), Some(u64::MAX));
    assert_eq!(SharkyBytecodeHeader::read_le_u64(&[0xff; 8], 1), None);
    assert_eq!(SharkyBytecodeHeader::read_le_u32(&[0xff; 4], 9), None);
}

#[test]
fn modes_from_numbers() {
    assert_eq!(ArithmeticMode::try_from_u8(4), Some(ArithmeticMode::Mod));
    assert_eq!(ArithmeticMode::try_from_u8(5), None);
    assert_eq!(BitwiseMode::try_from_u8(5), Some(BitwiseMode::Not));
    assert_eq!(BitwiseMode::try_from_u8(6), None);
    assert_eq!(ComparisonMode::try_from_u8(0), Some(ComparisonMode::And));
    assert_eq!(ComparisonMode::try_from_u8(7), Some(ComparisonMode::LessThanOrEquals));
    assert_eq!(ComparisonMode::try_from_u8(8), None);
    assert_eq!(ConversionMode::try_from_u8(7), Some(ConversionMode::Nil));
    assert_eq!(ConversionMode::try_from_u8(8), None);
    assert_eq!(LogicMode::try_from_u8(1), Some(LogicMode::IfNot));
    assert_eq!(LogicMode::try_from_u8(2), None);
    assert_eq!(SelectStackMode::try_from_u8(0), Some(SelectStackMode::Fixed));
    assert_eq!(FixedStackMode::try_from_u8(2), Some(FixedStackMode::Parameter));
    assert_eq!(FixedStackMode::try_from_u8(3), None);
    assert_eq!(HeapOpMode::try_from_u8(3), Some(HeapOpMode::Size));
    assert_eq!(HeapOpMode::try_from_u8(255), None);
}
