use std::sync::Arc;

use sharky_env::ffi_collections::CVec;
use sharky_env::instructions::{
    ArithmeticMode, BitwiseMode, ComparisonMode, ConversionMode, HeapOpMode, LogicMode,
    OpParameter, SelectStackMode, SharkyInstruction, SharkyProgram,
};
use sharky_env::sharky_data_types::SharkyDataType;
use sharky_env::sharky_memory::SharkyHeap;
use sharky_env::vm::{SharkyAction, SharkyInterrupt, SharkyRealOp, SharkyVM};

use OpParameter::{Constant, Index, Pointer};
use SharkyDataType::{Bool, Byte, ByteString, HeapReference, Int, Max, Nil, Real};

fn machine(program: Vec<SharkyInstruction>) -> SharkyVM {
    let program: SharkyProgram = program;
    SharkyVM::new(Arc::new(program), 1)
}

fn step(vm: &mut SharkyVM, heap: &mut SharkyHeap) -> Result<SharkyAction, SharkyInterrupt> {
    assert!(!vm.step_would_panic(heap));
    vm.interpret(heap)
}

fn run_all(vm: &mut SharkyVM, heap: &mut SharkyHeap) {
    while vm.is_running() {
        match step(vm, heap) {
            Ok(SharkyAction::Continue) => {}
            _ => panic!("unexpected outcome"),
        }
    }
}

fn top_values(vm: &SharkyVM) -> Vec<SharkyDataType> {
    vm.get_memory().get_active_stack().unwrap().get_vec().clone()
}

fn select_operative() -> SharkyInstruction {
    SharkyInstruction::SelectStack(Constant(Max(0)), SelectStackMode::Fixed)
}

#[test]
fn pushes_of_the_sample_program_land_on_local_stack_zero() {
    let text = "Sharky! FROM A BYTESTRING";
    let mut bytes = CVec::<u8>::new();
    bytes.operate(|vec: &mut Vec<u8>| {
        vec.resize(text.len(), 0);
        vec.clone_from_slice(text.as_bytes());
    });
    let mut vm = machine(vec![
        SharkyInstruction::NoOperation,
        SharkyInstruction::SelectStack(Constant(Max(0)), SelectStackMode::Indexed),
        SharkyInstruction::Push(Real(2.4f64.to_bits())),
        SharkyInstruction::Push(Int(i64::MIN)),
        SharkyInstruction::Push(Max(usize::MAX)),
        SharkyInstruction::Push(ByteString(bytes)),
    ]);
    let mut heap = SharkyHeap::new();
    run_all(&mut vm, &mut heap);
    assert_eq!(vm.get_program_counter(), 6);
    let values = top_values(&vm);
    assert_eq!(values.len(), 4);
    assert_eq!(values[0], Real(2.4f64.to_bits()));
    assert_eq!(values[1], Int(i64::MIN));
    assert_eq!(values[2], Max(usize::MAX));
    assert_eq!(values[3], ByteString(CVec::from(text.as_bytes().to_vec())));
}

#[test]
fn arithmetic_result_goes_to_the_operational_stack() {
    let mut vm = machine(vec![
        SharkyInstruction::Push(Int(40)),
        SharkyInstruction::Push(Int(2)),
        SharkyInstruction::ArithmeticOp(Index(0), Index(1), ArithmeticMode::Add),
        SharkyInstruction::ArithmeticOp(Index(0), Constant(Int(5)), ArithmeticMode::Multiply),
        SharkyInstruction::BitwiseOp(Constant(Byte(0b1100)), Constant(Byte(0b1010)), BitwiseMode::Xor),
        SharkyInstruction::ComparisonOp(Index(0), Index(1), ComparisonMode::GreaterThan),
        select_operative(),
    ]);
    let mut heap = SharkyHeap::new();
    run_all(&mut vm, &mut heap);
    assert_eq!(top_values(&vm), vec![Int(42), Int(200), Byte(0b0110), Bool(true)]);
}

#[test]
fn pointer_operands_follow_the_index_in_the_cell() {
    let mut vm = machine(vec![
        SharkyInstruction::Push(Int(7)),
        SharkyInstruction::Push(Max(0)),
        SharkyInstruction::Push(Max(1)),
        SharkyInstruction::Copy(Pointer(2)),
        SharkyInstruction::Assign(Constant(Max(1)), Pointer(1)),
    ]);
    let mut heap = SharkyHeap::new();
    run_all(&mut vm, &mut heap);
    assert_eq!(top_values(&vm), vec![Int(7), Int(7), Max(1), Int(7)]);
}

#[test]
fn empty_program_is_out_of_ops() {
    let mut vm = machine(vec![]);
    let mut heap = SharkyHeap::new();
    assert!(vm.is_running());
    assert_eq!(step(&mut vm, &mut heap).err(), Some(SharkyInterrupt::OutOfOps));
}

#[test]
fn failed_step_leaves_machine_where_it_was() {
    let mut vm = machine(vec![
        SharkyInstruction::Push(Int(1)),
        SharkyInstruction::ArithmeticOp(Index(0), Index(5), ArithmeticMode::Add),
    ]);
    let mut heap = SharkyHeap::new();
    step(&mut vm, &mut heap).ok().unwrap();
    assert_eq!(
        step(&mut vm, &mut heap).err(),
        Some(SharkyInterrupt::InvalidStackObjectIndex)
    );
    assert_eq!(vm.get_program_counter(), 1);
    assert!(vm.is_running());
    assert_eq!(top_values(&vm), vec![Int(1)]);
}

#[test]
fn interrupts_for_bad_operands() {
    let cases: Vec<(SharkyInstruction, SharkyInterrupt)> = vec![
        (
            SharkyInstruction::ArithmeticOp(Constant(Int(1)), Constant(Max(1)), ArithmeticMode::Add),
            SharkyInterrupt::InvalidOp,
        ),
        (
            SharkyInstruction::ArithmeticOp(Constant(Int(1)), Constant(Int(0)), ArithmeticMode::Divide),
            SharkyInterrupt::InvalidOp,
        ),
        (
            SharkyInstruction::SelectStack(Constant(Max(7)), SelectStackMode::Fixed),
            SharkyInterrupt::InvalidStackMode,
        ),
        (SharkyInstruction::Goto(Constant(Int(1))), SharkyInterrupt::InvalidParameter),
        (SharkyInstruction::Copy(Pointer(0)), SharkyInterrupt::InvalidStackObjectIndex),
        (SharkyInstruction::FFICall(Constant(Max(3))), SharkyInterrupt::InvalidFFICall),
        (SharkyInstruction::Heap(HeapOpMode::NewItem), SharkyInterrupt::InvalidHeapIndex),
        (SharkyInstruction::ClearByteString(Constant(Max(0))), SharkyInterrupt::InvalidStackObjectIndex),
    ];
    for (instruction, expected) in cases {
        let mut vm = machine(vec![instruction]);
        let mut heap = SharkyHeap::new();
        assert_eq!(step(&mut vm, &mut heap).err(), Some(expected));
        assert_eq!(vm.get_program_counter(), 0);
    }
}

#[test]
fn missing_local_stack_and_non_index_and_non_byte_string() {
    let mut vm = machine(vec![
        SharkyInstruction::SelectStack(Constant(Max(3)), SelectStackMode::Indexed),
        SharkyInstruction::Push(Nil),
    ]);
    let mut heap = SharkyHeap::new();
    step(&mut vm, &mut heap).ok().unwrap();
    assert_eq!(step(&mut vm, &mut heap).err(), Some(SharkyInterrupt::InvalidSelectedStack));

    let mut vm = machine(vec![SharkyInstruction::Push(Int(0)), SharkyInstruction::Copy(Pointer(0))]);
    step(&mut vm, &mut heap).ok().unwrap();
    assert_eq!(step(&mut vm, &mut heap).err(), Some(SharkyInterrupt::NonIndexValue));

    let mut vm = machine(vec![
        SharkyInstruction::Push(Int(0)),
        SharkyInstruction::ByteStringSize(Constant(Max(0))),
    ]);
    step(&mut vm, &mut heap).ok().unwrap();
    assert_eq!(
        step(&mut vm, &mut heap).err(),
        Some(SharkyInterrupt::ByteStringOpOnNonBytestring)
    );
}

#[test]
fn real_operations_are_handed_to_the_host() {
    let mut vm = machine(vec![
        SharkyInstruction::Push(Real(1.5f64.to_bits())),
        SharkyInstruction::Push(Real(2.25f64.to_bits())),
        SharkyInstruction::ArithmeticOp(Index(0), Index(1), ArithmeticMode::Add),
        select_operative(),
    ]);
    let mut heap = SharkyHeap::new();
    step(&mut vm, &mut heap).ok().unwrap();
    step(&mut vm, &mut heap).ok().unwrap();
    let request = match step(&mut vm, &mut heap) {
        Ok(SharkyAction::RealOp(request)) => request,
        _ => panic!("expected a floating-point request"),
    };
    assert_eq!(request.op, SharkyRealOp::Add);
    assert_eq!(request.lhs, Real(1.5f64.to_bits()));
    assert_eq!(request.rhs, Real(2.25f64.to_bits()));
    assert_eq!(vm.get_program_counter(), 2);
    let sum = f64::from_bits(1.5f64.to_bits()) + f64::from_bits(2.25f64.to_bits());
    assert_eq!(vm.complete_real_op(request.op, Some(Real(sum.to_bits()))), Ok(()));
    assert_eq!(vm.get_program_counter(), 3);
    step(&mut vm, &mut heap).ok().unwrap();
    assert_eq!(top_values(&vm), vec![Real(3.75f64.to_bits())]);
}

#[test]
fn real_operation_without_a_result_interrupts() {
    let mut vm = machine(vec![
        SharkyInstruction::Convert(Constant(Int(3)), ConversionMode::Real),
        SharkyInstruction::NoOperation,
    ]);
    let mut heap = SharkyHeap::new();
    match step(&mut vm, &mut heap) {
        Ok(SharkyAction::RealOp(request)) => {
            assert_eq!(request.op, SharkyRealOp::Convert(ConversionMode::Real));
            assert_eq!(request.lhs, Int(3));
            assert_eq!(request.rhs, Nil);
        }
        _ => panic!("expected a floating-point request"),
    }
    assert_eq!(
        vm.complete_real_op(SharkyRealOp::Convert(ConversionMode::Real), None),
        Err(SharkyInterrupt::TypeMismatch)
    );
    assert_eq!(vm.complete_real_op(SharkyRealOp::Add, None), Err(SharkyInterrupt::InvalidOp));
    assert_eq!(vm.get_program_counter(), 0);
    assert_eq!(
        vm.complete_real_op(SharkyRealOp::Convert(ConversionMode::Real), Some(Real(3.0f64.to_bits()))),
        Ok(())
    );
    assert_eq!(top_values(&vm), vec![Real(3.0f64.to_bits())]);
    assert_eq!(vm.get_program_counter(), 1);
}

#[test]
fn spawned_machine_gets_the_parameter_stack() {
    let mut vm = machine(vec![
        SharkyInstruction::SelectStack(Constant(Max(2)), SelectStackMode::Fixed),
        SharkyInstruction::Push(Int(5)),
        SharkyInstruction::SpawnSubtask(Constant(Max(1))),
    ]);
    let mut heap = SharkyHeap::new();
    step(&mut vm, &mut heap).ok().unwrap();
    step(&mut vm, &mut heap).ok().unwrap();
    match step(&mut vm, &mut heap) {
        Ok(SharkyAction::SpawnSubtask(sub)) => {
            assert_eq!(sub.get_program_counter(), 1);
            assert!(sub.is_running());
            assert_eq!(sub.get_memory().get_parameter_stack().get_vec(), &vec![Int(5)]);
            assert_eq!(sub.get_memory().get_active_stack().unwrap().size(), 0);
            assert_eq!(sub.program_len(), 3);
        }
        _ => panic!("expected a new task"),
    }
    assert!(!vm.is_running());
}

#[test]
fn foreign_calls_are_handed_to_the_host() {
    let mut vm = machine(vec![SharkyInstruction::FFICall(Constant(Max(0)))]);
    let mut heap = SharkyHeap::new();
    match step(&mut vm, &mut heap) {
        Ok(SharkyAction::FFICall(index)) => assert_eq!(index, 0),
        _ => panic!("expected a foreign call"),
    }
}

#[test]
fn heap_instructions_work_on_the_selected_frame() {
    let mut vm = machine(vec![
        SharkyInstruction::Heap(HeapOpMode::Create),
        SharkyInstruction::SelectHeap(Constant(Max(0))),
        SharkyInstruction::Heap(HeapOpMode::NewItem),
        SharkyInstruction::CopyToHeapItem(Constant(Max(0)), Constant(Int(9))),
        SharkyInstruction::Heap(HeapOpMode::Size),
        SharkyInstruction::CopyFromHeapItem(Constant(Max(1)), Constant(Max(0))),
        SharkyInstruction::Heap(HeapOpMode::Clone),
    ]);
    let mut heap = SharkyHeap::new();
    run_all(&mut vm, &mut heap);
    assert_eq!(heap.read(0, 0), Some(Int(9)));
    assert_eq!(heap.read(1, 0), Some(Int(9)));
    assert_eq!(heap.get_allocation_count(), 2);
    assert_eq!(top_values(&vm), vec![HeapReference(0), Int(9), HeapReference(1)]);
    assert!(vm.has_reference(1));
}

#[test]
fn byte_string_instructions() {
    let mut vm = machine(vec![
        SharkyInstruction::Push(ByteString(CVec::from(vec![1u8, 2, 3]))),
        SharkyInstruction::ExtendByteString(Constant(Max(0)), Constant(Max(2))),
        SharkyInstruction::ByteStringSize(Constant(Max(0))),
        SharkyInstruction::SliceByteString(Constant(Max(0)), Constant(Max(1)), Constant(Max(3))),
        SharkyInstruction::FillByteStringWithValue(Constant(Max(0)), Constant(Byte(7))),
        SharkyInstruction::ClearByteString(Constant(Max(2))),
    ]);
    let mut heap = SharkyHeap::new();
    run_all(&mut vm, &mut heap);
    assert_eq!(
        top_values(&vm),
        vec![
            ByteString(CVec::from(vec![7u8, 7, 7, 7, 7])),
            Max(5),
            ByteString(CVec::from(vec![])),
        ]
    );
}

#[test]
fn jumps_move_the_program_counter() {
    let mut vm = machine(vec![
        SharkyInstruction::Goto(Constant(Max(2))),
        SharkyInstruction::Push(Int(1)),
        SharkyInstruction::LogicalGoto(Constant(Max(1)), Constant(Bool(false)), LogicMode::If),
        SharkyInstruction::LogicalGoto(Constant(Max(5)), Constant(Bool(false)), LogicMode::IfNot),
    ]);
    let mut heap = SharkyHeap::new();
    step(&mut vm, &mut heap).ok().unwrap();
    assert_eq!(vm.get_program_counter(), 2);
    step(&mut vm, &mut heap).ok().unwrap();
    assert_eq!(vm.get_program_counter(), 3);
    step(&mut vm, &mut heap).ok().unwrap();
    assert_eq!(vm.get_program_counter(), 5);
    assert!(!vm.is_running());
    assert_eq!(top_values(&vm), Vec::<SharkyDataType>::new());
}

#[test]
fn stopped_machine_does_nothing() {
    let mut vm = machine(vec![SharkyInstruction::EndTask, SharkyInstruction::Push(Int(1))]);
    let mut heap = SharkyHeap::new();
    step(&mut vm, &mut heap).ok().unwrap();
    assert!(!vm.is_running());
    assert_eq!(vm.get_program_counter(), 1);
    assert!(matches!(step(&mut vm, &mut heap), Ok(SharkyAction::Continue)));
    assert_eq!(vm.get_program_counter(), 1);
    assert_eq!(top_values(&vm), Vec::<SharkyDataType>::new());
    let mut other = machine(vec![SharkyInstruction::Push(Int(1))]);
    other.stop();
    assert!(!other.is_running());
    other.set_program_counter(0);
    assert_eq!(other.get_program_counter(), 0);
}

#[test]
fn interrupt_names() {
    assert_eq!(SharkyInterrupt::InvalidSelectedStack.to_string(), "InvalidStackIndex");
    assert_eq!(SharkyInterrupt::InvalidOp.to_string(), "OperationalyIncompatible");
    assert_eq!(SharkyInterrupt::OutOfOps.to_string(), "OutOfOps");
    assert_eq!(
        SharkyInterrupt::ByteStringOpOnNonBytestring.to_string(),
        "ByteStringOpOnNonBytestring"
    );
}

#[test]
fn failed_heap_create_keeps_the_new_frame() {
    let mut vm = machine(vec![
        SharkyInstruction::SelectStack(Constant(Max(4)), SelectStackMode::Indexed),
        SharkyInstruction::Heap(HeapOpMode::Create),
    ]);
    let mut heap = SharkyHeap::new();
    step(&mut vm, &mut heap).ok().unwrap();
    assert_eq!(step(&mut vm, &mut heap).err(), Some(SharkyInterrupt::InvalidSelectedStack));
    assert_eq!(vm.get_program_counter(), 1);
    assert_eq!(heap.collect_heap_indexes(), vec![0]);
    assert_eq!(heap.get_allocation_count(), 1);
}
