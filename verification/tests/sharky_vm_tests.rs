use std::sync::Arc;

use sharky_env::sharky_data_types::{
    SharkyDataType, SharkyInstruction, SharkyParameter, SharkyProgram, SharkyStackMode,
};
use sharky_env::sharky_memory::SharkyHeap;
use sharky_env::sharky_vm::{SharkyStepAction, SharkyVM};
use sharky_env::vm::SharkyRealOp;

use SharkyDataType::{Bool, HeapReference, Int, Max, Nil, Real};
use SharkyInstruction as I;
use SharkyParameter::{Constant, StackIndex};

fn machine(program: Vec<SharkyInstruction>) -> SharkyVM {
    let program: SharkyProgram = program;
    SharkyVM::new(Arc::new(program), 2)
}

fn step(vm: &mut SharkyVM, heap: &mut SharkyHeap) -> Option<SharkyStepAction> {
    assert!(!vm.step_would_panic(heap));
    vm.interpret(heap)
}

fn run_all(vm: &mut SharkyVM, heap: &mut SharkyHeap) {
    while vm.is_running() {
        match step(vm, heap) {
            Some(SharkyStepAction::Continue) => {}
            _ => panic!("unexpected outcome"),
        }
    }
}

fn active(vm: &SharkyVM) -> Vec<SharkyDataType> {
    vm.get_memory().get_active_stack().unwrap().get_vec().clone()
}

#[test]
fn plain_pushes_and_copies() {
    let mut vm = machine(vec![
        I::PushInt(Constant(-4)),
        I::PushMax(Constant(1)),
        I::PushNil,
        I::PushBool(StackIndex(9)),
        I::Copy(StackIndex(1)),
        I::Nilify(Constant(0)),
        I::Assign(Constant(2), Constant(1)),
    ]);
    let mut heap = SharkyHeap::new();
    run_all(&mut vm, &mut heap);
    assert_eq!(active(&vm), vec![Nil, Max(1), Max(1), Max(1)]);
    assert_eq!(vm.get_program_counter(), 7);
}

#[test]
fn plain_operators_read_the_operational_stack() {
    let mut vm = machine(vec![
        I::SetStackMode(SharkyStackMode::Operative),
        I::PushInt(Constant(6)),
        I::PushInt(Constant(7)),
        I::Multiply(Constant(0), Constant(1)),
        I::GreaterThan(Constant(2), Constant(0)),
        I::Add(Constant(0), Constant(3)),
        I::Not(Constant(3)),
    ]);
    let mut heap = SharkyHeap::new();
    run_all(&mut vm, &mut heap);
    assert_eq!(active(&vm), vec![Int(6), Int(7), Int(42), Bool(true), Nil, Bool(false)]);
}

#[test]
fn plain_missing_operands_change_nothing_but_the_counter() {
    let mut vm = machine(vec![
        I::Add(Constant(0), Constant(1)),
        I::Copy(StackIndex(3)),
        I::Jump(StackIndex(0)),
        I::SelectHeap(StackIndex(0)),
        I::PushHeap,
    ]);
    let mut heap = SharkyHeap::new();
    for expected in 1..=5usize {
        assert!(matches!(step(&mut vm, &mut heap), Some(SharkyStepAction::Continue)));
        assert_eq!(vm.get_program_counter(), expected);
    }
    assert!(!vm.is_running());
    assert_eq!(active(&vm), Vec::<SharkyDataType>::new());
}

#[test]
fn plain_step_past_the_end_gives_none() {
    let mut vm = machine(vec![I::NoOperation]);
    vm.set_program_counter(3);
    let mut heap = SharkyHeap::new();
    assert!(step(&mut vm, &mut heap).is_none());
}

#[test]
fn plain_jumps() {
    let mut vm = machine(vec![
        I::PushBool(Constant(false)),
        I::JumpIfNot(Constant(3), Constant(0)),
        I::PushInt(Constant(1)),
        I::Jump(Constant(5)),
    ]);
    let mut heap = SharkyHeap::new();
    step(&mut vm, &mut heap).unwrap();
    step(&mut vm, &mut heap).unwrap();
    assert_eq!(vm.get_program_counter(), 3);
    step(&mut vm, &mut heap).unwrap();
    assert_eq!(vm.get_program_counter(), 5);
    assert!(!vm.is_running());
    assert_eq!(active(&vm), vec![Bool(false)]);
}

#[test]
fn plain_heap_instructions() {
    let mut vm = machine(vec![
        I::CreateHeap,
        I::SelectHeap(Constant(0)),
        I::PushHeap,
        I::PushInt(Constant(5)),
        I::WriteHeap(Constant(0), Constant(1)),
        I::ReadHeap(Constant(0), Constant(0)),
        I::SizeHeap,
        I::CloneHeap,
    ]);
    let mut heap = SharkyHeap::new();
    run_all(&mut vm, &mut heap);
    assert_eq!(heap.read(0, 0), Some(Int(5)));
    assert_eq!(heap.read(1, 0), Some(Int(5)));
    assert_eq!(active(&vm), vec![Int(5), Int(5), Max(1), HeapReference(1)]);
    assert!(vm.has_reference(1));
    assert!(!vm.has_reference(0));
}

#[test]
fn plain_real_operands_are_handed_to_the_host() {
    let mut vm = machine(vec![
        I::SetStackMode(SharkyStackMode::Operative),
        I::PushReal(Constant(0.5f64.to_bits())),
        I::PushReal(Constant(0.25f64.to_bits())),
        I::Subtract(Constant(0), Constant(1)),
    ]);
    let mut heap = SharkyHeap::new();
    for _ in 0..3 {
        step(&mut vm, &mut heap).unwrap();
    }
    match step(&mut vm, &mut heap) {
        Some(SharkyStepAction::RealOp(request)) => {
            assert_eq!(request.op, SharkyRealOp::Subtract);
            assert_eq!(request.lhs, Real(0.5f64.to_bits()));
            assert_eq!(request.rhs, Real(0.25f64.to_bits()));
        }
        _ => panic!("expected a floating-point request"),
    }
    assert_eq!(vm.get_program_counter(), 3);
    vm.complete_real_op(Real(0.25f64.to_bits()));
    assert_eq!(vm.get_program_counter(), 4);
    assert!(!vm.is_running());
    assert_eq!(active(&vm).last(), Some(&Real(0.25f64.to_bits())));
}

#[test]
fn plain_tasks_and_foreign_calls() {
    let mut vm = machine(vec![
        I::SetStackMode(SharkyStackMode::Parameter),
        I::PushInt(Constant(3)),
        I::SpawnSubtask(Constant(0)),
        I::FFICall(Constant(1)),
        I::FFICall(Constant(2)),
        I::KillSelf,
        I::NoOperation,
    ]);
    let mut heap = SharkyHeap::new();
    step(&mut vm, &mut heap).unwrap();
    step(&mut vm, &mut heap).unwrap();
    match step(&mut vm, &mut heap) {
        Some(SharkyStepAction::SpawnSubtask(sub)) => {
            assert_eq!(sub.get_program_counter(), 0);
            assert_eq!(sub.get_memory().get_parameter_stack().get_vec(), &vec![Int(3)]);
        }
        _ => panic!("expected a new task"),
    }
    assert!(matches!(step(&mut vm, &mut heap), Some(SharkyStepAction::FFICall(1))));
    assert!(matches!(step(&mut vm, &mut heap), Some(SharkyStepAction::Continue)));
    assert!(matches!(step(&mut vm, &mut heap), Some(SharkyStepAction::Continue)));
    assert!(!vm.is_running());
    assert_eq!(vm.get_program_counter(), 6);
    let sub = vm.new_subvm(4);
    assert!(sub.is_running());
    assert_eq!(sub.get_program_counter(), 4);
}

#[test]
fn plain_division_by_zero_would_panic() {
    let mut vm = machine(vec![
        I::SetStackMode(SharkyStackMode::Operative),
        I::PushInt(Constant(1)),
        I::PushInt(Constant(0)),
        I::Divide(Constant(0), Constant(1)),
    ]);
    let mut heap = SharkyHeap::new();
    for _ in 0..3 {
        step(&mut vm, &mut heap).unwrap();
    }
    assert!(vm.step_would_panic(&heap));
}

#[test]
fn plain_pop_jump_if_not_pops_a_false_top_and_jumps() {
    let mut vm = machine(vec![
        I::PushBool(Constant(true)),
        I::PopJumpIfNot(Constant(0)),
        I::PushBool(Constant(false)),
        I::PopJumpIfNot(Constant(6)),
        I::NoOperation,
    ]);
    let mut heap = SharkyHeap::new();
    step(&mut vm, &mut heap).unwrap();
    step(&mut vm, &mut heap).unwrap();
    assert_eq!(vm.get_program_counter(), 2);
    assert_eq!(active(&vm), vec![Bool(true)]);
    step(&mut vm, &mut heap).unwrap();
    step(&mut vm, &mut heap).unwrap();
    assert_eq!(vm.get_program_counter(), 6);
    assert!(!vm.is_running());
    assert_eq!(active(&vm), vec![Bool(true)]);
}
