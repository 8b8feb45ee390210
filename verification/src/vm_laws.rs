use vstd::prelude::*;

use crate::instructions::SharkyInstruction;
use crate::sharky_data_types::SharkyInstruction as PlainInstruction;
use crate::sharky_memory::HeapModel;
use crate::sharky_vm_semantics::{
    plain_execute, plain_heap_ok, plain_heap_panics, plain_heap_step, plain_step, plain_step_panics,
};
use crate::sharky_data_types::{SharkyParameter, SharkyStackMode};
use crate::vm_semantics::{execute, execute_panics, step, step_panics, subvm, ActionModel, VmModel};

verus! {

// Properties that hold of every step of either machine, whatever the program.

/// A stopped machine does nothing: its step leaves it and the heap as they
/// were and asks nothing of the host.
pub proof fn law_stopped_machine_is_idle(
    vm: VmModel,
    program: Seq<SharkyInstruction>,
    heap: HeapModel,
    fresh: usize,
)
    requires
        !vm.running,
    ensures
        step(vm, program, heap, fresh) == (vm, heap, Ok::<ActionModel, crate::vm::SharkyInterrupt>(ActionModel::Continue)),
{
}

/// A step frees no heap frame, and changes no frame but the selected one
/// (a new frame takes an index that no frame had).
#[verifier::rlimit(50)]
pub proof fn law_step_keeps_other_frames(
    vm: VmModel,
    program: Seq<SharkyInstruction>,
    heap: HeapModel,
    fresh: usize,
)
    requires
        !heap.frames.dom().contains(fresh),
        !step_panics(vm, program, heap),
    ensures
        forall|f: usize|
            #[trigger] heap.frames.dom().contains(f) ==> step(vm, program, heap, fresh).1.frames.dom().contains(f),
        forall|f: usize|
            #[trigger] heap.frames.dom().contains(f) && f != vm.selected_frame ==> step(
                vm,
                program,
                heap,
                fresh,
            ).1.frames[f] == heap.frames[f],
        step(vm, program, heap, fresh).1.allocation_count == heap.allocation_count
            || step(vm, program, heap, fresh).1.allocation_count == heap.allocation_count + 1,
{
    if vm.running && vm.program_counter < program.len() {
        let instr = program[vm.program_counter as int];
        lemma_execute_keeps_other_frames(vm, heap, instr, fresh);
    }
}

proof fn lemma_execute_keeps_other_frames(vm: VmModel, heap: HeapModel, instr: SharkyInstruction, fresh: usize)
    requires
        !heap.frames.dom().contains(fresh),
        !execute_panics(vm, heap, instr),
    ensures
        forall|f: usize|
            #[trigger] heap.frames.dom().contains(f) ==> execute(vm, heap, instr, fresh).1.frames.dom().contains(f),
        forall|f: usize|
            #[trigger] heap.frames.dom().contains(f) && f != vm.selected_frame ==> execute(
                vm,
                heap,
                instr,
                fresh,
            ).1.frames[f] == heap.frames[f],
        execute(vm, heap, instr, fresh).1.allocation_count == heap.allocation_count
            || execute(vm, heap, instr, fresh).1.allocation_count == heap.allocation_count + 1,
{
    match instr {
        SharkyInstruction::NoOperation => {},
        SharkyInstruction::SelectStack(p, m) => {},
        SharkyInstruction::PushStack => {},
        SharkyInstruction::PopStack => {},
        SharkyInstruction::CopyToTransition(p) => {},
        SharkyInstruction::CopyFromTransition(p) => {},
        SharkyInstruction::Push(v) => {},
        SharkyInstruction::Convert(p, m) => {},
        SharkyInstruction::Copy(p) => {},
        SharkyInstruction::Nilify(p) => {},
        SharkyInstruction::Assign(d, s) => {},
        SharkyInstruction::Pop => {},
        SharkyInstruction::Clear => {},
        SharkyInstruction::Heap(m) => {},
        SharkyInstruction::SelectHeap(p) => {},
        SharkyInstruction::CopyToHeapItem(d, s) => {},
        SharkyInstruction::CopyFromHeapItem(d, s) => {},
        SharkyInstruction::FillByteStringWithValue(d, v) => {},
        SharkyInstruction::ExtendByteString(d, l) => {},
        SharkyInstruction::CopyToByteString(d, s) => {},
        SharkyInstruction::CopyFromByteString(d, s) => {},
        SharkyInstruction::AppendByteString(d, s) => {},
        SharkyInstruction::ClearByteString(p) => {},
        SharkyInstruction::ByteStringSize(p) => {},
        SharkyInstruction::SliceByteString(s, b, e) => {},
        SharkyInstruction::ArithmeticOp(l, r, m) => {},
        SharkyInstruction::BitwiseOp(l, r, m) => {},
        SharkyInstruction::ComparisonOp(l, r, m) => {},
        SharkyInstruction::NotBool(p) => {},
        SharkyInstruction::Goto(p) => {},
        SharkyInstruction::LogicalGoto(t, c, m) => {},
        SharkyInstruction::SpawnSubtask(p) => {},
        SharkyInstruction::EndTask => {},
        SharkyInstruction::FFICall(p) => {},
    }
}

/// A step that hands a floating-point operation to the host changes nothing:
/// the machine waits at the instruction until `complete_real_op`.
pub proof fn law_real_op_waits(vm: VmModel, program: Seq<SharkyInstruction>, heap: HeapModel, fresh: usize)
    requires
        step(vm, program, heap, fresh).2 matches Ok(ActionModel::RealOp(_, _, _)),
    ensures
        step(vm, program, heap, fresh).0 == vm,
        step(vm, program, heap, fresh).1 == heap,
{
    if vm.running && vm.program_counter < program.len() {
        lemma_execute_shape(vm, heap, program[vm.program_counter as int], fresh);
    }
}

/// A step that succeeds with any instruction but a jump moves on to the
/// next instruction, and the machine keeps running unless that was the last
/// instruction or `EndTask`.
pub proof fn law_step_moves_on(vm: VmModel, program: Seq<SharkyInstruction>, heap: HeapModel, fresh: usize)
    requires
        vm.running,
        vm.program_counter < program.len(),
        program.len() <= usize::MAX,
        !(program[vm.program_counter as int] is Goto || program[vm.program_counter as int] is LogicalGoto),
        step(vm, program, heap, fresh).2 is Ok,
        !(step(vm, program, heap, fresh).2 matches Ok(ActionModel::RealOp(_, _, _))),
    ensures
        step(vm, program, heap, fresh).0.program_counter == vm.program_counter + 1,
        step(vm, program, heap, fresh).0.running == (vm.program_counter + 1 < program.len()
            && !(program[vm.program_counter as int] is EndTask)),
{
    lemma_execute_shape(vm, heap, program[vm.program_counter as int], fresh);
}

/// A spawned machine runs from the given instruction with fresh memory but
/// a copy of the spawning machine's parameter stack.
pub proof fn law_spawned_machine(vm: VmModel, program: Seq<SharkyInstruction>, heap: HeapModel, fresh: usize)
    requires
        step(vm, program, heap, fresh).2 matches Ok(ActionModel::SpawnSubtask(_)),
    ensures
        step(vm, program, heap, fresh).2 matches Ok(ActionModel::SpawnSubtask(sub)) && sub == subvm(vm, sub.program_counter),
{
    if vm.running && vm.program_counter < program.len() {
        lemma_execute_shape(vm, heap, program[vm.program_counter as int], fresh);
    }
}

/// Whether `instr` adds a heap frame before it pushes the reference to it,
/// so that the frame stays when the push fails.
pub open spec fn allocates_first(instr: SharkyInstruction) -> bool {
    instr matches SharkyInstruction::Heap(mode) && (mode is Create || mode is Clone)
}

/// A step that fails leaves the machine as it was, and the heap too unless
/// the instruction added a frame before it failed.
#[verifier::rlimit(50)]
pub proof fn law_failed_step_changes_nothing(
    vm: VmModel,
    program: Seq<SharkyInstruction>,
    heap: HeapModel,
    fresh: usize,
)
    requires
        step(vm, program, heap, fresh).2 is Err,
    ensures
        step(vm, program, heap, fresh).0 == vm,
        !(vm.program_counter < program.len() && allocates_first(program[vm.program_counter as int]))
            ==> step(vm, program, heap, fresh).1 == heap,
{
    if vm.running && vm.program_counter < program.len() {
        lemma_execute_shape(vm, heap, program[vm.program_counter as int], fresh);
    }
}

/// What executing any instruction keeps: a failure changes nothing (but a
/// frame added first), a hand-off to the host changes nothing, only the
/// jumps set the program counter, and a spawned machine is a sub-machine.
proof fn lemma_execute_shape(vm: VmModel, heap: HeapModel, instr: SharkyInstruction, fresh: usize)
    ensures
        execute(vm, heap, instr, fresh).2 is Err ==> execute(vm, heap, instr, fresh).0 == vm,
        execute(vm, heap, instr, fresh).2 is Err && !allocates_first(instr) ==> execute(vm, heap, instr, fresh).1 == heap,
        execute(vm, heap, instr, fresh).2 matches Ok(ActionModel::RealOp(_, _, _)) ==> execute(vm, heap, instr, fresh).0 == vm
            && execute(vm, heap, instr, fresh).1 == heap,
        !(instr is Goto || instr is LogicalGoto) ==> execute(vm, heap, instr, fresh).0.program_counter == vm.program_counter,
        execute(vm, heap, instr, fresh).2 matches Ok(ActionModel::SpawnSubtask(sub)) ==> sub == subvm(vm, sub.program_counter),
        execute(vm, heap, instr, fresh).0.running == (vm.running && !(instr is EndTask)),
{
    match instr {
        SharkyInstruction::NoOperation => {},
        SharkyInstruction::SelectStack(p, m) => {},
        SharkyInstruction::PushStack => {},
        SharkyInstruction::PopStack => {},
        SharkyInstruction::CopyToTransition(p) => {},
        SharkyInstruction::CopyFromTransition(p) => {},
        SharkyInstruction::Push(v) => {},
        SharkyInstruction::Convert(p, m) => {},
        SharkyInstruction::Copy(p) => {},
        SharkyInstruction::Nilify(p) => {},
        SharkyInstruction::Assign(d, s) => {},
        SharkyInstruction::Pop => {},
        SharkyInstruction::Clear => {},
        SharkyInstruction::Heap(m) => {},
        SharkyInstruction::SelectHeap(p) => {},
        SharkyInstruction::CopyToHeapItem(d, s) => {},
        SharkyInstruction::CopyFromHeapItem(d, s) => {},
        SharkyInstruction::FillByteStringWithValue(d, v) => {},
        SharkyInstruction::ExtendByteString(d, l) => {},
        SharkyInstruction::CopyToByteString(d, s) => {},
        SharkyInstruction::CopyFromByteString(d, s) => {},
        SharkyInstruction::AppendByteString(d, s) => {},
        SharkyInstruction::ClearByteString(p) => {},
        SharkyInstruction::ByteStringSize(p) => {},
        SharkyInstruction::SliceByteString(s, b, e) => {},
        SharkyInstruction::ArithmeticOp(l, r, m) => {},
        SharkyInstruction::BitwiseOp(l, r, m) => {},
        SharkyInstruction::ComparisonOp(l, r, m) => {},
        SharkyInstruction::NotBool(p) => {},
        SharkyInstruction::Goto(p) => {},
        SharkyInstruction::LogicalGoto(t, c, m) => {},
        SharkyInstruction::SpawnSubtask(p) => {},
        SharkyInstruction::EndTask => {},
        SharkyInstruction::FFICall(p) => {},
    }
}

/// A stopped machine of the instruction set addressed through
/// `SharkyParameter` does nothing either.
pub proof fn law_plain_stopped_machine_is_idle(
    vm: VmModel,
    program: Seq<PlainInstruction>,
    heap: HeapModel,
    fresh: usize,
)
    requires
        !vm.running,
    ensures
        plain_step(vm, program, heap, fresh) == (vm, heap, Some(ActionModel::Continue)),
{
}

/// A machine of the instruction set addressed through `SharkyParameter`
/// fails only past the end of its program: an instruction whose operand or
/// stack is missing has no further effect.
pub proof fn law_plain_step_fails_only_past_end(
    vm: VmModel,
    program: Seq<PlainInstruction>,
    heap: HeapModel,
    fresh: usize,
)
    ensures
        plain_step(vm, program, heap, fresh).2 is None <==> vm.running && vm.program_counter >= program.len(),
{
    if vm.running && vm.program_counter < program.len() {
        lemma_plain_execute_shape(vm, heap, program[vm.program_counter as int], fresh);
    }
}

/// A step of that machine frees no heap frame, changes no frame but the
/// selected one, and counts at most one allocation.
pub proof fn law_plain_step_keeps_other_frames(
    vm: VmModel,
    program: Seq<PlainInstruction>,
    heap: HeapModel,
    fresh: usize,
)
    requires
        !heap.frames.dom().contains(fresh),
        !plain_step_panics(vm, program, heap),
    ensures
        forall|f: usize|
            #[trigger] heap.frames.dom().contains(f) ==> plain_step(vm, program, heap, fresh).1.frames.dom().contains(f),
        forall|f: usize|
            #[trigger] heap.frames.dom().contains(f) && f != vm.selected_frame ==> plain_step(
                vm,
                program,
                heap,
                fresh,
            ).1.frames[f] == heap.frames[f],
        plain_step(vm, program, heap, fresh).1.allocation_count == heap.allocation_count
            || plain_step(vm, program, heap, fresh).1.allocation_count == heap.allocation_count + 1,
{
    if vm.running && vm.program_counter < program.len() {
        lemma_plain_execute_shape(vm, heap, program[vm.program_counter as int], fresh);
    }
}

/// A step of that machine with any instruction but a jump moves on to the
/// next instruction, unless it handed an operation to the host.
pub proof fn law_plain_step_moves_on(
    vm: VmModel,
    program: Seq<PlainInstruction>,
    heap: HeapModel,
    fresh: usize,
)
    requires
        vm.running,
        vm.program_counter < program.len(),
        program.len() <= usize::MAX,
        !(program[vm.program_counter as int] is Jump || program[vm.program_counter as int] is JumpIfNot
            || program[vm.program_counter as int] is PopJumpIfNot),
        !(plain_step(vm, program, heap, fresh).2 matches Some(ActionModel::RealOp(_, _, _))),
    ensures
        plain_step(vm, program, heap, fresh).0.program_counter == vm.program_counter + 1,
{
    lemma_plain_execute_shape(vm, heap, program[vm.program_counter as int], fresh);
}

proof fn lemma_plain_execute_shape(vm: VmModel, heap: HeapModel, instr: PlainInstruction, fresh: usize)
    ensures
        plain_execute(vm, heap, instr, fresh).2 is Some,
        !(instr is Jump || instr is JumpIfNot || instr is PopJumpIfNot) ==> plain_execute(vm, heap, instr, fresh).0.program_counter
            == vm.program_counter,
        !heap.frames.dom().contains(fresh) && !plain_heap_panics(vm, heap, instr) ==> {
            &&& forall|f: usize|
                #[trigger] heap.frames.dom().contains(f) ==> plain_execute(vm, heap, instr, fresh).1.frames.dom().contains(f)
            &&& forall|f: usize|
                #[trigger] heap.frames.dom().contains(f) && f != vm.selected_frame ==> plain_execute(
                    vm,
                    heap,
                    instr,
                    fresh,
                ).1.frames[f] == heap.frames[f]
            &&& (plain_execute(vm, heap, instr, fresh).1.allocation_count == heap.allocation_count
                || plain_execute(vm, heap, instr, fresh).1.allocation_count == heap.allocation_count + 1)
        },
{
    match instr {
        PlainInstruction::NoOperation => {},
        PlainInstruction::SetStackMode(..) => {},
        PlainInstruction::SelectLocalStack(..) => {},
        PlainInstruction::PushLocalStack => {},
        PlainInstruction::PopLocalStack => {},
        PlainInstruction::PushMax(..) => {},
        PlainInstruction::PushInt(..) => {},
        PlainInstruction::PushReal(..) => {},
        PlainInstruction::PushByte(..) => {},
        PlainInstruction::PushBool(..) => {},
        PlainInstruction::PushHeapReference(..) => {},
        PlainInstruction::PushNil => {},
        PlainInstruction::ToMax(..) => {},
        PlainInstruction::ToByte(..) => {},
        PlainInstruction::ToInt(..) => {},
        PlainInstruction::PushTransition(..) => {},
        PlainInstruction::CopyTransition(..) => {},
        PlainInstruction::Copy(..) => {},
        PlainInstruction::Nilify(..) => {},
        PlainInstruction::Assign(..) => {},
        PlainInstruction::Pop => {},
        PlainInstruction::Clear => {},
        PlainInstruction::CreateHeap => {},
        PlainInstruction::CloneHeap => {},
        PlainInstruction::SizeHeap => {},
        PlainInstruction::PushHeap => {},
        PlainInstruction::SelectHeap(..) => {},
        PlainInstruction::WriteHeap(..) => {},
        PlainInstruction::ReadHeap(..) => {},
        PlainInstruction::Add(..) => {},
        PlainInstruction::Subtract(..) => {},
        PlainInstruction::Multiply(..) => {},
        PlainInstruction::Divide(..) => {},
        PlainInstruction::Modulus(..) => {},
        PlainInstruction::BitLeftShift(..) => {},
        PlainInstruction::BitRightShift(..) => {},
        PlainInstruction::BitAnd(..) => {},
        PlainInstruction::BitXor(..) => {},
        PlainInstruction::BitOr(..) => {},
        PlainInstruction::BitNot(..) => {},
        PlainInstruction::Not(..) => {},
        PlainInstruction::And(..) => {},
        PlainInstruction::Or(..) => {},
        PlainInstruction::Equals(..) => {},
        PlainInstruction::NotEquals(..) => {},
        PlainInstruction::GreaterThan(..) => {},
        PlainInstruction::LesserThan(..) => {},
        PlainInstruction::GreaterThanOrEquals(..) => {},
        PlainInstruction::LesserThanOrEquals(..) => {},
        PlainInstruction::Jump(..) => {},
        PlainInstruction::JumpIfNot(..) => {},
        PlainInstruction::PopJumpIfNot(..) => {},
        PlainInstruction::SpawnSubtask(..) => {},
        PlainInstruction::KillSelf => {},
        PlainInstruction::FFICall(..) => {},
    }
}

/// On the machine addressed through `SharkyParameter`, with the indexed
/// stack `s` selected and a live selected frame: writing stack cell `j` to
/// heap cell `i` and then reading heap cell `i` into stack cell `k` both
/// complete, heap cell `i` then holds `s[j]`, and the stack is `s` with cell
/// `k` set to `s[j]`.
pub proof fn law_plain_heap_write_then_read(
    vm: VmModel,
    heap: HeapModel,
    i: usize,
    j: usize,
    k: usize,
    fresh: usize,
)
    requires
        vm.memory.stack_mode == SharkyStackMode::Indexed,
        vm.memory.selected_local_stack < vm.memory.local_stacks.len(),
        j < vm.memory.local_stacks[vm.memory.selected_local_stack as int].len(),
        k < vm.memory.local_stacks[vm.memory.selected_local_stack as int].len(),
        heap.frames.dom().contains(vm.selected_frame),
        i < heap.frames[vm.selected_frame].len(),
    ensures
        ({
            let s = vm.memory.local_stacks[vm.memory.selected_local_stack as int];
            let write = PlainInstruction::WriteHeap(SharkyParameter::Constant(i), SharkyParameter::Constant(j));
            let read = PlainInstruction::ReadHeap(SharkyParameter::Constant(k), SharkyParameter::Constant(i));
            let w = plain_heap_step(vm, heap, write, fresh);
            let r = plain_heap_step(w.0, w.1, read, fresh);
            &&& plain_heap_ok(vm, heap, write)
            &&& plain_heap_ok(w.0, w.1, read)
            &&& w.1.cell(vm.selected_frame, i) == Some(s[j as int])
            &&& r.1 == w.1
            &&& r.0.memory.active_stack() == Some(s.update(k as int, s[j as int]))
        }),
{
}
} // verus!
