use vstd::prelude::*;

use crate::instructions::{
    spec_fixed_stack_mode, ArithmeticMode, BitwiseMode, ComparisonMode, ConversionMode,
    FixedStackMode, HeapOpMode, LogicMode, OpParameterModel, SelectStackMode, SharkyInstruction,
};
use crate::sharky_data_types::{DataModel, SharkyByte, SharkyMax, SharkyStackMode, SharkyValue};
use crate::sharky_memory::{HeapModel, MemoryModel};
use crate::value_ops::{
    spec_to_bool, spec_to_byte, spec_to_heap_reference, spec_to_int, spec_to_max,
    spec_try_add, spec_try_bitwise_and, spec_try_bitwise_not, spec_try_bitwise_or,
    spec_try_bitwise_xor, spec_try_divide, spec_try_equals, spec_try_greater_than,
    spec_try_less_than, spec_try_mod, spec_try_multiply, spec_try_shift_left,
    spec_try_shift_right, spec_try_subtract,
};
use crate::vm::{SharkyInterrupt, SharkyRealOp};

verus! {

// What one step of the machine does, as a function of the machine, its
// program, the heap and the index the heap gives its next new frame.

/// The state of one machine (its program aside).
pub struct VmModel {
    pub memory: MemoryModel,
    pub program_counter: usize,
    pub selected_frame: usize,
    pub running: bool,
    pub ffi_function_count: usize,
}

/// What a step asks of the caller.
pub enum ActionModel {
    /// Nothing.
    Continue,
    /// Run a new machine, in this state, on the same program.
    SpawnSubtask(VmModel),
    /// Call foreign function number `usize` with the parameter stack.
    FFICall(usize),
    /// Compute a floating-point operation on these operands and hand the
    /// result back; the step finishes then.
    RealOp(SharkyRealOp, DataModel, DataModel),
}

/// The machine, the heap and the outcome after a step.
pub type StepModel = (VmModel, HeapModel, Result<ActionModel, SharkyInterrupt>);

pub open spec fn with_memory(vm: VmModel, m: MemoryModel) -> VmModel {
    VmModel { memory: m, ..vm }
}

pub open spec fn done(vm: VmModel, heap: HeapModel) -> StepModel {
    (vm, heap, Ok(ActionModel::Continue))
}

pub open spec fn fail(vm: VmModel, heap: HeapModel, e: SharkyInterrupt) -> StepModel {
    (vm, heap, Err(e))
}

/// The value at `index` of the stack that reads go to.
pub open spec fn read_active(m: MemoryModel, index: usize) -> Result<DataModel, SharkyInterrupt> {
    match m.active_stack() {
        None => Err(SharkyInterrupt::InvalidSelectedStack),
        Some(s) => if index < s.len() {
            Ok(s[index as int])
        } else {
            Err(SharkyInterrupt::InvalidStackObjectIndex)
        },
    }
}

/// The memory after pushing `v` onto the stack that writes go to.
pub open spec fn push_active(m: MemoryModel, v: DataModel) -> Result<MemoryModel, SharkyInterrupt> {
    match m.active_stack_mut() {
        None => Err(SharkyInterrupt::InvalidSelectedStack),
        Some(s) => Ok(m.with_active_stack(s.push(v))),
    }
}

/// The memory after setting `index` of the stack that writes go to.
pub open spec fn write_active(m: MemoryModel, index: usize, v: DataModel) -> Result<
    MemoryModel,
    SharkyInterrupt,
> {
    match m.active_stack_mut() {
        None => Err(SharkyInterrupt::InvalidSelectedStack),
        Some(s) => if index < s.len() {
            Ok(m.with_active_stack(s.update(index as int, v)))
        } else {
            Err(SharkyInterrupt::InvalidStackObjectIndex)
        },
    }
}

pub open spec fn push_operational(m: MemoryModel, v: DataModel) -> MemoryModel {
    MemoryModel { operational_stack: m.operational_stack.push(v), ..m }
}

/// The value an operand stands for.
pub open spec fn read_param(m: MemoryModel, p: OpParameterModel) -> Result<
    DataModel,
    SharkyInterrupt,
> {
    match p {
        OpParameterModel::Constant(v) => Ok(v),
        OpParameterModel::Index(i) => read_active(m, i),
        OpParameterModel::Pointer(i) => match read_active(m, i) {
            Err(e) => Err(e),
            Ok(DataModel::Max(j)) => read_active(m, j),
            Ok(_) => Err(SharkyInterrupt::NonIndexValue),
        },
        OpParameterModel::Empty => Ok(DataModel::Nil),
    }
}

/// The plain value of kind `T` an operand stands for.
pub open spec fn read_param_val<T: SharkyValue>(m: MemoryModel, p: OpParameterModel) -> Result<
    T,
    SharkyInterrupt,
> {
    match p {
        OpParameterModel::Constant(v) => match T::spec_from_data(v) {
            Some(x) => Ok(x),
            None => Err(SharkyInterrupt::InvalidParameter),
        },
        OpParameterModel::Index(i) => match read_active(m, i) {
            Err(e) => Err(e),
            Ok(v) => match T::spec_from_data(v) {
                Some(x) => Ok(x),
                None => Err(SharkyInterrupt::InvalidParameter),
            },
        },
        OpParameterModel::Pointer(i) => match read_active(m, i) {
            Err(e) => Err(e),
            Ok(DataModel::Max(j)) => match read_active(m, j) {
                Err(e) => Err(e),
                Ok(v) => match T::spec_from_data(v) {
                    Some(x) => Ok(x),
                    None => Err(SharkyInterrupt::TypeMismatch),
                },
            },
            Ok(_) => Err(SharkyInterrupt::NonIndexValue),
        },
        OpParameterModel::Empty => Err(SharkyInterrupt::InvalidParameter),
    }
}

/// The bytes of the byte string at `index` of the stack that writes go to.
pub open spec fn bytes_at(m: MemoryModel, index: usize) -> Result<Seq<SharkyByte>, SharkyInterrupt> {
    match m.active_stack_mut() {
        None => Err(SharkyInterrupt::InvalidStackMode),
        Some(s) => if index < s.len() {
            match s[index as int] {
                DataModel::ByteString(b) => Ok(b),
                _ => Err(SharkyInterrupt::ByteStringOpOnNonBytestring),
            }
        } else {
            Err(SharkyInterrupt::InvalidStackObjectIndex)
        },
    }
}

/// The memory with the byte string at `index` of the stack that writes go to
/// replaced by `b`.
pub open spec fn with_bytes_at(m: MemoryModel, index: usize, b: Seq<SharkyByte>) -> MemoryModel {
    m.with_active_stack(m.active_stack_mut().unwrap().update(index as int, DataModel::ByteString(b)))
}

/// Writing back the byte string that is there changes nothing.
pub proof fn lemma_with_bytes_at_unchanged(m: MemoryModel, index: usize)
    requires
        bytes_at(m, index) is Ok,
    ensures
        with_bytes_at(m, index, bytes_at(m, index).unwrap()) == m,
{
    let s = m.active_stack_mut().unwrap();
    assert(s.update(index as int, DataModel::ByteString(bytes_at(m, index).unwrap())) =~= s);
    m.lemma_with_active_stack_unchanged();
}

/// A machine after a step that did not jump by itself: on to the next
/// instruction, and stopped once past the end of the program.
pub open spec fn finish(vm: VmModel, prev: usize, len: nat) -> VmModel {
    let pc = if vm.program_counter == prev {
        (prev + 1) as usize
    } else {
        vm.program_counter
    };
    VmModel { program_counter: pc, running: if pc >= len { false } else { vm.running }, ..vm }
}

/// The memory of a new machine: empty stacks, one local stack, selected,
/// in the indexed mode.
pub open spec fn fresh_memory() -> MemoryModel {
    MemoryModel {
        operational_stack: Seq::empty(),
        transitional_stack: Seq::empty(),
        parameter_stack: Seq::empty(),
        string_stack: Seq::empty(),
        local_stacks: seq![Seq::empty()],
        selected_local_stack: 0,
        stack_mode: SharkyStackMode::Indexed,
    }
}

/// A new machine that starts at `pc` with a copy of the parameter stack of `vm`.
pub open spec fn subvm(vm: VmModel, pc: usize) -> VmModel {
    VmModel {
        memory: MemoryModel { parameter_stack: vm.memory.parameter_stack, ..fresh_memory() },
        program_counter: pc,
        selected_frame: 0,
        running: true,
        ffi_function_count: vm.ffi_function_count,
    }
}

// ---------------------------------------------------------------- stacks

pub open spec fn step_select_stack(vm: VmModel, heap: HeapModel, p: OpParameterModel, mode: SelectStackMode) -> StepModel {
    match read_param_val::<SharkyMax>(vm.memory, p) {
        Err(e) => fail(vm, heap, e),
        Ok(index) => match mode {
            SelectStackMode::Fixed => match spec_fixed_stack_mode(index as u8) {
                None => fail(vm, heap, SharkyInterrupt::InvalidStackMode),
                Some(fixed) => {
                    let stack_mode = match fixed {
                        FixedStackMode::Operative => SharkyStackMode::Operative,
                        FixedStackMode::Transitional => SharkyStackMode::Transitional,
                        FixedStackMode::Parameter => SharkyStackMode::Parameter,
                    };
                    done(with_memory(vm, MemoryModel { stack_mode, ..vm.memory }), heap)
                },
            },
            SelectStackMode::Indexed => done(
                with_memory(
                    vm,
                    MemoryModel {
                        stack_mode: SharkyStackMode::Indexed,
                        selected_local_stack: index,
                        ..vm.memory
                    },
                ),
                heap,
            ),
        },
    }
}

pub open spec fn step_copy_to_transition(vm: VmModel, heap: HeapModel, p: OpParameterModel) -> StepModel {
    match read_param_val::<SharkyMax>(vm.memory, p) {
        Err(e) => fail(vm, heap, e),
        Ok(src) => match read_active(vm.memory, src) {
            Err(e) => fail(vm, heap, e),
            Ok(v) => done(
                with_memory(
                    vm,
                    MemoryModel {
                        transitional_stack: vm.memory.transitional_stack.push(v),
                        ..vm.memory
                    },
                ),
                heap,
            ),
        },
    }
}

pub open spec fn step_copy_from_transition(vm: VmModel, heap: HeapModel, p: OpParameterModel) -> StepModel {
    match read_param_val::<SharkyMax>(vm.memory, p) {
        Err(e) => fail(vm, heap, e),
        Ok(src) => if src < vm.memory.transitional_stack.len() {
            match push_active(vm.memory, vm.memory.transitional_stack[src as int]) {
                Err(e) => fail(vm, heap, e),
                Ok(m) => done(with_memory(vm, m), heap),
            }
        } else {
            fail(vm, heap, SharkyInterrupt::InvalidStackObjectIndex)
        },
    }
}

pub open spec fn step_push(vm: VmModel, heap: HeapModel, v: DataModel) -> StepModel {
    match push_active(vm.memory, v) {
        Err(e) => fail(vm, heap, e),
        Ok(m) => done(with_memory(vm, m), heap),
    }
}

/// Whether a conversion has to be computed in floating point by the host.
pub open spec fn conversion_is_real(v: DataModel, mode: ConversionMode) -> bool {
    ||| mode == ConversionMode::Real
    ||| (v is Real && (mode == ConversionMode::Max || mode == ConversionMode::Int || mode
        == ConversionMode::Byte || mode == ConversionMode::Bool))
}

/// A conversion that does not involve floating point.
pub open spec fn convert_to(v: DataModel, mode: ConversionMode) -> Result<DataModel, SharkyInterrupt> {
    let r = match mode {
        ConversionMode::Max => spec_to_max(v),
        ConversionMode::Int => spec_to_int(v),
        ConversionMode::Byte => spec_to_byte(v),
        ConversionMode::Bool => spec_to_bool(v),
        ConversionMode::HeapReference => spec_to_heap_reference(v),
        _ => None,
    };
    match r {
        Some(x) => Ok(x),
        None => Err(SharkyInterrupt::TypeMismatch),
    }
}

pub open spec fn step_convert(vm: VmModel, heap: HeapModel, p: OpParameterModel, mode: ConversionMode) -> StepModel {
    match read_param(vm.memory, p) {
        Err(e) => fail(vm, heap, e),
        Ok(v) => if conversion_is_real(v, mode) {
            (vm, heap, Ok(ActionModel::RealOp(SharkyRealOp::Convert(mode), v, DataModel::Nil)))
        } else {
            match convert_to(v, mode) {
                Err(e) => fail(vm, heap, e),
                Ok(c) => step_push(vm, heap, c),
            }
        },
    }
}

pub open spec fn step_nilify(vm: VmModel, heap: HeapModel, p: OpParameterModel) -> StepModel {
    match read_param_val::<SharkyMax>(vm.memory, p) {
        Err(e) => fail(vm, heap, e),
        Ok(dest) => match write_active(vm.memory, dest, DataModel::Nil) {
            Err(e) => fail(vm, heap, e),
            Ok(m) => done(with_memory(vm, m), heap),
        },
    }
}

pub open spec fn step_assign(vm: VmModel, heap: HeapModel, d: OpParameterModel, s: OpParameterModel) -> StepModel {
    match read_param_val::<SharkyMax>(vm.memory, d) {
        Err(e) => fail(vm, heap, e),
        Ok(dest) => match read_param(vm.memory, s) {
            Err(e) => fail(vm, heap, e),
            Ok(v) => match write_active(vm.memory, dest, v) {
                Err(e) => fail(vm, heap, e),
                Ok(m) => done(with_memory(vm, m), heap),
            },
        },
    }
}

pub open spec fn step_copy(vm: VmModel, heap: HeapModel, p: OpParameterModel) -> StepModel {
    match read_param_val::<SharkyMax>(vm.memory, p) {
        Err(e) => fail(vm, heap, e),
        Ok(src) => match read_active(vm.memory, src) {
            Err(e) => fail(vm, heap, e),
            Ok(v) => step_push(vm, heap, v),
        },
    }
}

pub open spec fn step_pop(vm: VmModel, heap: HeapModel) -> StepModel {
    match vm.memory.active_stack_mut() {
        None => fail(vm, heap, SharkyInterrupt::InvalidSelectedStack),
        Some(s) => done(
            with_memory(
                vm,
                vm.memory.with_active_stack(
                    if s.len() > 0 {
                        s.drop_last()
                    } else {
                        s
                    },
                ),
            ),
            heap,
        ),
    }
}

pub open spec fn step_clear(vm: VmModel, heap: HeapModel) -> StepModel {
    match vm.memory.active_stack_mut() {
        None => fail(vm, heap, SharkyInterrupt::InvalidSelectedStack),
        Some(s) => done(with_memory(vm, vm.memory.with_active_stack(Seq::empty())), heap),
    }
}

// ---------------------------------------------------------- byte strings

pub open spec fn step_fill_byte_string(vm: VmModel, heap: HeapModel, d: OpParameterModel, v: OpParameterModel) -> StepModel {
    match read_param_val::<SharkyMax>(vm.memory, d) {
        Err(e) => fail(vm, heap, e),
        Ok(dest) => match read_param_val::<SharkyByte>(vm.memory, v) {
            Err(e) => fail(vm, heap, e),
            Ok(val) => match bytes_at(vm.memory, dest) {
                Err(e) => fail(vm, heap, e),
                Ok(b) => done(
                    with_memory(vm, with_bytes_at(vm.memory, dest, Seq::new(b.len(), |i: int| val))),
                    heap,
                ),
            },
        },
    }
}

/// Whether extending would ask for more bytes than a vector can hold.
pub open spec fn extend_overflows(vm: VmModel, d: OpParameterModel, l: OpParameterModel) -> bool {
    match (read_param_val::<SharkyMax>(vm.memory, d), read_param_val::<SharkyMax>(vm.memory, l)) {
        (Ok(dest), Ok(len)) => match bytes_at(vm.memory, dest) {
            Ok(b) => b.len() + len > isize::MAX,
            Err(_) => false,
        },
        _ => false,
    }
}

pub open spec fn step_extend_byte_string(vm: VmModel, heap: HeapModel, d: OpParameterModel, l: OpParameterModel) -> StepModel {
    match read_param_val::<SharkyMax>(vm.memory, d) {
        Err(e) => fail(vm, heap, e),
        Ok(dest) => match read_param_val::<SharkyMax>(vm.memory, l) {
            Err(e) => fail(vm, heap, e),
            Ok(len) => match bytes_at(vm.memory, dest) {
                Err(e) => fail(vm, heap, e),
                Ok(b) => done(
                    with_memory(
                        vm,
                        with_bytes_at(vm.memory, dest, b + Seq::new(len as nat, |i: int| 0u8)),
                    ),
                    heap,
                ),
            },
        },
    }
}

/// Sets byte `dest` of the byte string at stack index `dest` (the one operand
/// names both).
pub open spec fn step_copy_to_byte_string(vm: VmModel, heap: HeapModel, d: OpParameterModel, s: OpParameterModel) -> StepModel {
    match read_param_val::<SharkyMax>(vm.memory, d) {
        Err(e) => fail(vm, heap, e),
        Ok(dest) => match read_param_val::<SharkyByte>(vm.memory, s) {
            Err(e) => fail(vm, heap, e),
            Ok(src) => match bytes_at(vm.memory, dest) {
                Err(e) => fail(vm, heap, e),
                Ok(b) => if dest < b.len() {
                    done(with_memory(vm, with_bytes_at(vm.memory, dest, b.update(dest as int, src))), heap)
                } else {
                    fail(vm, heap, SharkyInterrupt::InvalidStackObjectIndex)
                },
            },
        },
    }
}

/// Reads byte `dest` of the byte string at stack index `src` into stack index `dest`.
pub open spec fn step_copy_from_byte_string(vm: VmModel, heap: HeapModel, d: OpParameterModel, s: OpParameterModel) -> StepModel {
    match read_param_val::<SharkyMax>(vm.memory, d) {
        Err(e) => fail(vm, heap, e),
        Ok(dest) => match read_param_val::<SharkyMax>(vm.memory, s) {
            Err(e) => fail(vm, heap, e),
            Ok(src) => match bytes_at(vm.memory, src) {
                Err(e) => fail(vm, heap, e),
                Ok(b) => if dest < b.len() {
                    match write_active(vm.memory, dest, DataModel::Byte(b[dest as int])) {
                        Err(e) => fail(vm, heap, e),
                        Ok(m) => done(with_memory(vm, m), heap),
                    }
                } else {
                    fail(vm, heap, SharkyInterrupt::InvalidStackObjectIndex)
                },
            },
        },
    }
}

/// Whether appending copies a non-empty byte string into an empty buffer of
/// a different length, which panics.
pub open spec fn append_panics(vm: VmModel, d: OpParameterModel, s: OpParameterModel) -> bool {
    match (read_param_val::<SharkyMax>(vm.memory, d), read_param_val::<SharkyMax>(vm.memory, s)) {
        (Ok(dest), Ok(src)) => match bytes_at(vm.memory, src) {
            Ok(b) => b.len() > 0,
            Err(_) => false,
        },
        _ => false,
    }
}

/// Appending where it does not panic: both operands must name byte strings,
/// and the one appended is empty, so nothing changes.
pub open spec fn step_append_byte_string(vm: VmModel, heap: HeapModel, d: OpParameterModel, s: OpParameterModel) -> StepModel {
    match read_param_val::<SharkyMax>(vm.memory, d) {
        Err(e) => fail(vm, heap, e),
        Ok(dest) => match read_param_val::<SharkyMax>(vm.memory, s) {
            Err(e) => fail(vm, heap, e),
            Ok(src) => match bytes_at(vm.memory, src) {
                Err(e) => fail(vm, heap, e),
                Ok(_) => match bytes_at(vm.memory, dest) {
                    Err(e) => fail(vm, heap, e),
                    Ok(_) => done(vm, heap),
                },
            },
        },
    }
}

pub open spec fn step_clear_byte_string(vm: VmModel, heap: HeapModel, p: OpParameterModel) -> StepModel {
    match read_param_val::<SharkyMax>(vm.memory, p) {
        Err(e) => fail(vm, heap, e),
        Ok(index) => match bytes_at(vm.memory, index) {
            Err(e) => fail(vm, heap, e),
            Ok(_) => done(with_memory(vm, with_bytes_at(vm.memory, index, Seq::empty())), heap),
        },
    }
}

pub open spec fn step_byte_string_size(vm: VmModel, heap: HeapModel, p: OpParameterModel) -> StepModel {
    match read_param_val::<SharkyMax>(vm.memory, p) {
        Err(e) => fail(vm, heap, e),
        Ok(index) => match bytes_at(vm.memory, index) {
            Err(e) => fail(vm, heap, e),
            Ok(b) => step_push(vm, heap, DataModel::Max(b.len() as usize)),
        },
    }
}

pub open spec fn step_slice_byte_string(vm: VmModel, heap: HeapModel, s: OpParameterModel, b: OpParameterModel, e: OpParameterModel) -> StepModel {
    match read_param_val::<SharkyMax>(vm.memory, s) {
        Err(x) => fail(vm, heap, x),
        Ok(src) => match read_param_val::<SharkyMax>(vm.memory, b) {
            Err(x) => fail(vm, heap, x),
            Ok(begin) => match read_param_val::<SharkyMax>(vm.memory, e) {
                Err(x) => fail(vm, heap, x),
                Ok(end) => match bytes_at(vm.memory, src) {
                    Err(x) => fail(vm, heap, x),
                    Ok(bytes) => if begin > end || begin > bytes.len() || end > bytes.len() {
                        fail(vm, heap, SharkyInterrupt::InvalidStackObjectIndex)
                    } else {
                        step_push(
                            vm,
                            heap,
                            DataModel::ByteString(bytes.subrange(begin as int, end as int)),
                        )
                    },
                },
            },
        },
    }
}

// ------------------------------------------------------------- operators

pub open spec fn arithmetic_real_op(mode: ArithmeticMode) -> SharkyRealOp {
    match mode {
        ArithmeticMode::Add => SharkyRealOp::Add,
        ArithmeticMode::Subtract => SharkyRealOp::Subtract,
        ArithmeticMode::Multiply => SharkyRealOp::Multiply,
        ArithmeticMode::Divide => SharkyRealOp::Divide,
        ArithmeticMode::Mod => SharkyRealOp::Mod,
    }
}

pub open spec fn arithmetic(lhs: DataModel, rhs: DataModel, mode: ArithmeticMode) -> Option<DataModel> {
    match mode {
        ArithmeticMode::Add => spec_try_add(lhs, rhs),
        ArithmeticMode::Subtract => spec_try_subtract(lhs, rhs),
        ArithmeticMode::Multiply => spec_try_multiply(lhs, rhs),
        ArithmeticMode::Divide => spec_try_divide(lhs, rhs),
        ArithmeticMode::Mod => spec_try_mod(lhs, rhs),
    }
}

/// Pushes the result onto the operational stack, or interrupts with `InvalidOp`.
pub open spec fn push_result(vm: VmModel, heap: HeapModel, r: Option<DataModel>) -> StepModel {
    match r {
        Some(v) => done(with_memory(vm, push_operational(vm.memory, v)), heap),
        None => fail(vm, heap, SharkyInterrupt::InvalidOp),
    }
}

pub open spec fn step_arithmetic(vm: VmModel, heap: HeapModel, l: OpParameterModel, r: OpParameterModel, mode: ArithmeticMode) -> StepModel {
    match read_param(vm.memory, l) {
        Err(e) => fail(vm, heap, e),
        Ok(lhs) => match read_param(vm.memory, r) {
            Err(e) => fail(vm, heap, e),
            Ok(rhs) => if lhs is Real || rhs is Real {
                (vm, heap, Ok(ActionModel::RealOp(arithmetic_real_op(mode), lhs, rhs)))
            } else {
                push_result(vm, heap, arithmetic(lhs, rhs, mode))
            },
        },
    }
}

pub open spec fn bitwise(lhs: DataModel, rhs: DataModel, mode: BitwiseMode) -> Option<DataModel> {
    match mode {
        BitwiseMode::ShiftLeft => spec_try_shift_left(lhs, rhs),
        BitwiseMode::ShiftRight => spec_try_shift_right(lhs, rhs),
        BitwiseMode::And => spec_try_bitwise_and(lhs, rhs),
        BitwiseMode::Or => spec_try_bitwise_or(lhs, rhs),
        BitwiseMode::Xor => spec_try_bitwise_xor(lhs, rhs),
        BitwiseMode::Not => spec_try_bitwise_not(lhs),
    }
}

pub open spec fn step_bitwise(vm: VmModel, heap: HeapModel, l: OpParameterModel, r: OpParameterModel, mode: BitwiseMode) -> StepModel {
    match read_param(vm.memory, l) {
        Err(e) => fail(vm, heap, e),
        Ok(lhs) => match read_param(vm.memory, r) {
            Err(e) => fail(vm, heap, e),
            Ok(rhs) => push_result(vm, heap, bitwise(lhs, rhs, mode)),
        },
    }
}

pub open spec fn comparison_real_op(mode: ComparisonMode) -> SharkyRealOp {
    match mode {
        ComparisonMode::Equals => SharkyRealOp::Equals,
        ComparisonMode::NotEquals => SharkyRealOp::NotEquals,
        ComparisonMode::GreaterThan => SharkyRealOp::GreaterThan,
        ComparisonMode::LessThan => SharkyRealOp::LessThan,
        ComparisonMode::GreaterThanOrEquals => SharkyRealOp::GreaterThanOrEquals,
        _ => SharkyRealOp::LessThanOrEquals,
    }
}

/// Combines two boolean results with `or`.
pub open spec fn either(a: Option<DataModel>, b: Option<DataModel>) -> Option<DataModel> {
    match (a, b) {
        (Some(DataModel::Bool(x)), Some(DataModel::Bool(y))) => Some(DataModel::Bool(x || y)),
        _ => None,
    }
}

/// The comparison of two operands that are not Real. `And` gives whether the
/// two booleans are equal.
pub open spec fn comparison(lhs: DataModel, rhs: DataModel, mode: ComparisonMode) -> Option<DataModel> {
    match mode {
        ComparisonMode::And => match (lhs, rhs) {
            (DataModel::Bool(a), DataModel::Bool(b)) => Some(DataModel::Bool(a == b)),
            _ => None,
        },
        ComparisonMode::Or => match (lhs, rhs) {
            (DataModel::Bool(a), DataModel::Bool(b)) => Some(DataModel::Bool(a || b)),
            _ => None,
        },
        ComparisonMode::Equals => spec_try_equals(lhs, rhs),
        ComparisonMode::NotEquals => match spec_try_equals(lhs, rhs) {
            Some(DataModel::Bool(v)) => Some(DataModel::Bool(!v)),
            _ => None,
        },
        ComparisonMode::GreaterThan => spec_try_greater_than(lhs, rhs),
        ComparisonMode::LessThan => spec_try_less_than(lhs, rhs),
        ComparisonMode::GreaterThanOrEquals => either(
            spec_try_greater_than(lhs, rhs),
            spec_try_equals(lhs, rhs),
        ),
        ComparisonMode::LessThanOrEquals => either(
            spec_try_less_than(lhs, rhs),
            spec_try_equals(lhs, rhs),
        ),
    }
}

pub open spec fn step_comparison(vm: VmModel, heap: HeapModel, l: OpParameterModel, r: OpParameterModel, mode: ComparisonMode) -> StepModel {
    match read_param(vm.memory, l) {
        Err(e) => fail(vm, heap, e),
        Ok(lhs) => match read_param(vm.memory, r) {
            Err(e) => fail(vm, heap, e),
            Ok(rhs) => if mode != ComparisonMode::And && mode != ComparisonMode::Or && (lhs is Real
                || rhs is Real) {
                (vm, heap, Ok(ActionModel::RealOp(comparison_real_op(mode), lhs, rhs)))
            } else {
                push_result(vm, heap, comparison(lhs, rhs, mode))
            },
        },
    }
}

pub open spec fn step_not_bool(vm: VmModel, heap: HeapModel, p: OpParameterModel) -> StepModel {
    match read_param_val::<bool>(vm.memory, p) {
        Err(e) => fail(vm, heap, e),
        Ok(v) => step_push(vm, heap, DataModel::Bool(!v)),
    }
}

// ------------------------------------------------- control, heap, tasks

pub open spec fn step_goto(vm: VmModel, heap: HeapModel, p: OpParameterModel) -> StepModel {
    match read_param_val::<SharkyMax>(vm.memory, p) {
        Err(e) => fail(vm, heap, e),
        Ok(to) => done(VmModel { program_counter: to, ..vm }, heap),
    }
}

pub open spec fn step_logical_goto(vm: VmModel, heap: HeapModel, t: OpParameterModel, c: OpParameterModel, mode: LogicMode) -> StepModel {
    match read_param_val::<bool>(vm.memory, c) {
        Err(e) => fail(vm, heap, e),
        Ok(check) => match read_param_val::<SharkyMax>(vm.memory, t) {
            Err(e) => fail(vm, heap, e),
            Ok(to) => {
                let jump = match mode {
                    LogicMode::If => check,
                    LogicMode::IfNot => !check,
                };
                done(if jump { VmModel { program_counter: to, ..vm } } else { vm }, heap)
            },
        },
    }
}

/// Whether a heap operation would overflow the allocation count, which panics.
pub open spec fn heap_op_panics(vm: VmModel, heap: HeapModel, mode: HeapOpMode) -> bool {
    match mode {
        HeapOpMode::Create => heap.allocation_count == usize::MAX,
        HeapOpMode::Clone => heap.frames.dom().contains(vm.selected_frame) && heap.allocation_count
            == usize::MAX,
        _ => false,
    }
}

/// A heap operation on the selected frame; `fresh` is the index the heap
/// gives its next new frame.
pub open spec fn step_heap(vm: VmModel, heap: HeapModel, mode: HeapOpMode, fresh: usize) -> StepModel {
    match mode {
        HeapOpMode::Create => {
            let h = HeapModel {
                frames: heap.frames.insert(fresh, Seq::empty()),
                allocation_count: (heap.allocation_count + 1) as usize,
            };
            step_push(vm, h, DataModel::HeapReference(fresh))
        },
        HeapOpMode::Clone => if heap.frames.dom().contains(vm.selected_frame) {
            let h = HeapModel {
                frames: heap.frames.insert(fresh, heap.frames[vm.selected_frame]),
                allocation_count: (heap.allocation_count + 1) as usize,
            };
            step_push(vm, h, DataModel::HeapReference(fresh))
        } else {
            fail(vm, heap, SharkyInterrupt::InvalidHeapIndex)
        },
        HeapOpMode::NewItem => if heap.frames.dom().contains(vm.selected_frame) {
            done(
                vm,
                HeapModel {
                    frames: heap.frames.insert(
                        vm.selected_frame,
                        heap.frames[vm.selected_frame].push(DataModel::Nil),
                    ),
                    ..heap
                },
            )
        } else {
            fail(vm, heap, SharkyInterrupt::InvalidHeapIndex)
        },
        HeapOpMode::Size => if heap.frames.dom().contains(vm.selected_frame) {
            step_push(vm, heap, DataModel::Max(heap.frames[vm.selected_frame].len() as usize))
        } else {
            fail(vm, heap, SharkyInterrupt::InvalidHeapIndex)
        },
    }
}

pub open spec fn step_select_heap(vm: VmModel, heap: HeapModel, p: OpParameterModel) -> StepModel {
    match read_param_val::<SharkyMax>(vm.memory, p) {
        Err(e) => fail(vm, heap, e),
        Ok(index) => done(VmModel { selected_frame: index, ..vm }, heap),
    }
}

pub open spec fn step_copy_to_heap_item(vm: VmModel, heap: HeapModel, d: OpParameterModel, s: OpParameterModel) -> StepModel {
    match read_param_val::<SharkyMax>(vm.memory, d) {
        Err(e) => fail(vm, heap, e),
        Ok(dest) => match read_param(vm.memory, s) {
            Err(e) => fail(vm, heap, e),
            Ok(v) => if heap.frames.dom().contains(vm.selected_frame) {
                let frame = heap.frames[vm.selected_frame];
                done(
                    vm,
                    HeapModel {
                        frames: heap.frames.insert(
                            vm.selected_frame,
                            if dest < frame.len() {
                                frame.update(dest as int, v)
                            } else {
                                frame
                            },
                        ),
                        ..heap
                    },
                )
            } else {
                fail(vm, heap, SharkyInterrupt::InvalidHeapIndex)
            },
        },
    }
}

pub open spec fn step_copy_from_heap_item(vm: VmModel, heap: HeapModel, d: OpParameterModel, s: OpParameterModel) -> StepModel {
    match read_param_val::<SharkyMax>(vm.memory, d) {
        Err(e) => fail(vm, heap, e),
        Ok(dest) => match read_param_val::<SharkyMax>(vm.memory, s) {
            Err(e) => fail(vm, heap, e),
            Ok(src) => if heap.frames.dom().contains(vm.selected_frame) && src
                < heap.frames[vm.selected_frame].len() {
                match write_active(vm.memory, dest, heap.frames[vm.selected_frame][src as int]) {
                    Err(e) => fail(vm, heap, e),
                    Ok(m) => done(with_memory(vm, m), heap),
                }
            } else {
                fail(vm, heap, SharkyInterrupt::InvalidHeapIndex)
            },
        },
    }
}

pub open spec fn step_spawn_subtask(vm: VmModel, heap: HeapModel, p: OpParameterModel) -> StepModel {
    match read_param_val::<SharkyMax>(vm.memory, p) {
        Err(e) => fail(vm, heap, e),
        Ok(pc) => (vm, heap, Ok(ActionModel::SpawnSubtask(subvm(vm, pc)))),
    }
}

pub open spec fn step_ffi_call(vm: VmModel, heap: HeapModel, p: OpParameterModel) -> StepModel {
    match read_param_val::<SharkyMax>(vm.memory, p) {
        Err(e) => fail(vm, heap, e),
        Ok(f) => if f < vm.ffi_function_count {
            (vm, heap, Ok(ActionModel::FFICall(f)))
        } else {
            fail(vm, heap, SharkyInterrupt::InvalidFFICall)
        },
    }
}

// ------------------------------------------------------------ the step

/// What executing `instr` does, before the program counter moves on.
pub open spec fn execute(vm: VmModel, heap: HeapModel, instr: SharkyInstruction, fresh: usize) -> StepModel {
    match instr {
        SharkyInstruction::NoOperation => done(vm, heap),
        SharkyInstruction::SelectStack(p, mode) => step_select_stack(vm, heap, p@, mode),
        SharkyInstruction::PushStack => done(
            with_memory(
                vm,
                MemoryModel {
                    local_stacks: vm.memory.local_stacks.push(Seq::empty()),
                    ..vm.memory
                },
            ),
            heap,
        ),
        SharkyInstruction::PopStack => done(
            with_memory(
                vm,
                MemoryModel {
                    local_stacks: if vm.memory.local_stacks.len() > 0 {
                        vm.memory.local_stacks.drop_last()
                    } else {
                        vm.memory.local_stacks
                    },
                    ..vm.memory
                },
            ),
            heap,
        ),
        SharkyInstruction::CopyToTransition(p) => step_copy_to_transition(vm, heap, p@),
        SharkyInstruction::CopyFromTransition(p) => step_copy_from_transition(vm, heap, p@),
        SharkyInstruction::Push(v) => step_push(vm, heap, v@),
        SharkyInstruction::Convert(p, mode) => step_convert(vm, heap, p@, mode),
        SharkyInstruction::Copy(p) => step_copy(vm, heap, p@),
        SharkyInstruction::Nilify(p) => step_nilify(vm, heap, p@),
        SharkyInstruction::Assign(d, s) => step_assign(vm, heap, d@, s@),
        SharkyInstruction::Pop => step_pop(vm, heap),
        SharkyInstruction::Clear => step_clear(vm, heap),
        SharkyInstruction::Heap(mode) => step_heap(vm, heap, mode, fresh),
        SharkyInstruction::SelectHeap(p) => step_select_heap(vm, heap, p@),
        SharkyInstruction::CopyToHeapItem(d, s) => step_copy_to_heap_item(vm, heap, d@, s@),
        SharkyInstruction::CopyFromHeapItem(d, s) => step_copy_from_heap_item(vm, heap, d@, s@),
        SharkyInstruction::FillByteStringWithValue(d, v) => step_fill_byte_string(vm, heap, d@, v@),
        SharkyInstruction::ExtendByteString(d, l) => step_extend_byte_string(vm, heap, d@, l@),
        SharkyInstruction::CopyToByteString(d, s) => step_copy_to_byte_string(vm, heap, d@, s@),
        SharkyInstruction::CopyFromByteString(d, s) => step_copy_from_byte_string(vm, heap, d@, s@),
        SharkyInstruction::AppendByteString(d, s) => step_append_byte_string(vm, heap, d@, s@),
        SharkyInstruction::ClearByteString(p) => step_clear_byte_string(vm, heap, p@),
        SharkyInstruction::ByteStringSize(p) => step_byte_string_size(vm, heap, p@),
        SharkyInstruction::SliceByteString(s, b, e) => step_slice_byte_string(vm, heap, s@, b@, e@),
        SharkyInstruction::ArithmeticOp(l, r, mode) => step_arithmetic(vm, heap, l@, r@, mode),
        SharkyInstruction::BitwiseOp(l, r, mode) => step_bitwise(vm, heap, l@, r@, mode),
        SharkyInstruction::ComparisonOp(l, r, mode) => step_comparison(vm, heap, l@, r@, mode),
        SharkyInstruction::NotBool(p) => step_not_bool(vm, heap, p@),
        SharkyInstruction::Goto(p) => step_goto(vm, heap, p@),
        SharkyInstruction::LogicalGoto(t, c, mode) => step_logical_goto(vm, heap, t@, c@, mode),
        SharkyInstruction::SpawnSubtask(p) => step_spawn_subtask(vm, heap, p@),
        SharkyInstruction::EndTask => done(VmModel { running: false, ..vm }, heap),
        SharkyInstruction::FFICall(p) => step_ffi_call(vm, heap, p@),
    }
}

/// Whether executing `instr` panics.
pub open spec fn execute_panics(vm: VmModel, heap: HeapModel, instr: SharkyInstruction) -> bool {
    match instr {
        SharkyInstruction::Heap(mode) => heap_op_panics(vm, heap, mode),
        SharkyInstruction::ExtendByteString(d, l) => extend_overflows(vm, d@, l@),
        SharkyInstruction::AppendByteString(d, s) => append_panics(vm, d@, s@),
        _ => false,
    }
}

/// One step: nothing when stopped; `OutOfOps` past the end of the program;
/// otherwise the current instruction, and then, unless it failed or handed a
/// floating-point operation to the host, on to the next instruction.
pub open spec fn step(vm: VmModel, program: Seq<SharkyInstruction>, heap: HeapModel, fresh: usize) -> StepModel {
    if !vm.running {
        done(vm, heap)
    } else if vm.program_counter >= program.len() {
        fail(vm, heap, SharkyInterrupt::OutOfOps)
    } else {
        let (v, h, r) = execute(vm, heap, program[vm.program_counter as int], fresh);
        match r {
            Ok(ActionModel::RealOp(op, lhs, rhs)) => (v, h, r),
            Ok(a) => (finish(v, vm.program_counter, program.len()), h, Ok(a)),
            Err(e) => (v, h, Err(e)),
        }
    }
}

/// Whether a step panics.
pub open spec fn step_panics(vm: VmModel, program: Seq<SharkyInstruction>, heap: HeapModel) -> bool {
    &&& vm.running
    &&& vm.program_counter < program.len()
    &&& execute_panics(vm, heap, program[vm.program_counter as int])
}

} // verus!
