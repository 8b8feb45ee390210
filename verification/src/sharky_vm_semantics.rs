use vstd::prelude::*;

use crate::instructions::{ArithmeticMode, BitwiseMode, ComparisonMode};
use crate::sharky_data_types::{
    DataModel, SharkyInstruction, SharkyParameter, SharkyStackMode, SharkyValue,
};
use crate::sharky_memory::{HeapModel, MemoryModel};
use crate::vm::SharkyRealOp;
use crate::vm_semantics::{finish, push_operational, subvm, with_memory, ActionModel, VmModel};

verus! {

// What one step of the machine that runs the parameter-addressed instruction
// set does. An instruction whose operand or stack is missing does nothing
// further, silently; the machine moves on all the same.

/// The state after a step (`None` as the outcome: the program counter was
/// past the end of the program, and nothing changed).
pub type PlainStepModel = (VmModel, HeapModel, Option<ActionModel>);

/// The value an operand stands for; a stack index is read from the stack
/// that reads go to.
pub open spec fn plain_param<T: SharkyValue>(m: MemoryModel, p: SharkyParameter<T>) -> Option<T> {
    match p {
        SharkyParameter::Constant(v) => Some(v),
        SharkyParameter::StackIndex(i) => match m.active_stack() {
            Some(s) => if i < s.len() {
                T::spec_from_data(s[i as int])
            } else {
                None
            },
            None => None,
        },
        SharkyParameter::Empty => None,
    }
}

pub open spec fn unchanged(vm: VmModel, heap: HeapModel) -> PlainStepModel {
    (vm, heap, Some(ActionModel::Continue))
}

pub open spec fn with_mem(vm: VmModel, heap: HeapModel, m: MemoryModel) -> PlainStepModel {
    (with_memory(vm, m), heap, Some(ActionModel::Continue))
}

/// Pushes `v` onto the stack that writes go to, if there is one.
pub open spec fn plain_push(vm: VmModel, heap: HeapModel, v: DataModel) -> PlainStepModel {
    match vm.memory.active_stack_mut() {
        Some(s) => with_mem(vm, heap, vm.memory.with_active_stack(s.push(v))),
        None => unchanged(vm, heap),
    }
}

/// The stack that writes go to with index `i` set to `v` (no change past its top).
pub open spec fn set_in(s: Seq<DataModel>, i: usize, v: DataModel) -> Seq<DataModel> {
    if i < s.len() {
        s.update(i as int, v)
    } else {
        s
    }
}

/// The result of an arithmetic operation on two values that are not both
/// Real: the same integer kind gives that kind, any other pair gives Nil;
/// `None` where the operation overflows or divides by zero, which panics.
pub open spec fn plain_arithmetic(mode: ArithmeticMode, a: DataModel, b: DataModel) -> Option<DataModel> {
    match (a, b) {
        (DataModel::Int(x), DataModel::Int(y)) => match match mode {
            ArithmeticMode::Add => x.checked_add(y),
            ArithmeticMode::Subtract => x.checked_sub(y),
            ArithmeticMode::Multiply => x.checked_mul(y),
            ArithmeticMode::Divide => x.checked_div(y),
            ArithmeticMode::Mod => x.checked_rem(y),
        } {
            Some(v) => Some(DataModel::Int(v)),
            None => None,
        },
        (DataModel::Max(x), DataModel::Max(y)) => match match mode {
            ArithmeticMode::Add => x.checked_add(y),
            ArithmeticMode::Subtract => x.checked_sub(y),
            ArithmeticMode::Multiply => x.checked_mul(y),
            ArithmeticMode::Divide => x.checked_div(y),
            ArithmeticMode::Mod => x.checked_rem(y),
        } {
            Some(v) => Some(DataModel::Max(v)),
            None => None,
        },
        (DataModel::Byte(x), DataModel::Byte(y)) => match match mode {
            ArithmeticMode::Add => x.checked_add(y),
            ArithmeticMode::Subtract => x.checked_sub(y),
            ArithmeticMode::Multiply => x.checked_mul(y),
            ArithmeticMode::Divide => x.checked_div(y),
            ArithmeticMode::Mod => x.checked_rem(y),
        } {
            Some(v) => Some(DataModel::Byte(v)),
            None => None,
        },
        _ => Some(DataModel::Nil),
    }
}

/// The result of a bitwise operation (`Not` takes `a` alone): the same
/// integer kind gives that kind, anything else gives Nil; `None` where a
/// shift is by a negative amount or by at least the width, which panics.
pub open spec fn plain_bitwise(mode: BitwiseMode, a: DataModel, b: DataModel) -> Option<DataModel> {
    match mode {
        BitwiseMode::Not => match a {
            DataModel::Int(x) => Some(DataModel::Int(!x)),
            DataModel::Max(x) => Some(DataModel::Max(!x)),
            DataModel::Byte(x) => Some(DataModel::Byte(!x)),
            _ => Some(DataModel::Nil),
        },
        BitwiseMode::ShiftLeft => match (a, b) {
            (DataModel::Int(x), DataModel::Int(y)) => if 0 <= y < 64 {
                Some(DataModel::Int(x << (y as u32)))
            } else {
                None
            },
            (DataModel::Max(x), DataModel::Max(y)) => if y < usize::BITS {
                Some(DataModel::Max(x << y))
            } else {
                None
            },
            (DataModel::Byte(x), DataModel::Byte(y)) => if y < 8 {
                Some(DataModel::Byte(x << y))
            } else {
                None
            },
            _ => Some(DataModel::Nil),
        },
        BitwiseMode::ShiftRight => match (a, b) {
            (DataModel::Int(x), DataModel::Int(y)) => if 0 <= y < 64 {
                Some(DataModel::Int(x >> (y as u32)))
            } else {
                None
            },
            (DataModel::Max(x), DataModel::Max(y)) => if y < usize::BITS {
                Some(DataModel::Max(x >> y))
            } else {
                None
            },
            (DataModel::Byte(x), DataModel::Byte(y)) => if y < 8 {
                Some(DataModel::Byte(x >> y))
            } else {
                None
            },
            _ => Some(DataModel::Nil),
        },
        BitwiseMode::And => match (a, b) {
            (DataModel::Int(x), DataModel::Int(y)) => Some(DataModel::Int(x & y)),
            (DataModel::Max(x), DataModel::Max(y)) => Some(DataModel::Max(x & y)),
            (DataModel::Byte(x), DataModel::Byte(y)) => Some(DataModel::Byte(x & y)),
            _ => Some(DataModel::Nil),
        },
        BitwiseMode::Or => match (a, b) {
            (DataModel::Int(x), DataModel::Int(y)) => Some(DataModel::Int(x | y)),
            (DataModel::Max(x), DataModel::Max(y)) => Some(DataModel::Max(x | y)),
            (DataModel::Byte(x), DataModel::Byte(y)) => Some(DataModel::Byte(x | y)),
            _ => Some(DataModel::Nil),
        },
        BitwiseMode::Xor => match (a, b) {
            (DataModel::Int(x), DataModel::Int(y)) => Some(DataModel::Int(x ^ y)),
            (DataModel::Max(x), DataModel::Max(y)) => Some(DataModel::Max(x ^ y)),
            (DataModel::Byte(x), DataModel::Byte(y)) => Some(DataModel::Byte(x ^ y)),
            _ => Some(DataModel::Nil),
        },
    }
}

/// `x mode y` on integers.
pub open spec fn compare_ints(mode: ComparisonMode, x: int, y: int) -> bool {
    match mode {
        ComparisonMode::Equals => x == y,
        ComparisonMode::NotEquals => x != y,
        ComparisonMode::GreaterThan => x > y,
        ComparisonMode::LessThan => x < y,
        ComparisonMode::GreaterThanOrEquals => x >= y,
        _ => x <= y,
    }
}

/// A comparison of two values that are not both Real: two values of the
/// same kind (Nil, an integer kind, Bool with false below true, or a heap
/// reference) give a Bool; any other pair gives Nil.
pub open spec fn plain_comparison(mode: ComparisonMode, a: DataModel, b: DataModel) -> DataModel {
    match (a, b) {
        (DataModel::Int(x), DataModel::Int(y)) => DataModel::Bool(compare_ints(mode, x as int, y as int)),
        (DataModel::Max(x), DataModel::Max(y)) => DataModel::Bool(compare_ints(mode, x as int, y as int)),
        (DataModel::Byte(x), DataModel::Byte(y)) => DataModel::Bool(compare_ints(mode, x as int, y as int)),
        (DataModel::Bool(x), DataModel::Bool(y)) => DataModel::Bool(
            compare_ints(mode, if x { 1 } else { 0 }, if y { 1 } else { 0 }),
        ),
        (DataModel::HeapReference(x), DataModel::HeapReference(y)) => DataModel::Bool(
            compare_ints(mode, x as int, y as int),
        ),
        (DataModel::Nil, DataModel::Nil) => DataModel::Bool(compare_ints(mode, 0, 0)),
        _ => DataModel::Nil,
    }
}

/// The two operands, read from the operational stack at the indexes the
/// parameters give, if both are there.
pub open spec fn plain_operands(vm: VmModel, a: SharkyParameter<usize>, b: SharkyParameter<usize>) -> Option<(DataModel, DataModel)> {
    match (plain_param(vm.memory, a), plain_param(vm.memory, b)) {
        (Some(i), Some(j)) => {
            let ops = vm.memory.operational_stack;
            if i < ops.len() && j < ops.len() {
                Some((ops[i as int], ops[j as int]))
            } else {
                None
            }
        },
        _ => None,
    }
}

pub open spec fn push_op_result(vm: VmModel, heap: HeapModel, v: DataModel) -> PlainStepModel {
    with_mem(vm, heap, push_operational(vm.memory, v))
}

pub open spec fn plain_arithmetic_step(vm: VmModel, heap: HeapModel, a: SharkyParameter<usize>, b: SharkyParameter<usize>, mode: ArithmeticMode, op: SharkyRealOp) -> PlainStepModel {
    match plain_operands(vm, a, b) {
        None => unchanged(vm, heap),
        Some((x, y)) => if x is Real && y is Real {
            (vm, heap, Some(ActionModel::RealOp(op, x, y)))
        } else {
            push_op_result(vm, heap, plain_arithmetic(mode, x, y).unwrap())
        },
    }
}

pub open spec fn plain_bitwise_step(vm: VmModel, heap: HeapModel, a: SharkyParameter<usize>, b: SharkyParameter<usize>, mode: BitwiseMode) -> PlainStepModel {
    match plain_operands(vm, a, b) {
        None => unchanged(vm, heap),
        Some((x, y)) => push_op_result(vm, heap, plain_bitwise(mode, x, y).unwrap()),
    }
}

pub open spec fn plain_bit_not_step(vm: VmModel, heap: HeapModel, a: SharkyParameter<usize>) -> PlainStepModel {
    match plain_param(vm.memory, a) {
        None => unchanged(vm, heap),
        Some(i) => if i < vm.memory.operational_stack.len() {
            push_op_result(
                vm,
                heap,
                plain_bitwise(BitwiseMode::Not, vm.memory.operational_stack[i as int], DataModel::Nil).unwrap(),
            )
        } else {
            unchanged(vm, heap)
        },
    }
}

pub open spec fn plain_comparison_step(vm: VmModel, heap: HeapModel, a: SharkyParameter<usize>, b: SharkyParameter<usize>, mode: ComparisonMode, op: SharkyRealOp) -> PlainStepModel {
    match plain_operands(vm, a, b) {
        None => unchanged(vm, heap),
        Some((x, y)) => if x is Real && y is Real {
            (vm, heap, Some(ActionModel::RealOp(op, x, y)))
        } else {
            push_op_result(vm, heap, plain_comparison(mode, x, y))
        },
    }
}

/// `And` (`is_and`) or `Or` of two booleans; false for anything else.
pub open spec fn plain_boolean_step(vm: VmModel, heap: HeapModel, a: SharkyParameter<usize>, b: SharkyParameter<usize>, is_and: bool) -> PlainStepModel {
    match plain_operands(vm, a, b) {
        None => unchanged(vm, heap),
        Some((x, y)) => push_op_result(
            vm,
            heap,
            DataModel::Bool(
                match (x, y) {
                    (DataModel::Bool(p), DataModel::Bool(q)) => if is_and {
                        p && q
                    } else {
                        p || q
                    },
                    _ => false,
                },
            ),
        ),
    }
}

pub open spec fn plain_not_step(vm: VmModel, heap: HeapModel, a: SharkyParameter<usize>) -> PlainStepModel {
    match plain_param(vm.memory, a) {
        None => unchanged(vm, heap),
        Some(i) => if i < vm.memory.operational_stack.len() {
            push_op_result(
                vm,
                heap,
                DataModel::Bool(
                    match vm.memory.operational_stack[i as int] {
                        DataModel::Bool(p) => !p,
                        _ => false,
                    },
                ),
            )
        } else {
            unchanged(vm, heap)
        },
    }
}

/// Whether an operator step panics.
pub open spec fn plain_operator_panics(vm: VmModel, instr: SharkyInstruction) -> bool {
    match instr {
        SharkyInstruction::Add(a, b) => plain_arithmetic_panics(vm, a, b, ArithmeticMode::Add),
        SharkyInstruction::Subtract(a, b) => plain_arithmetic_panics(vm, a, b, ArithmeticMode::Subtract),
        SharkyInstruction::Multiply(a, b) => plain_arithmetic_panics(vm, a, b, ArithmeticMode::Multiply),
        SharkyInstruction::Divide(a, b) => plain_arithmetic_panics(vm, a, b, ArithmeticMode::Divide),
        SharkyInstruction::Modulus(a, b) => plain_arithmetic_panics(vm, a, b, ArithmeticMode::Mod),
        SharkyInstruction::BitLeftShift(a, b) => plain_bitwise_panics(vm, a, b, BitwiseMode::ShiftLeft),
        SharkyInstruction::BitRightShift(a, b) => plain_bitwise_panics(vm, a, b, BitwiseMode::ShiftRight),
        _ => false,
    }
}

pub open spec fn plain_arithmetic_panics(vm: VmModel, a: SharkyParameter<usize>, b: SharkyParameter<usize>, mode: ArithmeticMode) -> bool {
    match plain_operands(vm, a, b) {
        Some((x, y)) => !(x is Real && y is Real) && plain_arithmetic(mode, x, y) is None,
        None => false,
    }
}

pub open spec fn plain_bitwise_panics(vm: VmModel, a: SharkyParameter<usize>, b: SharkyParameter<usize>, mode: BitwiseMode) -> bool {
    match plain_operands(vm, a, b) {
        Some((x, y)) => plain_bitwise(mode, x, y) is None,
        None => false,
    }
}

/// Whether a heap step would overflow the allocation count, which panics.
pub open spec fn plain_heap_panics(vm: VmModel, heap: HeapModel, instr: SharkyInstruction) -> bool {
    match instr {
        SharkyInstruction::CreateHeap => heap.allocation_count == usize::MAX,
        SharkyInstruction::CloneHeap => heap.frames.dom().contains(vm.selected_frame)
            && heap.allocation_count == usize::MAX,
        _ => false,
    }
}

/// The stack instructions.
pub open spec fn plain_stack_step(vm: VmModel, heap: HeapModel, instr: SharkyInstruction) -> PlainStepModel {
    let m = vm.memory;
    match instr {
        SharkyInstruction::SetStackMode(mode) => with_mem(vm, heap, MemoryModel { stack_mode: mode, ..m }),
        SharkyInstruction::SelectLocalStack(p) => match plain_param(m, p) {
            Some(i) => with_mem(vm, heap, MemoryModel { selected_local_stack: i, ..m }),
            None => unchanged(vm, heap),
        },
        SharkyInstruction::PushLocalStack => with_mem(
            vm,
            heap,
            MemoryModel { local_stacks: m.local_stacks.push(Seq::empty()), ..m },
        ),
        SharkyInstruction::PopLocalStack => with_mem(
            vm,
            heap,
            MemoryModel {
                local_stacks: if m.local_stacks.len() > 0 {
                    m.local_stacks.drop_last()
                } else {
                    m.local_stacks
                },
                ..m
            },
        ),
        SharkyInstruction::PushTransition(p) => match (plain_param(m, p), m.active_stack()) {
            (Some(i), Some(s)) => if i < s.len() {
                with_mem(
                    vm,
                    heap,
                    MemoryModel { transitional_stack: m.transitional_stack.push(s[i as int]), ..m },
                )
            } else {
                unchanged(vm, heap)
            },
            _ => unchanged(vm, heap),
        },
        SharkyInstruction::CopyTransition(p) => match plain_param(m, p) {
            Some(i) => if i < m.transitional_stack.len() {
                plain_push(vm, heap, m.transitional_stack[i as int])
            } else {
                unchanged(vm, heap)
            },
            None => unchanged(vm, heap),
        },
        SharkyInstruction::Copy(p) => match (plain_param(m, p), m.active_stack_mut()) {
            (Some(i), Some(s)) => if i < s.len() {
                with_mem(vm, heap, m.with_active_stack(s.push(s[i as int])))
            } else {
                unchanged(vm, heap)
            },
            _ => unchanged(vm, heap),
        },
        SharkyInstruction::Nilify(p) => match (plain_param(m, p), m.active_stack_mut()) {
            (Some(i), Some(s)) => with_mem(vm, heap, m.with_active_stack(set_in(s, i, DataModel::Nil))),
            _ => unchanged(vm, heap),
        },
        SharkyInstruction::Assign(a, b) => match (plain_param(m, a), plain_param(m, b)) {
            (Some(i), Some(j)) => match m.active_stack_mut() {
                Some(s) => if j < s.len() {
                    with_mem(vm, heap, m.with_active_stack(set_in(s, i, s[j as int])))
                } else {
                    unchanged(vm, heap)
                },
                None => unchanged(vm, heap),
            },
            _ => unchanged(vm, heap),
        },
        SharkyInstruction::Pop => match m.active_stack_mut() {
            Some(s) => with_mem(
                vm,
                heap,
                m.with_active_stack(
                    if s.len() > 0 {
                        s.drop_last()
                    } else {
                        s
                    },
                ),
            ),
            None => unchanged(vm, heap),
        },
        SharkyInstruction::Clear => match m.active_stack_mut() {
            Some(s) => with_mem(vm, heap, m.with_active_stack(Seq::empty())),
            None => unchanged(vm, heap),
        },
        _ => unchanged(vm, heap),
    }
}

/// The instructions that push a constant.
pub open spec fn plain_constant_step(vm: VmModel, heap: HeapModel, instr: SharkyInstruction) -> PlainStepModel {
    let m = vm.memory;
    match instr {
        SharkyInstruction::PushNil => plain_push(vm, heap, DataModel::Nil),
        SharkyInstruction::PushReal(p) => match plain_param(m, p) {
            Some(v) => plain_push(vm, heap, DataModel::Real(v)),
            None => unchanged(vm, heap),
        },
        SharkyInstruction::PushMax(p) => match plain_param(m, p) {
            Some(v) => plain_push(vm, heap, DataModel::Max(v)),
            None => unchanged(vm, heap),
        },
        SharkyInstruction::PushInt(p) => match plain_param(m, p) {
            Some(v) => plain_push(vm, heap, DataModel::Int(v)),
            None => unchanged(vm, heap),
        },
        SharkyInstruction::PushByte(p) => match plain_param(m, p) {
            Some(v) => plain_push(vm, heap, DataModel::Byte(v)),
            None => unchanged(vm, heap),
        },
        SharkyInstruction::PushBool(p) => match plain_param(m, p) {
            Some(v) => plain_push(vm, heap, DataModel::Bool(v)),
            None => unchanged(vm, heap),
        },
        SharkyInstruction::PushHeapReference(p) => match plain_param(m, p) {
            Some(v) => plain_push(vm, heap, DataModel::HeapReference(v)),
            None => unchanged(vm, heap),
        },
        _ => unchanged(vm, heap),
    }
}

/// The converted value of an integer, if its kind converts (`to` 0: Int, 1: Max, 2: Byte).
pub open spec fn plain_conversion(v: DataModel, to: int) -> Option<DataModel> {
    if to == 0 {
        match v {
            DataModel::Max(x) => Some(DataModel::Int(x as i64)),
            DataModel::Byte(x) => Some(DataModel::Int(x as i64)),
            _ => None,
        }
    } else if to == 1 {
        match v {
            DataModel::Int(x) => Some(DataModel::Max(x as usize)),
            DataModel::Byte(x) => Some(DataModel::Max(x as usize)),
            _ => None,
        }
    } else {
        match v {
            DataModel::Max(x) => Some(DataModel::Byte(x as u8)),
            DataModel::Int(x) => Some(DataModel::Byte(x as u8)),
            _ => None,
        }
    }
}

/// Converts the value at a stack index of the stack that writes go to and
/// pushes the result there; a value of a kind that does not convert is left alone.
pub open spec fn plain_convert_step(vm: VmModel, heap: HeapModel, p: SharkyParameter<usize>, to: int) -> PlainStepModel {
    match (plain_param(vm.memory, p), vm.memory.active_stack_mut()) {
        (Some(i), Some(s)) => if i < s.len() {
            match plain_conversion(s[i as int], to) {
                Some(c) => with_mem(vm, heap, vm.memory.with_active_stack(s.push(c))),
                None => unchanged(vm, heap),
            }
        } else {
            unchanged(vm, heap)
        },
        _ => unchanged(vm, heap),
    }
}

/// The operator instructions.
pub open spec fn plain_operator_step(vm: VmModel, heap: HeapModel, instr: SharkyInstruction) -> PlainStepModel {
    match instr {
        SharkyInstruction::Add(a, b) => plain_arithmetic_step(vm, heap, a, b, ArithmeticMode::Add, SharkyRealOp::Add),
        SharkyInstruction::Subtract(a, b) => plain_arithmetic_step(vm, heap, a, b, ArithmeticMode::Subtract, SharkyRealOp::Subtract),
        SharkyInstruction::Multiply(a, b) => plain_arithmetic_step(vm, heap, a, b, ArithmeticMode::Multiply, SharkyRealOp::Multiply),
        SharkyInstruction::Divide(a, b) => plain_arithmetic_step(vm, heap, a, b, ArithmeticMode::Divide, SharkyRealOp::Divide),
        SharkyInstruction::Modulus(a, b) => plain_arithmetic_step(vm, heap, a, b, ArithmeticMode::Mod, SharkyRealOp::Mod),
        SharkyInstruction::BitLeftShift(a, b) => plain_bitwise_step(vm, heap, a, b, BitwiseMode::ShiftLeft),
        SharkyInstruction::BitRightShift(a, b) => plain_bitwise_step(vm, heap, a, b, BitwiseMode::ShiftRight),
        SharkyInstruction::BitAnd(a, b) => plain_bitwise_step(vm, heap, a, b, BitwiseMode::And),
        SharkyInstruction::BitXor(a, b) => plain_bitwise_step(vm, heap, a, b, BitwiseMode::Xor),
        SharkyInstruction::BitOr(a, b) => plain_bitwise_step(vm, heap, a, b, BitwiseMode::Or),
        SharkyInstruction::BitNot(a) => plain_bit_not_step(vm, heap, a),
        SharkyInstruction::Not(a) => plain_not_step(vm, heap, a),
        SharkyInstruction::And(a, b) => plain_boolean_step(vm, heap, a, b, true),
        SharkyInstruction::Or(a, b) => plain_boolean_step(vm, heap, a, b, false),
        SharkyInstruction::Equals(a, b) => plain_comparison_step(vm, heap, a, b, ComparisonMode::Equals, SharkyRealOp::Equals),
        SharkyInstruction::NotEquals(a, b) => plain_comparison_step(vm, heap, a, b, ComparisonMode::NotEquals, SharkyRealOp::NotEquals),
        SharkyInstruction::GreaterThan(a, b) => plain_comparison_step(vm, heap, a, b, ComparisonMode::GreaterThan, SharkyRealOp::GreaterThan),
        SharkyInstruction::LesserThan(a, b) => plain_comparison_step(vm, heap, a, b, ComparisonMode::LessThan, SharkyRealOp::LessThan),
        SharkyInstruction::GreaterThanOrEquals(a, b) => plain_comparison_step(vm, heap, a, b, ComparisonMode::GreaterThanOrEquals, SharkyRealOp::GreaterThanOrEquals),
        SharkyInstruction::LesserThanOrEquals(a, b) => plain_comparison_step(vm, heap, a, b, ComparisonMode::LessThanOrEquals, SharkyRealOp::LessThanOrEquals),
        _ => unchanged(vm, heap),
    }
}

/// The jump instructions. `JumpIfNot(to, c)` jumps when the value at stack
/// index `c` is false; `PopJumpIfNot(to)` pops the top of the stack when it
/// is false, and then jumps.
pub open spec fn plain_logic_step(vm: VmModel, heap: HeapModel, instr: SharkyInstruction) -> PlainStepModel {
    match instr {
        SharkyInstruction::Jump(p) => match plain_param(vm.memory, p) {
            Some(to) => (VmModel { program_counter: to, ..vm }, heap, Some(ActionModel::Continue)),
            None => unchanged(vm, heap),
        },
        SharkyInstruction::JumpIfNot(a, b) => match (plain_param(vm.memory, a), plain_param(vm.memory, b)) {
            (Some(to), Some(c)) => match vm.memory.active_stack_mut() {
                Some(s) => if c < s.len() {
                    match s[c as int] {
                        DataModel::Bool(x) => if !x {
                            (VmModel { program_counter: to, ..vm }, heap, Some(ActionModel::Continue))
                        } else {
                            unchanged(vm, heap)
                        },
                        _ => unchanged(vm, heap),
                    }
                } else {
                    unchanged(vm, heap)
                },
                None => unchanged(vm, heap),
            },
            _ => unchanged(vm, heap),
        },
        SharkyInstruction::PopJumpIfNot(p) => match (plain_param(vm.memory, p), vm.memory.active_stack_mut()) {
            (Some(to), Some(s)) => if s.len() > 0 && s.last() == DataModel::Bool(false) {
                (
                    VmModel { program_counter: to, memory: vm.memory.with_active_stack(s.drop_last()), ..vm },
                    heap,
                    Some(ActionModel::Continue),
                )
            } else {
                unchanged(vm, heap)
            },
            _ => unchanged(vm, heap),
        },
        _ => unchanged(vm, heap),
    }
}

/// The heap instructions; `fresh` is the index the heap gives its next new frame.
pub open spec fn plain_heap_step(vm: VmModel, heap: HeapModel, instr: SharkyInstruction, fresh: usize) -> PlainStepModel {
    let sel = vm.selected_frame;
    match instr {
        SharkyInstruction::CreateHeap => {
            let h = HeapModel {
                frames: heap.frames.insert(fresh, Seq::empty()),
                allocation_count: (heap.allocation_count + 1) as usize,
            };
            plain_push(vm, h, DataModel::HeapReference(fresh))
        },
        SharkyInstruction::SelectHeap(p) => match plain_param(vm.memory, p) {
            Some(i) => (VmModel { selected_frame: i, ..vm }, heap, Some(ActionModel::Continue)),
            None => unchanged(vm, heap),
        },
        SharkyInstruction::PushHeap => if heap.frames.dom().contains(sel) {
            unchanged(
                vm,
                HeapModel { frames: heap.frames.insert(sel, heap.frames[sel].push(DataModel::Nil)), ..heap },
            )
        } else {
            unchanged(vm, heap)
        },
        SharkyInstruction::WriteHeap(a, b) => match (plain_param(vm.memory, a), plain_param(vm.memory, b), vm.memory.active_stack()) {
            (Some(dest), Some(src), Some(s)) => if src < s.len() && heap.frames.dom().contains(sel) {
                unchanged(
                    vm,
                    HeapModel { frames: heap.frames.insert(sel, set_in(heap.frames[sel], dest, s[src as int])), ..heap },
                )
            } else {
                unchanged(vm, heap)
            },
            _ => unchanged(vm, heap),
        },
        SharkyInstruction::ReadHeap(a, b) => match (plain_param(vm.memory, a), plain_param(vm.memory, b)) {
            (Some(dest), Some(src)) => if heap.frames.dom().contains(sel) && src < heap.frames[sel].len() {
                match vm.memory.active_stack_mut() {
                    Some(s) => with_mem(vm, heap, vm.memory.with_active_stack(set_in(s, dest, heap.frames[sel][src as int]))),
                    None => unchanged(vm, heap),
                }
            } else {
                unchanged(vm, heap)
            },
            _ => unchanged(vm, heap),
        },
        SharkyInstruction::CloneHeap => if heap.frames.dom().contains(sel) {
            let h = HeapModel {
                frames: heap.frames.insert(fresh, heap.frames[sel]),
                allocation_count: (heap.allocation_count + 1) as usize,
            };
            plain_push(vm, h, DataModel::HeapReference(fresh))
        } else {
            unchanged(vm, heap)
        },
        SharkyInstruction::SizeHeap => if heap.frames.dom().contains(sel) {
            plain_push(vm, heap, DataModel::Max(heap.frames[sel].len() as usize))
        } else {
            unchanged(vm, heap)
        },
        _ => unchanged(vm, heap),
    }
}

/// The task and foreign-call instructions.
pub open spec fn plain_task_step(vm: VmModel, heap: HeapModel, instr: SharkyInstruction) -> PlainStepModel {
    match instr {
        SharkyInstruction::SpawnSubtask(p) => match plain_param(vm.memory, p) {
            Some(pc) => (vm, heap, Some(ActionModel::SpawnSubtask(subvm(vm, pc)))),
            None => unchanged(vm, heap),
        },
        SharkyInstruction::KillSelf => (VmModel { running: false, ..vm }, heap, Some(ActionModel::Continue)),
        SharkyInstruction::FFICall(p) => match plain_param(vm.memory, p) {
            Some(f) => if f < vm.ffi_function_count {
                (vm, heap, Some(ActionModel::FFICall(f)))
            } else {
                unchanged(vm, heap)
            },
            None => unchanged(vm, heap),
        },
        _ => unchanged(vm, heap),
    }
}

/// Which group of instructions `instr` belongs to.
pub open spec fn plain_execute(vm: VmModel, heap: HeapModel, instr: SharkyInstruction, fresh: usize) -> PlainStepModel {
    match instr {
        SharkyInstruction::SetStackMode(_) | SharkyInstruction::SelectLocalStack(_)
        | SharkyInstruction::PushLocalStack | SharkyInstruction::PopLocalStack
        | SharkyInstruction::PushTransition(_) | SharkyInstruction::CopyTransition(_)
        | SharkyInstruction::Copy(_) | SharkyInstruction::Nilify(_) | SharkyInstruction::Assign(_, _)
        | SharkyInstruction::Pop | SharkyInstruction::Clear => plain_stack_step(vm, heap, instr),
        SharkyInstruction::PushNil | SharkyInstruction::PushReal(_) | SharkyInstruction::PushMax(_)
        | SharkyInstruction::PushInt(_) | SharkyInstruction::PushByte(_) | SharkyInstruction::PushBool(_)
        | SharkyInstruction::PushHeapReference(_) => plain_constant_step(vm, heap, instr),
        SharkyInstruction::ToInt(p) => plain_convert_step(vm, heap, p, 0),
        SharkyInstruction::ToMax(p) => plain_convert_step(vm, heap, p, 1),
        SharkyInstruction::ToByte(p) => plain_convert_step(vm, heap, p, 2),
        SharkyInstruction::Jump(_) | SharkyInstruction::JumpIfNot(_, _) | SharkyInstruction::PopJumpIfNot(_) => plain_logic_step(vm, heap, instr),
        SharkyInstruction::CreateHeap | SharkyInstruction::SelectHeap(_) | SharkyInstruction::PushHeap
        | SharkyInstruction::WriteHeap(_, _) | SharkyInstruction::ReadHeap(_, _)
        | SharkyInstruction::CloneHeap | SharkyInstruction::SizeHeap => plain_heap_step(vm, heap, instr, fresh),
        SharkyInstruction::SpawnSubtask(_) | SharkyInstruction::KillSelf | SharkyInstruction::FFICall(_) => plain_task_step(vm, heap, instr),
        SharkyInstruction::NoOperation => unchanged(vm, heap),
        _ => plain_operator_step(vm, heap, instr),
    }
}

/// One step: nothing when stopped; `None` past the end of the program;
/// otherwise the current instruction and, unless it handed a floating-point
/// operation to the host, on to the next instruction.
pub open spec fn plain_step(vm: VmModel, program: Seq<SharkyInstruction>, heap: HeapModel, fresh: usize) -> PlainStepModel {
    if !vm.running {
        unchanged(vm, heap)
    } else if vm.program_counter >= program.len() {
        (vm, heap, None)
    } else {
        let (v, h, a) = plain_execute(vm, heap, program[vm.program_counter as int], fresh);
        match a {
            Some(ActionModel::RealOp(op, x, y)) => (v, h, a),
            _ => (finish(v, vm.program_counter, program.len()), h, a),
        }
    }
}

/// Whether a step panics.
pub open spec fn plain_step_panics(vm: VmModel, program: Seq<SharkyInstruction>, heap: HeapModel) -> bool {
    &&& vm.running
    &&& vm.program_counter < program.len()
    &&& {
        let instr = program[vm.program_counter as int];
        plain_operator_panics(vm, instr) || plain_heap_panics(vm, heap, instr)
    }
}


// Which instructions complete and which stop short for want of an operand,
// a stack, a frame or a cell. Stopping short has no further effect.

/// Whether a stack instruction finds its operands and stack.
pub open spec fn plain_stack_ok(vm: VmModel, instr: SharkyInstruction) -> bool {
    let m = vm.memory;
    match instr {
        SharkyInstruction::SelectLocalStack(p) => plain_param(m, p) is Some,
        SharkyInstruction::PushTransition(p) => match (plain_param(m, p), m.active_stack()) {
            (Some(i), Some(s)) => i < s.len(),
            _ => false,
        },
        SharkyInstruction::CopyTransition(p) => match plain_param(m, p) {
            Some(i) => i < m.transitional_stack.len() && m.active_stack_mut() is Some,
            None => false,
        },
        SharkyInstruction::Copy(p) => match (plain_param(m, p), m.active_stack_mut()) {
            (Some(i), Some(s)) => i < s.len(),
            _ => false,
        },
        SharkyInstruction::Nilify(p) => plain_param(m, p) is Some && m.active_stack_mut() is Some,
        SharkyInstruction::Assign(a, b) => match (plain_param(m, a), plain_param(m, b), m.active_stack_mut()) {
            (Some(_), Some(j), Some(s)) => j < s.len(),
            _ => false,
        },
        SharkyInstruction::Pop | SharkyInstruction::Clear => m.active_stack_mut() is Some,
        _ => true,
    }
}

/// Whether an instruction that pushes a constant finds its operand and stack.
pub open spec fn plain_constant_ok(vm: VmModel, instr: SharkyInstruction) -> bool {
    let m = vm.memory;
    let has_stack = m.active_stack_mut() is Some;
    match instr {
        SharkyInstruction::PushNil => has_stack,
        SharkyInstruction::PushReal(p) => plain_param(m, p) is Some && has_stack,
        SharkyInstruction::PushMax(p) => plain_param(m, p) is Some && has_stack,
        SharkyInstruction::PushInt(p) => plain_param(m, p) is Some && has_stack,
        SharkyInstruction::PushByte(p) => plain_param(m, p) is Some && has_stack,
        SharkyInstruction::PushBool(p) => plain_param(m, p) is Some && has_stack,
        SharkyInstruction::PushHeapReference(p) => plain_param(m, p) is Some && has_stack,
        _ => true,
    }
}

/// Whether a conversion finds the value it converts (a value of a kind that
/// does not convert still counts).
pub open spec fn plain_convert_ok(vm: VmModel, p: SharkyParameter<usize>) -> bool {
    match (plain_param(vm.memory, p), vm.memory.active_stack_mut()) {
        (Some(i), Some(s)) => i < s.len(),
        _ => false,
    }
}

/// Whether a conversion instruction finds the value it converts.
pub open spec fn plain_conversion_ok(vm: VmModel, instr: SharkyInstruction) -> bool {
    match instr {
        SharkyInstruction::ToInt(p) | SharkyInstruction::ToMax(p) | SharkyInstruction::ToByte(p) => plain_convert_ok(vm, p),
        _ => true,
    }
}

/// Whether a jump instruction finds its operands (and, for `JumpIfNot`, the
/// cell it tests).
pub open spec fn plain_logic_ok(vm: VmModel, instr: SharkyInstruction) -> bool {
    let m = vm.memory;
    match instr {
        SharkyInstruction::Jump(p) => plain_param(m, p) is Some,
        SharkyInstruction::JumpIfNot(a, b) => match (plain_param(m, a), plain_param(m, b), m.active_stack_mut()) {
            (Some(_), Some(c), Some(s)) => c < s.len(),
            _ => false,
        },
        SharkyInstruction::PopJumpIfNot(p) => plain_param(m, p) is Some,
        _ => true,
    }
}

/// Whether a heap instruction finds its operands, stack, frame and cell.
pub open spec fn plain_heap_ok(vm: VmModel, heap: HeapModel, instr: SharkyInstruction) -> bool {
    let m = vm.memory;
    let sel = vm.selected_frame;
    let has_stack = m.active_stack_mut() is Some;
    match instr {
        SharkyInstruction::CreateHeap => has_stack,
        SharkyInstruction::SelectHeap(p) => plain_param(m, p) is Some,
        SharkyInstruction::WriteHeap(a, b) => match (plain_param(m, a), plain_param(m, b), m.active_stack()) {
            (Some(_), Some(src), Some(s)) => src < s.len(),
            _ => false,
        },
        SharkyInstruction::ReadHeap(a, b) => match (plain_param(m, a), plain_param(m, b)) {
            (Some(_), Some(src)) => heap.frames.dom().contains(sel) && src < heap.frames[sel].len() && has_stack,
            _ => false,
        },
        SharkyInstruction::CloneHeap | SharkyInstruction::SizeHeap => heap.frames.dom().contains(sel) && has_stack,
        _ => true,
    }
}

} // verus!
