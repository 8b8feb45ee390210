use vstd::prelude::*;

use crate::instructions::{
    ArithmeticMode, BitwiseMode, ComparisonMode, ConversionMode, LogicMode, OpParameterModel, SharkyInstruction,
};
use crate::sharky_data_types::{DataModel, SharkyInstruction as PlainInstruction, SharkyParameter};
use crate::sharky_memory::HeapModel;
use crate::sharky_vm_semantics::{plain_arithmetic, plain_bitwise, plain_comparison, plain_step};
use crate::value_ops::{
    gives_byte, gives_max, law_bitwise_relations,
    spec_to_bool, spec_to_byte, spec_to_heap_reference, spec_to_int, spec_to_max, spec_try_add,
    spec_try_bitwise_and, spec_try_bitwise_not, spec_try_bitwise_or, spec_try_bitwise_xor,
    spec_try_divide, spec_try_mod, spec_try_multiply, spec_try_shift_left, spec_try_shift_right,
    spec_try_subtract,
};
use crate::vm::SharkyInterrupt;
use crate::vm_semantics::{step, ActionModel, VmModel};

verus! {

// What single instructions do, stated over their operands and results.

/// Whether `vm` is about to run an instruction of `program` that is not its last
/// possible one (so that moving on does not overflow the counter).
pub open spec fn about_to_run<I>(vm: VmModel, program: Seq<I>) -> bool {
    &&& vm.running
    &&& vm.program_counter < program.len()
    &&& program.len() <= usize::MAX
}

/// A `Goto` with a constant target goes there, and a jump to the
/// instruction itself moves on; nothing else changes.
pub proof fn law_goto(vm: VmModel, program: Seq<SharkyInstruction>, heap: HeapModel, fresh: usize, to: usize)
    requires
        about_to_run(vm, program),
        program[vm.program_counter as int] matches SharkyInstruction::Goto(t) && t@ == OpParameterModel::Constant(DataModel::Max(to)),
    ensures
        step(vm, program, heap, fresh).2 == Ok::<ActionModel, SharkyInterrupt>(ActionModel::Continue),
        step(vm, program, heap, fresh).0.program_counter == if to != vm.program_counter {
            to as int
        } else {
            vm.program_counter + 1
        },
        step(vm, program, heap, fresh).0.memory == vm.memory,
        step(vm, program, heap, fresh).1 == heap,
{
}

/// A conditional jump with a constant target and condition jumps exactly
/// when `If` finds the condition true or `IfNot` finds it false; otherwise,
/// or on a jump to the instruction itself, it moves on. Nothing else changes.
pub proof fn law_logical_goto(
    vm: VmModel,
    program: Seq<SharkyInstruction>,
    heap: HeapModel,
    fresh: usize,
    to: usize,
    condition: bool,
    mode: LogicMode,
)
    requires
        about_to_run(vm, program),
        program[vm.program_counter as int] matches SharkyInstruction::LogicalGoto(t, c, m) && t@
            == OpParameterModel::Constant(DataModel::Max(to)) && c@ == OpParameterModel::Constant(
            DataModel::Bool(condition),
        ) && m == mode,
    ensures
        step(vm, program, heap, fresh).2 == Ok::<ActionModel, SharkyInterrupt>(ActionModel::Continue),
        step(vm, program, heap, fresh).0.program_counter == if ((mode == LogicMode::If && condition)
            || (mode == LogicMode::IfNot && !condition)) && to != vm.program_counter {
            to as int
        } else {
            vm.program_counter + 1
        },
        step(vm, program, heap, fresh).0.memory == vm.memory,
        step(vm, program, heap, fresh).1 == heap,
{
}

/// An arithmetic instruction on two constants that are not reals pushes
/// the sum, difference, product, quotient or remainder (as `try_add` and
/// the others give it) onto the operational stack and moves on, or, where
/// there is none, interrupts with `InvalidOp` and changes nothing.
pub proof fn law_arithmetic_step(
    vm: VmModel,
    program: Seq<SharkyInstruction>,
    heap: HeapModel,
    fresh: usize,
    lhs: DataModel,
    rhs: DataModel,
    mode: ArithmeticMode,
)
    requires
        about_to_run(vm, program),
        program[vm.program_counter as int] matches SharkyInstruction::ArithmeticOp(a, b, m) && a@
            == OpParameterModel::Constant(lhs) && b@ == OpParameterModel::Constant(rhs) && m == mode,
        !(lhs is Real),
        !(rhs is Real),
    ensures
        ({
            let result = match mode {
                ArithmeticMode::Add => spec_try_add(lhs, rhs),
                ArithmeticMode::Subtract => spec_try_subtract(lhs, rhs),
                ArithmeticMode::Multiply => spec_try_multiply(lhs, rhs),
                ArithmeticMode::Divide => spec_try_divide(lhs, rhs),
                ArithmeticMode::Mod => spec_try_mod(lhs, rhs),
            };
            let (v, h, r) = step(vm, program, heap, fresh);
            &&& h == heap
            &&& result matches Some(x) ==> {
                &&& r == Ok::<ActionModel, SharkyInterrupt>(ActionModel::Continue)
                &&& v.memory.operational_stack == vm.memory.operational_stack.push(x)
                &&& v.program_counter == vm.program_counter + 1
            }
            &&& result is None ==> r == Err::<ActionModel, SharkyInterrupt>(SharkyInterrupt::InvalidOp)
                && v == vm
        }),
{
}

/// A comparison of two constant integers pushes whether the relation holds
/// onto the operational stack and moves on.
pub proof fn law_integer_comparison_step(
    vm: VmModel,
    program: Seq<SharkyInstruction>,
    heap: HeapModel,
    fresh: usize,
    x: i64,
    y: i64,
    mode: ComparisonMode,
)
    requires
        about_to_run(vm, program),
        program[vm.program_counter as int] matches SharkyInstruction::ComparisonOp(a, b, m) && a@
            == OpParameterModel::Constant(DataModel::Int(x)) && b@ == OpParameterModel::Constant(
            DataModel::Int(y),
        ) && m == mode,
        mode != ComparisonMode::And,
        mode != ComparisonMode::Or,
    ensures
        ({
            let holds = match mode {
                ComparisonMode::Equals => x == y,
                ComparisonMode::NotEquals => x != y,
                ComparisonMode::GreaterThan => x > y,
                ComparisonMode::LessThan => x < y,
                ComparisonMode::GreaterThanOrEquals => x >= y,
                _ => x <= y,
            };
            let (v, h, r) = step(vm, program, heap, fresh);
            &&& r == Ok::<ActionModel, SharkyInterrupt>(ActionModel::Continue)
            &&& v.memory.operational_stack == vm.memory.operational_stack.push(DataModel::Bool(holds))
            &&& v.program_counter == vm.program_counter + 1
            &&& h == heap
        }),
{
}

/// On the machine addressed through `SharkyParameter`, a comparison of two
/// values of the same integer kind gives whether the relation holds.
pub proof fn law_plain_integer_comparisons(a: DataModel, b: DataModel)
    ensures
        (a, b) matches (DataModel::Int(x), DataModel::Int(y)) ==> {
            &&& plain_comparison(ComparisonMode::Equals, a, b) == DataModel::Bool(x == y)
            &&& plain_comparison(ComparisonMode::NotEquals, a, b) == DataModel::Bool(x != y)
            &&& plain_comparison(ComparisonMode::GreaterThan, a, b) == DataModel::Bool(x > y)
            &&& plain_comparison(ComparisonMode::LessThan, a, b) == DataModel::Bool(x < y)
            &&& plain_comparison(ComparisonMode::GreaterThanOrEquals, a, b) == DataModel::Bool(x >= y)
            &&& plain_comparison(ComparisonMode::LessThanOrEquals, a, b) == DataModel::Bool(x <= y)
        },
        (a, b) matches (DataModel::Max(x), DataModel::Max(y)) ==> {
            &&& plain_comparison(ComparisonMode::Equals, a, b) == DataModel::Bool(x == y)
            &&& plain_comparison(ComparisonMode::NotEquals, a, b) == DataModel::Bool(x != y)
            &&& plain_comparison(ComparisonMode::GreaterThan, a, b) == DataModel::Bool(x > y)
            &&& plain_comparison(ComparisonMode::LessThan, a, b) == DataModel::Bool(x < y)
            &&& plain_comparison(ComparisonMode::GreaterThanOrEquals, a, b) == DataModel::Bool(x >= y)
            &&& plain_comparison(ComparisonMode::LessThanOrEquals, a, b) == DataModel::Bool(x <= y)
        },
        (a, b) matches (DataModel::Byte(x), DataModel::Byte(y)) ==> {
            &&& plain_comparison(ComparisonMode::Equals, a, b) == DataModel::Bool(x == y)
            &&& plain_comparison(ComparisonMode::NotEquals, a, b) == DataModel::Bool(x != y)
            &&& plain_comparison(ComparisonMode::GreaterThan, a, b) == DataModel::Bool(x > y)
            &&& plain_comparison(ComparisonMode::LessThan, a, b) == DataModel::Bool(x < y)
            &&& plain_comparison(ComparisonMode::GreaterThanOrEquals, a, b) == DataModel::Bool(x >= y)
            &&& plain_comparison(ComparisonMode::LessThanOrEquals, a, b) == DataModel::Bool(x <= y)
        },
{
}

/// On the machine addressed through `SharkyParameter`, arithmetic on two
/// integers gives the mathematical sum, difference and product where it
/// fits in 64 bits (and nothing, which panics, where it does not).
pub proof fn law_plain_integer_arithmetic(x: i64, y: i64)
    ensures
        i64::MIN <= x + y <= i64::MAX ==> (plain_arithmetic(ArithmeticMode::Add, DataModel::Int(x), DataModel::Int(y))
            matches Some(DataModel::Int(z)) && z == x + y),
        i64::MIN <= x - y <= i64::MAX ==> (plain_arithmetic(ArithmeticMode::Subtract, DataModel::Int(x), DataModel::Int(y))
            matches Some(DataModel::Int(z)) && z == x - y),
        i64::MIN <= x * y <= i64::MAX ==> (plain_arithmetic(ArithmeticMode::Multiply, DataModel::Int(x), DataModel::Int(y))
            matches Some(DataModel::Int(z)) && z == x * y),
        !(i64::MIN <= x + y <= i64::MAX) ==> plain_arithmetic(ArithmeticMode::Add, DataModel::Int(x), DataModel::Int(y)) is None,
        y == 0 ==> plain_arithmetic(ArithmeticMode::Divide, DataModel::Int(x), DataModel::Int(y)) is None,
{
}

/// On the machine addressed through `SharkyParameter`, a comparison of two
/// integers at constant indexes of the operational stack pushes whether the
/// relation holds and moves on.
pub proof fn law_plain_comparison_step(
    vm: VmModel,
    program: Seq<PlainInstruction>,
    heap: HeapModel,
    fresh: usize,
    i: usize,
    j: usize,
)
    requires
        about_to_run(vm, program),
        i < vm.memory.operational_stack.len(),
        j < vm.memory.operational_stack.len(),
        vm.memory.operational_stack[i as int] matches DataModel::Int(_),
        vm.memory.operational_stack[j as int] matches DataModel::Int(_),
    ensures
        ({
            let ops = vm.memory.operational_stack;
            let (x, y) = (ops[i as int]->Int_0, ops[j as int]->Int_0);
            let instr = program[vm.program_counter as int];
            let (v, h, r) = plain_step(vm, program, heap, fresh);
            let (ci, cj) = (SharkyParameter::Constant(i), SharkyParameter::Constant(j));
            let pushes = |b: bool| r == Some(ActionModel::Continue) && h == heap
                && v.memory.operational_stack == ops.push(DataModel::Bool(b))
                && v.program_counter == vm.program_counter + 1;
            &&& instr == PlainInstruction::Equals(ci, cj) ==> pushes(x == y)
            &&& instr == PlainInstruction::NotEquals(ci, cj) ==> pushes(x != y)
            &&& instr == PlainInstruction::GreaterThan(ci, cj) ==> pushes(x > y)
            &&& instr == PlainInstruction::LesserThan(ci, cj) ==> pushes(x < y)
            &&& instr == PlainInstruction::GreaterThanOrEquals(ci, cj) ==> pushes(x >= y)
            &&& instr == PlainInstruction::LesserThanOrEquals(ci, cj) ==> pushes(x <= y)
        }),
{
}

/// A conversion of a constant that is not a real to an index, an integer, a
/// byte, a boolean or a heap reference pushes the converted value (as
/// `to_max` and the others give it) onto the stack that writes go to and
/// moves on, or, where it does not convert, interrupts with `TypeMismatch`
/// and changes nothing.
pub proof fn law_convert_step(
    vm: VmModel,
    program: Seq<SharkyInstruction>,
    heap: HeapModel,
    fresh: usize,
    value: DataModel,
    mode: ConversionMode,
)
    requires
        about_to_run(vm, program),
        program[vm.program_counter as int] matches SharkyInstruction::Convert(p, m) && p@
            == OpParameterModel::Constant(value) && m == mode,
        !(value is Real),
        mode == ConversionMode::Max || mode == ConversionMode::Int || mode == ConversionMode::Byte
            || mode == ConversionMode::Bool || mode == ConversionMode::HeapReference,
        vm.memory.active_stack_mut() is Some,
    ensures
        ({
            let converted = match mode {
                ConversionMode::Max => spec_to_max(value),
                ConversionMode::Int => spec_to_int(value),
                ConversionMode::Byte => spec_to_byte(value),
                ConversionMode::Bool => spec_to_bool(value),
                _ => spec_to_heap_reference(value),
            };
            let s = vm.memory.active_stack_mut()->0;
            let (v, h, r) = step(vm, program, heap, fresh);
            &&& h == heap
            &&& converted matches Some(c) ==> {
                &&& r == Ok::<ActionModel, SharkyInterrupt>(ActionModel::Continue)
                &&& v.memory.active_stack_mut() == Some(s.push(c))
                &&& v.program_counter == vm.program_counter + 1
            }
            &&& converted is None ==> r == Err::<ActionModel, SharkyInterrupt>(SharkyInterrupt::TypeMismatch)
                && v == vm
        }),
{
}

/// `NotBool` of a constant boolean pushes its negation onto the stack that
/// writes go to and moves on.
pub proof fn law_not_bool_step(
    vm: VmModel,
    program: Seq<SharkyInstruction>,
    heap: HeapModel,
    fresh: usize,
    b: bool,
)
    requires
        about_to_run(vm, program),
        program[vm.program_counter as int] matches SharkyInstruction::NotBool(p) && p@
            == OpParameterModel::Constant(DataModel::Bool(b)),
        vm.memory.active_stack_mut() is Some,
    ensures
        ({
            let s = vm.memory.active_stack_mut()->0;
            let (v, h, r) = step(vm, program, heap, fresh);
            &&& r == Ok::<ActionModel, SharkyInterrupt>(ActionModel::Continue)
            &&& v.memory.active_stack_mut() == Some(s.push(DataModel::Bool(!b)))
            &&& v.program_counter == vm.program_counter + 1
            &&& h == heap
        }),
{
}

/// A bitwise instruction on two constants pushes the shift, `and`, `or`,
/// `xor` or (of the first) `not` (as `try_shift_left` and the others give
/// it) onto the operational stack and moves on, or, where there is none,
/// interrupts with `InvalidOp` and changes nothing.
pub proof fn law_bitwise_step(
    vm: VmModel,
    program: Seq<SharkyInstruction>,
    heap: HeapModel,
    fresh: usize,
    lhs: DataModel,
    rhs: DataModel,
    mode: BitwiseMode,
)
    requires
        about_to_run(vm, program),
        program[vm.program_counter as int] matches SharkyInstruction::BitwiseOp(a, b, m) && a@
            == OpParameterModel::Constant(lhs) && b@ == OpParameterModel::Constant(rhs) && m == mode,
    ensures
        ({
            let result = match mode {
                BitwiseMode::ShiftLeft => spec_try_shift_left(lhs, rhs),
                BitwiseMode::ShiftRight => spec_try_shift_right(lhs, rhs),
                BitwiseMode::And => spec_try_bitwise_and(lhs, rhs),
                BitwiseMode::Or => spec_try_bitwise_or(lhs, rhs),
                BitwiseMode::Xor => spec_try_bitwise_xor(lhs, rhs),
                BitwiseMode::Not => spec_try_bitwise_not(lhs),
            };
            let (v, h, r) = step(vm, program, heap, fresh);
            &&& h == heap
            &&& result matches Some(x) ==> {
                &&& r == Ok::<ActionModel, SharkyInterrupt>(ActionModel::Continue)
                &&& v.memory.operational_stack == vm.memory.operational_stack.push(x)
                &&& v.program_counter == vm.program_counter + 1
            }
            &&& result is None ==> r == Err::<ActionModel, SharkyInterrupt>(SharkyInterrupt::InvalidOp)
                && v == vm
        }),
{
}

/// On the machine addressed through `SharkyParameter`, arithmetic on two
/// indexes or two bytes gives the mathematical result where it fits the kind
/// (and nothing, which panics, where it does not or on division by zero).
pub proof fn law_plain_unsigned_arithmetic(x: usize, y: usize, p: u8, q: u8)
    ensures
        gives_max(plain_arithmetic(ArithmeticMode::Add, DataModel::Max(x), DataModel::Max(y)), x + y),
        gives_max(plain_arithmetic(ArithmeticMode::Subtract, DataModel::Max(x), DataModel::Max(y)), x - y),
        gives_max(plain_arithmetic(ArithmeticMode::Multiply, DataModel::Max(x), DataModel::Max(y)), x * y),
        y != 0 ==> gives_max(plain_arithmetic(ArithmeticMode::Divide, DataModel::Max(x), DataModel::Max(y)), x as int / y as int),
        y != 0 ==> gives_max(plain_arithmetic(ArithmeticMode::Mod, DataModel::Max(x), DataModel::Max(y)), x as int % y as int),
        gives_byte(plain_arithmetic(ArithmeticMode::Add, DataModel::Byte(p), DataModel::Byte(q)), p + q),
        gives_byte(plain_arithmetic(ArithmeticMode::Subtract, DataModel::Byte(p), DataModel::Byte(q)), p - q),
        gives_byte(plain_arithmetic(ArithmeticMode::Multiply, DataModel::Byte(p), DataModel::Byte(q)), p * q),
        q != 0 ==> gives_byte(plain_arithmetic(ArithmeticMode::Divide, DataModel::Byte(p), DataModel::Byte(q)), p as int / q as int),
        q != 0 ==> gives_byte(plain_arithmetic(ArithmeticMode::Mod, DataModel::Byte(p), DataModel::Byte(q)), p as int % q as int),
{
}

/// On the machine addressed through `SharkyParameter`, bitwise `and`, `or`
/// and `xor` of two bytes relate as bits do: `and` plus `or` is the sum of
/// the operands, `xor` is `or` minus `and`, and `and` is at most either one.
pub proof fn law_plain_byte_bitwise(x: u8, y: u8)
    ensures
        (
            plain_bitwise(BitwiseMode::And, DataModel::Byte(x), DataModel::Byte(y)),
            plain_bitwise(BitwiseMode::Or, DataModel::Byte(x), DataModel::Byte(y)),
            plain_bitwise(BitwiseMode::Xor, DataModel::Byte(x), DataModel::Byte(y)),
        ) matches (Some(DataModel::Byte(a)), Some(DataModel::Byte(o)), Some(DataModel::Byte(e)))
            && a + o == x + y && e == o - a && a <= x && a <= y,
{
    law_bitwise_relations(DataModel::Byte(x), DataModel::Byte(y));
}

} // verus!
