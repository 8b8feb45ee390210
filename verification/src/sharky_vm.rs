use vstd::prelude::*;

use std::sync::Arc;

use crate::instructions::{ArithmeticMode, BitwiseMode, ComparisonMode};
use crate::sharky_data_types::{
    DataModel, SharkyDataType, SharkyHeapFrameIndex, SharkyInstruction, SharkyParameter,
    SharkyProgram, SharkyValue,
};
use crate::sharky_memory::{data_model, HeapModel, SharkyHeap, SharkyMemoryLayout};
use crate::sharky_vm_semantics::{
    compare_ints, plain_arithmetic, plain_arithmetic_step, plain_bit_not_step, plain_bitwise,
    plain_bitwise_step, plain_boolean_step, plain_comparison, plain_comparison_step,
    plain_constant_step, plain_conversion, plain_convert_step, plain_execute, plain_heap_panics,
    plain_heap_step, plain_logic_step, plain_not_step, plain_operands, plain_operator_panics,
    plain_operator_step, plain_param, plain_push, plain_stack_step, plain_step,
    plain_step_panics, plain_task_step, set_in, plain_stack_ok, plain_constant_ok, plain_convert_ok,
    plain_conversion_ok, plain_logic_ok, plain_heap_ok,
};
use crate::vm::{SharkyRealOp, SharkyRealRequest};
use crate::vm_semantics::{finish, fresh_memory, push_operational, subvm, ActionModel, VmModel};

verus! {

/// What a step of a `SharkyVM` asks of the host after it returns.
pub enum SharkyStepAction {
    /// Nothing.
    Continue,
    /// Run this machine as a new task.
    SpawnSubtask(SharkyVM),
    /// Call this foreign function with the parameter stack.
    FFICall(usize),
    /// Compute this operation on two Reals and hand the result to `complete_real_op`.
    RealOp(SharkyRealRequest),
}

/// A machine that runs the instruction set addressed through
/// `SharkyParameter`; an instruction whose operand or stack is missing has
/// no further effect.
pub struct SharkyVM {
    memory: SharkyMemoryLayout,
    program_counter: usize,
    program_memory: Arc<SharkyProgram>,
    ffi_function_count: usize,
    selected_frame: usize,
    running: bool,
}

impl View for SharkyVM {
    type V = VmModel;

    closed spec fn view(&self) -> VmModel {
        VmModel {
            memory: self.memory@,
            program_counter: self.program_counter,
            selected_frame: self.selected_frame,
            running: self.running,
            ffi_function_count: self.ffi_function_count,
        }
    }
}

pub open spec fn step_action_model(a: SharkyStepAction) -> ActionModel {
    match a {
        SharkyStepAction::Continue => ActionModel::Continue,
        SharkyStepAction::SpawnSubtask(vm) => ActionModel::SpawnSubtask(vm@),
        SharkyStepAction::FFICall(f) => ActionModel::FFICall(f),
        SharkyStepAction::RealOp(req) => ActionModel::RealOp(req.op, req.lhs@, req.rhs@),
    }
}

pub open spec fn step_outcome_model(r: Option<SharkyStepAction>) -> Option<ActionModel> {
    match r {
        Some(a) => Some(step_action_model(a)),
        None => None,
    }
}

/// Whether a spawned machine, if any, runs `program`.
pub open spec fn spawns_program(a: SharkyStepAction, program: Seq<SharkyInstruction>) -> bool {
    a matches SharkyStepAction::SpawnSubtask(sub) ==> sub.program() == program
}

impl SharkyVM {
    /// The program the machine runs.
    pub closed spec fn program(&self) -> Seq<SharkyInstruction> {
        self.program_memory@
    }

    /// A running machine at the start of `program`, with fresh memory, that
    /// can call foreign functions `0..ffi_function_count`.
    pub fn new(program: Arc<SharkyProgram>, ffi_function_count: usize) -> (r: SharkyVM)
        ensures
            r.program() == program@,
            r.program().len() <= usize::MAX,
            r@ == (VmModel {
                memory: fresh_memory(),
                program_counter: 0,
                selected_frame: 0,
                running: true,
                ffi_function_count,
            }),
    {
        let _len: usize = program.len();
        let r = SharkyVM {
            memory: SharkyMemoryLayout::new(),
            program_counter: 0,
            program_memory: program,
            ffi_function_count,
            selected_frame: 0,
            running: true,
        };
        assert(r@.memory =~= fresh_memory());
        r
    }

    /// A new machine on the same program that starts at `program_counter`
    /// with a copy of this machine's parameter stack.
    pub fn new_subvm(&self, program_counter: usize) -> (r: SharkyVM)
        ensures
            r.program() == self.program(),
            r@ == subvm(self@, program_counter),
            r.program().len() <= usize::MAX,
    {
        let mut sub = Self::new(self.program_memory.clone(), self.ffi_function_count);
        sub.program_counter = program_counter;
        sub.memory.set_parameter_stack(self.memory.get_parameter_stack());
        assert(sub@.memory =~= subvm(self@, program_counter).memory);
        sub
    }

    /// Whether a stack of this machine holds a reference to heap frame `address`.
    pub fn has_reference(&self, address: SharkyHeapFrameIndex) -> (r: bool)
        ensures
            r == self@.memory.has_heap_ref(address),
    {
        self.memory.has_heap_ref(address)
    }

    pub fn get_program_counter(&self) -> (r: usize)
        ensures
            r == self@.program_counter,
    {
        self.program_counter
    }

    pub fn set_program_counter(&mut self, index: usize)
        ensures
            final(self)@ == (VmModel { program_counter: index, ..old(self)@ }),
            final(self).program() == old(self).program(),
    {
        self.program_counter = index;
    }

    pub fn get_memory(&self) -> (r: &SharkyMemoryLayout)
        ensures
            r@ == self@.memory,
    {
        &self.memory
    }

    pub fn is_running(&self) -> (r: bool)
        ensures
            r == self@.running,
    {
        self.running
    }

    /// The value an operand stands for.
    fn read_parameter<T: SharkyValue + Copy>(&self, parameter: &SharkyParameter<T>) -> (r: Option<T>)
        ensures
            r == plain_param(self@.memory, *parameter),
    {
        match parameter {
            SharkyParameter::Constant(val) => Some(*val),
            SharkyParameter::StackIndex(index) => {
                let stack = self.memory.get_active_stack()?;
                let value = stack.read(*index)?;
                T::from_data(value)
            },
            SharkyParameter::Empty => None,
        }
    }

    fn push_constant(&mut self, Ghost(h): Ghost<HeapModel>, value: SharkyDataType) -> (r: Option<()>)
        ensures
            final(self).program() == old(self).program(),
            (final(self)@, h, Some(ActionModel::Continue)) == plain_push(old(self)@, h, value@),
            r is Some <==> old(self)@.memory.active_stack_mut() is Some,
    {
        let ghost v = value@;
        let s = self.memory.get_active_stack_mut()?;
        let ghost s0 = s@;
        s.push(value);
        assert(data_model(s@) =~= data_model(s0).push(v));
        Some(())
    }

    fn interpret_stackops(&mut self, Ghost(h): Ghost<HeapModel>, op: &SharkyInstruction) -> (r: Option<()>)
        ensures
            final(self).program() == old(self).program(),
            (final(self)@, h, Some(ActionModel::Continue)) == plain_stack_step(old(self)@, h, *op),
            r is Some <==> plain_stack_ok(old(self)@, *op),
    {
        proof {
            if self@.memory.active_stack_mut() is Some {
                self@.memory.lemma_with_active_stack_unchanged();
            }
        }
        match op {
            SharkyInstruction::SetStackMode(mode) => self.memory.set_stack_mode(*mode),
            SharkyInstruction::SelectLocalStack(stack) => {
                let parameter = self.read_parameter(stack)?;
                self.memory.select_local_stack(parameter)
            },
            SharkyInstruction::PushLocalStack => self.memory.new_local_stack(),
            SharkyInstruction::PopLocalStack => self.memory.pop_local_stack(),
            SharkyInstruction::PushTransition(a) => {
                let param = self.read_parameter(a)?;
                let value = self.memory.get_active_stack()?.read(param)?.clone();
                let ghost v = value@;
                let t = self.memory.get_transitional_stack();
                let ghost t0 = t@;
                t.push(value);
                assert(data_model(t@) =~= data_model(t0).push(v));
            },
            SharkyInstruction::CopyTransition(a) => {
                let param = self.read_parameter(a)?;
                let value = self.memory.get_transitional_stack().read(param)?.clone();
                let ghost v = value@;
                let s = self.memory.get_active_stack_mut()?;
                let ghost s0 = s@;
                s.push(value);
                assert(data_model(s@) =~= data_model(s0).push(v));
            },
            SharkyInstruction::Copy(a) => {
                let param_a = self.read_parameter(a)?;
                let stack = self.memory.get_active_stack_mut()?;
                let data = stack.read(param_a)?.clone();
                let ghost s0 = stack@;
                let ghost v = data@;
                stack.push(data);
                assert(data_model(stack@) =~= data_model(s0).push(v));
            },
            SharkyInstruction::Nilify(a) => {
                let param_a = self.read_parameter(a)?;
                let stack = self.memory.get_active_stack_mut()?;
                let ghost s0 = stack@;
                stack.set(param_a, SharkyDataType::Nil);
                assert(data_model(stack@) =~= set_in(data_model(s0), param_a, DataModel::Nil));
            },
            SharkyInstruction::Assign(a, b) => {
                let param_a = self.read_parameter(a)?;
                let param_b = self.read_parameter(b)?;
                let stack = self.memory.get_active_stack_mut()?;
                let data = stack.read(param_b)?.clone();
                let ghost s0 = stack@;
                let ghost v = data@;
                stack.set(param_a, data);
                assert(data_model(stack@) =~= set_in(data_model(s0), param_a, v));
            },
            SharkyInstruction::Pop => {
                let stack = self.memory.get_active_stack_mut()?;
                let ghost s0 = stack@;
                stack.pop();
                assert(data_model(stack@) =~= (if data_model(s0).len() > 0 {
                    data_model(s0).drop_last()
                } else {
                    data_model(s0)
                }));
            },
            SharkyInstruction::Clear => {
                let stack = self.memory.get_active_stack_mut()?;
                stack.clear();
                assert(data_model(stack@) =~= Seq::<DataModel>::empty());
            },
            _ => {},
        }
        Some(())
    }

    fn interpret_constantops(&mut self, Ghost(h): Ghost<HeapModel>, op: &SharkyInstruction) -> (r: Option<()>)
        ensures
            final(self).program() == old(self).program(),
            (final(self)@, h, Some(ActionModel::Continue)) == plain_constant_step(old(self)@, h, *op),
            r is Some <==> plain_constant_ok(old(self)@, *op),
    {
        match op {
            SharkyInstruction::PushNil => self.push_constant(Ghost(h), SharkyDataType::Nil)?,
            SharkyInstruction::PushReal(v) => {
                let parameter = self.read_parameter(v)?;
                self.push_constant(Ghost(h), SharkyDataType::Real(parameter))?;
            },
            SharkyInstruction::PushMax(v) => {
                let parameter = self.read_parameter(v)?;
                self.push_constant(Ghost(h), SharkyDataType::Max(parameter))?;
            },
            SharkyInstruction::PushInt(v) => {
                let parameter = self.read_parameter(v)?;
                self.push_constant(Ghost(h), SharkyDataType::Int(parameter))?;
            },
            SharkyInstruction::PushByte(v) => {
                let parameter = self.read_parameter(v)?;
                self.push_constant(Ghost(h), SharkyDataType::Byte(parameter))?;
            },
            SharkyInstruction::PushBool(v) => {
                let parameter = self.read_parameter(v)?;
                self.push_constant(Ghost(h), SharkyDataType::Bool(parameter))?;
            },
            SharkyInstruction::PushHeapReference(v) => {
                let parameter = self.read_parameter(v)?;
                self.push_constant(Ghost(h), SharkyDataType::HeapReference(parameter))?;
            },
            _ => {},
        }
        Some(())
    }

    /// Converts the value at stack index `a` of the stack that writes go to
    /// (`to` 0: to Int, 1: to Max, 2: to Byte) and pushes the result there.
    fn convert_at(&mut self, Ghost(h): Ghost<HeapModel>, a: &SharkyParameter<usize>, to: u8) -> (r: Option<()>)
        requires
            to < 3,
        ensures
            final(self).program() == old(self).program(),
            (final(self)@, h, Some(ActionModel::Continue)) == plain_convert_step(old(self)@, h, *a, to as int),
            r is Some <==> plain_convert_ok(old(self)@, *a),
    {
        proof {
            if self@.memory.active_stack_mut() is Some {
                self@.memory.lemma_with_active_stack_unchanged();
            }
        }
        let param_a = self.read_parameter(a)?;
        let stack = self.memory.get_active_stack_mut()?;
        let data = stack.read(param_a)?;
        let converted = match (to, data) {
            (0, SharkyDataType::Max(v)) => SharkyDataType::Int(*v as i64),
            (0, SharkyDataType::Byte(v)) => SharkyDataType::Int(*v as i64),
            (1, SharkyDataType::Int(v)) => SharkyDataType::Max(*v as usize),
            (1, SharkyDataType::Byte(v)) => SharkyDataType::Max(*v as usize),
            (2, SharkyDataType::Max(v)) => SharkyDataType::Byte(*v as u8),
            (2, SharkyDataType::Int(v)) => SharkyDataType::Byte(*v as u8),
            _ => return Some(()),
        };
        let ghost s0 = stack@;
        let ghost c = converted@;
        stack.push(converted);
        assert(data_model(stack@) =~= data_model(s0).push(c));
        Some(())
    }

    fn interpret_conversionops(&mut self, Ghost(h): Ghost<HeapModel>, op: &SharkyInstruction) -> (r: Option<()>)
        ensures
            final(self).program() == old(self).program(),
            (final(self)@, h, Some(ActionModel::Continue)) == (match *op {
                SharkyInstruction::ToInt(p) => plain_convert_step(old(self)@, h, p, 0),
                SharkyInstruction::ToMax(p) => plain_convert_step(old(self)@, h, p, 1),
                SharkyInstruction::ToByte(p) => plain_convert_step(old(self)@, h, p, 2),
                _ => (old(self)@, h, Some(ActionModel::Continue)),
            }),
            r is Some <==> plain_conversion_ok(old(self)@, *op),
    {
        match op {
            SharkyInstruction::ToInt(a) => self.convert_at(Ghost(h), a, 0)?,
            SharkyInstruction::ToMax(a) => self.convert_at(Ghost(h), a, 1)?,
            SharkyInstruction::ToByte(a) => self.convert_at(Ghost(h), a, 2)?,
            _ => {},
        }
        Some(())
    }

    /// The values at operational-stack indexes `a` and `b`, if both are there.
    fn operands(&self, a: &SharkyParameter<usize>, b: &SharkyParameter<usize>) -> (r: Option<
        (SharkyDataType, SharkyDataType),
    >)
        ensures
            match plain_operands(self@, *a, *b) {
                Some((x, y)) => r matches Some((p, q)) && p@ == x && q@ == y,
                None => r is None,
            },
    {
        let param_a = self.read_parameter(a)?;
        let param_b = self.read_parameter(b)?;
        let opstack = self.memory.get_operational_stack_ref();
        let index_a = opstack.read(param_a)?.clone();
        let index_b = opstack.read(param_b)?.clone();
        Some((index_a, index_b))
    }

    fn push_operational(&mut self, Ghost(h): Ghost<HeapModel>, value: SharkyDataType)
        ensures
            final(self).program() == old(self).program(),
            (final(self)@, h, Some(ActionModel::Continue)) == (
                VmModel { memory: push_operational(old(self)@.memory, value@), ..old(self)@ },
                h,
                Some(ActionModel::Continue),
            ),
    {
        let ghost v = value@;
        let opstack = self.memory.get_operational_stack();
        let ghost s0 = opstack@;
        opstack.push(value);
        assert(data_model(opstack@) =~= data_model(s0).push(v));
    }

    fn arithmetic(
        &mut self,
        Ghost(h): Ghost<HeapModel>,
        a: &SharkyParameter<usize>,
        b: &SharkyParameter<usize>,
        mode: ArithmeticMode,
        real_op: SharkyRealOp,
    ) -> (r: SharkyStepAction)
        requires
            match plain_operands(old(self)@, *a, *b) {
                Some((x, y)) => (x is Real && y is Real) || plain_arithmetic(mode, x, y) is Some,
                None => true,
            },
        ensures
            final(self).program() == old(self).program(),
            (final(self)@, h, Some(step_action_model(r))) == plain_arithmetic_step(
                old(self)@,
                h,
                *a,
                *b,
                mode,
                real_op,
            ),
    {
        let (x, y) = match self.operands(a, b) {
            Some(pair) => pair,
            None => return SharkyStepAction::Continue,
        };
        if let (SharkyDataType::Real(_), SharkyDataType::Real(_)) = (&x, &y) {
            return SharkyStepAction::RealOp(SharkyRealRequest { op: real_op, lhs: x, rhs: y });
        }
        let result = match (x, y) {
            (SharkyDataType::Int(p), SharkyDataType::Int(q)) => {
                let v = match mode {
                    ArithmeticMode::Add => p.checked_add(q),
                    ArithmeticMode::Subtract => p.checked_sub(q),
                    ArithmeticMode::Multiply => p.checked_mul(q),
                    ArithmeticMode::Divide => p.checked_div(q),
                    ArithmeticMode::Mod => p.checked_rem(q),
                };
                SharkyDataType::Int(v.unwrap())
            },
            (SharkyDataType::Max(p), SharkyDataType::Max(q)) => {
                let v = match mode {
                    ArithmeticMode::Add => p.checked_add(q),
                    ArithmeticMode::Subtract => p.checked_sub(q),
                    ArithmeticMode::Multiply => p.checked_mul(q),
                    ArithmeticMode::Divide => p.checked_div(q),
                    ArithmeticMode::Mod => p.checked_rem(q),
                };
                SharkyDataType::Max(v.unwrap())
            },
            (SharkyDataType::Byte(p), SharkyDataType::Byte(q)) => {
                let v = match mode {
                    ArithmeticMode::Add => p.checked_add(q),
                    ArithmeticMode::Subtract => p.checked_sub(q),
                    ArithmeticMode::Multiply => p.checked_mul(q),
                    ArithmeticMode::Divide => p.checked_div(q),
                    ArithmeticMode::Mod => p.checked_rem(q),
                };
                SharkyDataType::Byte(v.unwrap())
            },
            _ => SharkyDataType::Nil,
        };
        self.push_operational(Ghost(h), result);
        SharkyStepAction::Continue
    }

    fn bitwise(
        &mut self,
        Ghost(h): Ghost<HeapModel>,
        a: &SharkyParameter<usize>,
        b: &SharkyParameter<usize>,
        mode: BitwiseMode,
    ) -> (r: SharkyStepAction)
        requires
            match plain_operands(old(self)@, *a, *b) {
                Some((x, y)) => plain_bitwise(mode, x, y) is Some,
                None => true,
            },
        ensures
            final(self).program() == old(self).program(),
            (final(self)@, h, Some(step_action_model(r))) == plain_bitwise_step(old(self)@, h, *a, *b, mode),
    {
        let (x, y) = match self.operands(a, b) {
            Some(pair) => pair,
            None => return SharkyStepAction::Continue,
        };
        let result = match (x, y) {
            (SharkyDataType::Int(p), SharkyDataType::Int(q)) => match mode {
                BitwiseMode::ShiftLeft => SharkyDataType::Int(p << (q as u32)),
                BitwiseMode::ShiftRight => SharkyDataType::Int(p >> (q as u32)),
                BitwiseMode::And => SharkyDataType::Int(p & q),
                BitwiseMode::Or => SharkyDataType::Int(p | q),
                BitwiseMode::Xor => SharkyDataType::Int(p ^ q),
                BitwiseMode::Not => SharkyDataType::Int(!p),
            },
            (SharkyDataType::Max(p), SharkyDataType::Max(q)) => match mode {
                BitwiseMode::ShiftLeft => SharkyDataType::Max(p << q),
                BitwiseMode::ShiftRight => SharkyDataType::Max(p >> q),
                BitwiseMode::And => SharkyDataType::Max(p & q),
                BitwiseMode::Or => SharkyDataType::Max(p | q),
                BitwiseMode::Xor => SharkyDataType::Max(p ^ q),
                BitwiseMode::Not => SharkyDataType::Max(!p),
            },
            (SharkyDataType::Byte(p), SharkyDataType::Byte(q)) => match mode {
                BitwiseMode::ShiftLeft => SharkyDataType::Byte(p << q),
                BitwiseMode::ShiftRight => SharkyDataType::Byte(p >> q),
                BitwiseMode::And => SharkyDataType::Byte(p & q),
                BitwiseMode::Or => SharkyDataType::Byte(p | q),
                BitwiseMode::Xor => SharkyDataType::Byte(p ^ q),
                BitwiseMode::Not => SharkyDataType::Byte(!p),
            },
            (SharkyDataType::Int(p), _) if mode == BitwiseMode::Not => SharkyDataType::Int(!p),
            (SharkyDataType::Max(p), _) if mode == BitwiseMode::Not => SharkyDataType::Max(!p),
            (SharkyDataType::Byte(p), _) if mode == BitwiseMode::Not => SharkyDataType::Byte(!p),
            _ => SharkyDataType::Nil,
        };
        self.push_operational(Ghost(h), result);
        SharkyStepAction::Continue
    }

    fn bit_not(&mut self, Ghost(h): Ghost<HeapModel>, a: &SharkyParameter<usize>) -> (r: Option<()>)
        ensures
            final(self).program() == old(self).program(),
            (final(self)@, h, Some(ActionModel::Continue)) == plain_bit_not_step(old(self)@, h, *a),
    {
        let param_a = self.read_parameter(a)?;
        let value = self.memory.get_operational_stack_ref().read(param_a)?;
        let result = match value {
            SharkyDataType::Int(p) => SharkyDataType::Int(!*p),
            SharkyDataType::Max(p) => SharkyDataType::Max(!*p),
            SharkyDataType::Byte(p) => SharkyDataType::Byte(!*p),
            _ => SharkyDataType::Nil,
        };
        self.push_operational(Ghost(h), result);
        Some(())
    }

    fn logical_not(&mut self, Ghost(h): Ghost<HeapModel>, a: &SharkyParameter<usize>) -> (r: Option<()>)
        ensures
            final(self).program() == old(self).program(),
            (final(self)@, h, Some(ActionModel::Continue)) == plain_not_step(old(self)@, h, *a),
    {
        let param_a = self.read_parameter(a)?;
        let value = self.memory.get_operational_stack_ref().read(param_a)?;
        let result = match value {
            SharkyDataType::Bool(p) => !*p,
            _ => false,
        };
        self.push_operational(Ghost(h), SharkyDataType::Bool(result));
        Some(())
    }

    fn boolean(&mut self, Ghost(h): Ghost<HeapModel>, a: &SharkyParameter<usize>, b: &SharkyParameter<usize>, is_and: bool) -> (r: Option<()>)
        ensures
            final(self).program() == old(self).program(),
            (final(self)@, h, Some(ActionModel::Continue)) == plain_boolean_step(old(self)@, h, *a, *b, is_and),
    {
        let (x, y) = self.operands(a, b)?;
        let result = match (x, y) {
            (SharkyDataType::Bool(p), SharkyDataType::Bool(q)) => if is_and {
                p && q
            } else {
                p || q
            },
            _ => false,
        };
        self.push_operational(Ghost(h), SharkyDataType::Bool(result));
        Some(())
    }

    fn comparison(
        &mut self,
        Ghost(h): Ghost<HeapModel>,
        a: &SharkyParameter<usize>,
        b: &SharkyParameter<usize>,
        mode: ComparisonMode,
        real_op: SharkyRealOp,
    ) -> (r: SharkyStepAction)
        ensures
            final(self).program() == old(self).program(),
            (final(self)@, h, Some(step_action_model(r))) == plain_comparison_step(
                old(self)@,
                h,
                *a,
                *b,
                mode,
                real_op,
            ),
    {
        let (x, y) = match self.operands(a, b) {
            Some(pair) => pair,
            None => return SharkyStepAction::Continue,
        };
        if let (SharkyDataType::Real(_), SharkyDataType::Real(_)) = (&x, &y) {
            return SharkyStepAction::RealOp(SharkyRealRequest { op: real_op, lhs: x, rhs: y });
        }
        let result = match (x, y) {
            (SharkyDataType::Int(p), SharkyDataType::Int(q)) => SharkyDataType::Bool(
                compare_i128(mode, p as i128, q as i128),
            ),
            (SharkyDataType::Max(p), SharkyDataType::Max(q)) => SharkyDataType::Bool(
                compare_i128(mode, p as i128, q as i128),
            ),
            (SharkyDataType::Byte(p), SharkyDataType::Byte(q)) => SharkyDataType::Bool(
                compare_i128(mode, p as i128, q as i128),
            ),
            (SharkyDataType::Bool(p), SharkyDataType::Bool(q)) => SharkyDataType::Bool(
                compare_i128(
                    mode,
                    if p {
                        1
                    } else {
                        0
                    },
                    if q {
                        1
                    } else {
                        0
                    },
                ),
            ),
            (SharkyDataType::HeapReference(p), SharkyDataType::HeapReference(q)) => SharkyDataType::Bool(
                compare_i128(mode, p as i128, q as i128),
            ),
            (SharkyDataType::Nil, SharkyDataType::Nil) => SharkyDataType::Bool(compare_i128(mode, 0, 0)),
            _ => SharkyDataType::Nil,
        };
        self.push_operational(Ghost(h), result);
        SharkyStepAction::Continue
    }

    fn interpret_operativeops(&mut self, Ghost(h): Ghost<HeapModel>, op: &SharkyInstruction) -> (r: SharkyStepAction)
        requires
            !plain_operator_panics(old(self)@, *op),
        ensures
            final(self).program() == old(self).program(),
            (final(self)@, h, Some(step_action_model(r))) == plain_operator_step(old(self)@, h, *op),
    {
        match op {
            SharkyInstruction::Add(a, b) => self.arithmetic(Ghost(h), a, b, ArithmeticMode::Add, SharkyRealOp::Add),
            SharkyInstruction::Subtract(a, b) => self.arithmetic(Ghost(h), a, b, ArithmeticMode::Subtract, SharkyRealOp::Subtract),
            SharkyInstruction::Multiply(a, b) => self.arithmetic(Ghost(h), a, b, ArithmeticMode::Multiply, SharkyRealOp::Multiply),
            SharkyInstruction::Divide(a, b) => self.arithmetic(Ghost(h), a, b, ArithmeticMode::Divide, SharkyRealOp::Divide),
            SharkyInstruction::Modulus(a, b) => self.arithmetic(Ghost(h), a, b, ArithmeticMode::Mod, SharkyRealOp::Mod),
            SharkyInstruction::BitLeftShift(a, b) => self.bitwise(Ghost(h), a, b, BitwiseMode::ShiftLeft),
            SharkyInstruction::BitRightShift(a, b) => self.bitwise(Ghost(h), a, b, BitwiseMode::ShiftRight),
            SharkyInstruction::BitAnd(a, b) => self.bitwise(Ghost(h), a, b, BitwiseMode::And),
            SharkyInstruction::BitXor(a, b) => self.bitwise(Ghost(h), a, b, BitwiseMode::Xor),
            SharkyInstruction::BitOr(a, b) => self.bitwise(Ghost(h), a, b, BitwiseMode::Or),
            SharkyInstruction::BitNot(a) => {
                self.bit_not(Ghost(h), a);
                SharkyStepAction::Continue
            },
            SharkyInstruction::Not(a) => {
                self.logical_not(Ghost(h), a);
                SharkyStepAction::Continue
            },
            SharkyInstruction::And(a, b) => {
                self.boolean(Ghost(h), a, b, true);
                SharkyStepAction::Continue
            },
            SharkyInstruction::Or(a, b) => {
                self.boolean(Ghost(h), a, b, false);
                SharkyStepAction::Continue
            },
            SharkyInstruction::Equals(a, b) => self.comparison(Ghost(h), a, b, ComparisonMode::Equals, SharkyRealOp::Equals),
            SharkyInstruction::NotEquals(a, b) => self.comparison(Ghost(h), a, b, ComparisonMode::NotEquals, SharkyRealOp::NotEquals),
            SharkyInstruction::GreaterThan(a, b) => self.comparison(Ghost(h), a, b, ComparisonMode::GreaterThan, SharkyRealOp::GreaterThan),
            SharkyInstruction::LesserThan(a, b) => self.comparison(Ghost(h), a, b, ComparisonMode::LessThan, SharkyRealOp::LessThan),
            SharkyInstruction::GreaterThanOrEquals(a, b) => self.comparison(
                Ghost(h),
                a,
                b,
                ComparisonMode::GreaterThanOrEquals,
                SharkyRealOp::GreaterThanOrEquals,
            ),
            SharkyInstruction::LesserThanOrEquals(a, b) => self.comparison(
                Ghost(h),
                a,
                b,
                ComparisonMode::LessThanOrEquals,
                SharkyRealOp::LessThanOrEquals,
            ),
            _ => SharkyStepAction::Continue,
        }
    }
}

/// `x mode y`.
fn compare_i128(mode: ComparisonMode, x: i128, y: i128) -> (r: bool)
    ensures
        r == compare_ints(mode, x as int, y as int),
{
    match mode {
        ComparisonMode::Equals => x == y,
        ComparisonMode::NotEquals => x != y,
        ComparisonMode::GreaterThan => x > y,
        ComparisonMode::LessThan => x < y,
        ComparisonMode::GreaterThanOrEquals => x >= y,
        _ => x <= y,
    }
}

impl SharkyVM {
    fn interpret_logicops(&mut self, Ghost(h): Ghost<HeapModel>, op: &SharkyInstruction) -> (r: Option<()>)
        ensures
            final(self).program() == old(self).program(),
            (final(self)@, h, Some(ActionModel::Continue)) == plain_logic_step(old(self)@, h, *op),
            r is Some <==> plain_logic_ok(old(self)@, *op),
    {
        match op {
            SharkyInstruction::Jump(a) => {
                self.program_counter = self.read_parameter(a)?;
            },
            SharkyInstruction::JumpIfNot(a, b) => {
                let param_a = self.read_parameter(a)?;
                let param_b = self.read_parameter(b)?;
                let jump = match self.memory.stack_for_writes()?.read(param_b)? {
                    SharkyDataType::Bool(v) => !*v,
                    _ => false,
                };
                if jump {
                    self.program_counter = param_a;
                }
            },
            SharkyInstruction::PopJumpIfNot(a) => {
                let to = self.read_parameter(a)?;
                let top_is_false = match self.memory.stack_for_writes() {
                    Some(stack) => stack.size() > 0 && match stack.read(stack.size() - 1) {
                        Some(SharkyDataType::Bool(v)) => !*v,
                        _ => false,
                    },
                    None => false,
                };
                if top_is_false {
                    match self.memory.get_active_stack_mut() {
                        Some(stack) => {
                            let ghost before = stack@;
                            stack.pop();
                            proof {
                                assert(data_model(stack@) =~= data_model(before).drop_last());
                            }
                        },
                        None => {},
                    }
                    self.program_counter = to;
                }
            },
            _ => {},
        }
        Some(())
    }

    fn interpret_heapops(&mut self, heap: &mut SharkyHeap, op: &SharkyInstruction) -> (r: Option<()>)
        requires
            !plain_heap_panics(old(self)@, old(heap)@, *op),
        ensures
            final(self).program() == old(self).program(),
            (final(self)@, final(heap)@, Some(ActionModel::Continue)) == plain_heap_step(
                old(self)@,
                old(heap)@,
                *op,
                old(heap).vacant_key(),
            ),
            r is Some <==> plain_heap_ok(old(self)@, old(heap)@, *op),
    {
        proof {
            if self@.memory.active_stack_mut() is Some {
                self@.memory.lemma_with_active_stack_unchanged();
            }
        }
        match op {
            SharkyInstruction::CreateHeap => {
                let address = heap.allocate();
                self.push_constant(Ghost(heap@), SharkyDataType::HeapReference(address))?;
            },
            SharkyInstruction::SelectHeap(a) => {
                let select = self.read_parameter(a)?;
                self.selected_frame = select;
            },
            SharkyInstruction::PushHeap => {
                heap.push(self.selected_frame, &SharkyDataType::Nil);
            },
            SharkyInstruction::WriteHeap(a, b) => {
                let dest = self.read_parameter(a)?;
                let src = self.read_parameter(b)?;
                let data = self.memory.get_active_stack()?.read(src)?.clone();
                heap.set(self.selected_frame, dest, &data);
            },
            SharkyInstruction::ReadHeap(a, b) => {
                let dest = self.read_parameter(a)?;
                let src = self.read_parameter(b)?;
                let data = heap.read(self.selected_frame, src)?;
                let ghost v = data@;
                let stack = self.memory.get_active_stack_mut()?;
                let ghost s0 = stack@;
                stack.set(dest, data);
                assert(data_model(stack@) =~= set_in(data_model(s0), dest, v));
            },
            SharkyInstruction::CloneHeap => {
                let address = heap.clone_frame(self.selected_frame)?;
                self.push_constant(Ghost(heap@), SharkyDataType::HeapReference(address))?;
            },
            SharkyInstruction::SizeHeap => {
                let size = heap.size_frame(self.selected_frame)?;
                self.push_constant(Ghost(heap@), SharkyDataType::Max(size))?;
            },
            _ => {},
        }
        Some(())
    }

    fn interpret_taskops(&mut self, Ghost(h): Ghost<HeapModel>, op: &SharkyInstruction) -> (r: SharkyStepAction)
        ensures
            final(self).program() == old(self).program(),
            spawns_program(r, old(self).program()),
            (final(self)@, h, Some(step_action_model(r))) == plain_task_step(old(self)@, h, *op),
    {
        match op {
            SharkyInstruction::SpawnSubtask(a) => match self.read_parameter(a) {
                Some(param_a) => SharkyStepAction::SpawnSubtask(self.new_subvm(param_a)),
                None => SharkyStepAction::Continue,
            },
            SharkyInstruction::KillSelf => {
                self.running = false;
                SharkyStepAction::Continue
            },
            SharkyInstruction::FFICall(a) => match self.read_parameter(a) {
                Some(param_a) => if param_a < self.ffi_function_count {
                    SharkyStepAction::FFICall(param_a)
                } else {
                    SharkyStepAction::Continue
                },
                None => SharkyStepAction::Continue,
            },
            _ => SharkyStepAction::Continue,
        }
    }

    fn execute(&mut self, heap: &mut SharkyHeap, op: &SharkyInstruction) -> (r: SharkyStepAction)
        requires
            !plain_operator_panics(old(self)@, *op),
            !plain_heap_panics(old(self)@, old(heap)@, *op),
        ensures
            final(self).program() == old(self).program(),
            spawns_program(r, old(self).program()),
            (final(self)@, final(heap)@, Some(step_action_model(r))) == plain_execute(
                old(self)@,
                old(heap)@,
                *op,
                old(heap).vacant_key(),
            ),
    {
        let ghost h = heap@;
        match op {
            SharkyInstruction::SetStackMode(_) | SharkyInstruction::SelectLocalStack(_)
            | SharkyInstruction::PushLocalStack | SharkyInstruction::PopLocalStack
            | SharkyInstruction::PushTransition(_) | SharkyInstruction::CopyTransition(_)
            | SharkyInstruction::Copy(_) | SharkyInstruction::Nilify(_)
            | SharkyInstruction::Assign(_, _) | SharkyInstruction::Pop | SharkyInstruction::Clear => {
                self.interpret_stackops(Ghost(h), op);
                SharkyStepAction::Continue
            },
            SharkyInstruction::PushNil | SharkyInstruction::PushReal(_) | SharkyInstruction::PushMax(_)
            | SharkyInstruction::PushInt(_) | SharkyInstruction::PushByte(_)
            | SharkyInstruction::PushBool(_) | SharkyInstruction::PushHeapReference(_) => {
                self.interpret_constantops(Ghost(h), op);
                SharkyStepAction::Continue
            },
            SharkyInstruction::ToInt(_) | SharkyInstruction::ToMax(_) | SharkyInstruction::ToByte(_) => {
                self.interpret_conversionops(Ghost(h), op);
                SharkyStepAction::Continue
            },
            SharkyInstruction::Jump(_) | SharkyInstruction::JumpIfNot(_, _)
            | SharkyInstruction::PopJumpIfNot(_) => {
                self.interpret_logicops(Ghost(h), op);
                SharkyStepAction::Continue
            },
            SharkyInstruction::CreateHeap | SharkyInstruction::SelectHeap(_) | SharkyInstruction::PushHeap
            | SharkyInstruction::WriteHeap(_, _) | SharkyInstruction::ReadHeap(_, _)
            | SharkyInstruction::CloneHeap | SharkyInstruction::SizeHeap => {
                self.interpret_heapops(heap, op);
                SharkyStepAction::Continue
            },
            SharkyInstruction::SpawnSubtask(_) | SharkyInstruction::KillSelf
            | SharkyInstruction::FFICall(_) => self.interpret_taskops(Ghost(h), op),
            SharkyInstruction::NoOperation => SharkyStepAction::Continue,
            _ => self.interpret_operativeops(Ghost(h), op),
        }
    }

    /// Moves on past the instruction at `prev_counter` unless the step
    /// jumped, and stops past the end of the program.
    fn finish_step(&mut self, prev_counter: usize)
        requires
            prev_counter < old(self).program().len(),
        ensures
            final(self).program() == old(self).program(),
            final(self)@ == finish(old(self)@, prev_counter, old(self).program().len()),
    {
        let program_memory_length = self.program_memory.len();
        if self.program_counter == prev_counter {
            self.program_counter = self.program_counter + 1;
        }
        if self.program_counter >= program_memory_length {
            self.running = false;
        }
    }

    /// Runs one step of the program against `heap`: nothing when the machine
    /// is stopped; `None` past the end of the program; otherwise the current
    /// instruction, after which the machine moves on to the next instruction
    /// unless the instruction jumped or handed an operation on two Reals to
    /// the host (see `complete_real_op`).
    pub fn interpret(&mut self, heap: &mut SharkyHeap) -> (r: Option<SharkyStepAction>)
        requires
            !plain_step_panics(old(self)@, old(self).program(), old(heap)@),
        ensures
            old(self).program().len() <= usize::MAX,
            final(self).program() == old(self).program(),
            r matches Some(a) ==> spawns_program(a, old(self).program()),
            (final(self)@, final(heap)@, step_outcome_model(r)) == plain_step(
                old(self)@,
                old(self).program(),
                old(heap)@,
                old(heap).vacant_key(),
            ),
    {
        let _len: usize = self.program_memory.len();
        if !self.is_running() {
            return Some(SharkyStepAction::Continue);
        }
        if self.program_counter >= self.program_memory.len() {
            return None;
        }
        let prev_counter = self.program_counter;
        let program = self.program_memory.clone();
        let current_instruction = &program[prev_counter];
        let action = self.execute(heap, current_instruction);
        if let SharkyStepAction::RealOp(_) = action {
            return Some(action);
        }
        self.finish_step(prev_counter);
        Some(action)
    }

    /// Whether the next step would panic (see `interpret`).
    pub fn step_would_panic(&self, heap: &SharkyHeap) -> (r: bool)
        ensures
            r == plain_step_panics(self@, self.program(), heap@),
    {
        if !self.running || self.program_counter >= self.program_memory.len() {
            return false;
        }
        let program = self.program_memory.clone();
        let op = &program[self.program_counter];
        assert(*op == self.program()[self@.program_counter as int]);
        let heap_panics = match op {
            SharkyInstruction::CreateHeap => heap.get_allocation_count() == usize::MAX,
            SharkyInstruction::CloneHeap => heap.size_frame(self.selected_frame).is_some()
                && heap.get_allocation_count() == usize::MAX,
            _ => false,
        };
        if heap_panics {
            return true;
        }
        let (a, b, arith, bits) = match op {
            SharkyInstruction::Add(a, b) => (a, b, Some(ArithmeticMode::Add), None),
            SharkyInstruction::Subtract(a, b) => (a, b, Some(ArithmeticMode::Subtract), None),
            SharkyInstruction::Multiply(a, b) => (a, b, Some(ArithmeticMode::Multiply), None),
            SharkyInstruction::Divide(a, b) => (a, b, Some(ArithmeticMode::Divide), None),
            SharkyInstruction::Modulus(a, b) => (a, b, Some(ArithmeticMode::Mod), None),
            SharkyInstruction::BitLeftShift(a, b) => (a, b, None, Some(BitwiseMode::ShiftLeft)),
            SharkyInstruction::BitRightShift(a, b) => (a, b, None, Some(BitwiseMode::ShiftRight)),
            _ => return false,
        };
        let (x, y) = match self.operands(a, b) {
            Some(pair) => pair,
            None => return false,
        };
        match (arith, bits) {
            (Some(mode), _) => !(is_real(&x) && is_real(&y)) && !arithmetic_fits(mode, &x, &y),
            (_, Some(mode)) => !shift_fits(mode, &x, &y),
            _ => false,
        }
    }

    /// Finishes a step that handed an operation on two Reals to the host,
    /// with the host's `result`: it goes onto the operational stack and the
    /// machine moves on to the next instruction.
    pub fn complete_real_op(&mut self, result: SharkyDataType)
        requires
            old(self)@.program_counter < old(self).program().len(),
        ensures
            final(self).program() == old(self).program(),
            final(self)@ == finish(
                VmModel { memory: push_operational(old(self)@.memory, result@), ..old(self)@ },
                old(self)@.program_counter,
                old(self).program().len(),
            ),
    {
        let prev_counter = self.program_counter;
        let ghost h = HeapModel { frames: Map::empty(), allocation_count: 0 };
        self.push_operational(Ghost(h), result);
        self.finish_step(prev_counter);
    }
}

fn is_real(v: &SharkyDataType) -> (r: bool)
    ensures
        r == (v@ is Real),
{
    match v {
        SharkyDataType::Real(_) => true,
        _ => false,
    }
}

/// Whether an arithmetic operation on two values other than two Reals does not panic.
fn arithmetic_fits(mode: ArithmeticMode, x: &SharkyDataType, y: &SharkyDataType) -> (r: bool)
    ensures
        r == plain_arithmetic(mode, x@, y@) is Some,
{
    match (x, y) {
        (SharkyDataType::Int(p), SharkyDataType::Int(q)) => match mode {
            ArithmeticMode::Add => p.checked_add(*q).is_some(),
            ArithmeticMode::Subtract => p.checked_sub(*q).is_some(),
            ArithmeticMode::Multiply => p.checked_mul(*q).is_some(),
            ArithmeticMode::Divide => p.checked_div(*q).is_some(),
            ArithmeticMode::Mod => p.checked_rem(*q).is_some(),
        },
        (SharkyDataType::Max(p), SharkyDataType::Max(q)) => match mode {
            ArithmeticMode::Add => p.checked_add(*q).is_some(),
            ArithmeticMode::Subtract => p.checked_sub(*q).is_some(),
            ArithmeticMode::Multiply => p.checked_mul(*q).is_some(),
            ArithmeticMode::Divide => p.checked_div(*q).is_some(),
            ArithmeticMode::Mod => p.checked_rem(*q).is_some(),
        },
        (SharkyDataType::Byte(p), SharkyDataType::Byte(q)) => match mode {
            ArithmeticMode::Add => p.checked_add(*q).is_some(),
            ArithmeticMode::Subtract => p.checked_sub(*q).is_some(),
            ArithmeticMode::Multiply => p.checked_mul(*q).is_some(),
            ArithmeticMode::Divide => p.checked_div(*q).is_some(),
            ArithmeticMode::Mod => p.checked_rem(*q).is_some(),
        },
        _ => true,
    }
}

/// Whether a shift does not panic.
fn shift_fits(mode: BitwiseMode, x: &SharkyDataType, y: &SharkyDataType) -> (r: bool)
    requires
        mode == BitwiseMode::ShiftLeft || mode == BitwiseMode::ShiftRight,
    ensures
        r == plain_bitwise(mode, x@, y@) is Some,
{
    match (x, y) {
        (SharkyDataType::Int(_), SharkyDataType::Int(q)) => 0 <= *q && *q < 64,
        (SharkyDataType::Max(_), SharkyDataType::Max(q)) => *q < usize::BITS as usize,
        (SharkyDataType::Byte(_), SharkyDataType::Byte(q)) => *q < 8,
        _ => true,
    }
}

} // verus!
