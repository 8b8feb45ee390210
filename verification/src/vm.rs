use vstd::prelude::*;

use std::sync::Arc;

use crate::ffi_collections::CVec;
use crate::instructions::{
    ArithmeticMode, BitwiseMode, ComparisonMode, ConversionMode, FixedStackMode, HeapOpMode,
    LogicMode, OpParameter, SelectStackMode, SharkyInstruction, SharkyProgram,
};
use crate::sharky_data_types::{
    opt_view, DataModel, SharkyBool, SharkyByte, SharkyDataType, SharkyHeapFrameIndex, SharkyMax,
    SharkyStackMode, SharkyValue,
};
use crate::sharky_memory::{data_model, HeapModel, SharkyDataStack, SharkyHeap, SharkyMemoryLayout};
use crate::vm_semantics::{
    append_panics, arithmetic, bitwise, bytes_at, comparison, conversion_is_real, convert_to,
    execute, execute_panics, extend_overflows, finish, fresh_memory, heap_op_panics, push_active,
    push_operational, read_active, read_param, read_param_val, step, step_append_byte_string,
    step_arithmetic, step_assign, step_bitwise, step_byte_string_size, step_clear,
    step_clear_byte_string, step_comparison, step_convert, step_copy, step_copy_from_byte_string,
    step_copy_from_heap_item, step_copy_from_transition, step_copy_to_byte_string,
    step_copy_to_heap_item, step_copy_to_transition, step_extend_byte_string,
    step_fill_byte_string, step_ffi_call, step_goto, step_heap, step_logical_goto, step_nilify,
    step_not_bool, step_panics, step_pop, step_push, step_select_heap, step_select_stack,
    step_slice_byte_string, step_spawn_subtask, subvm, with_bytes_at, write_active, ActionModel,
    lemma_with_bytes_at_unchanged,
    StepModel, VmModel,
};

verus! {

/// Why a step of the machine stopped short.
#[derive(Debug, Clone, Copy, PartialEq, Eq, Structural)]
pub enum SharkyInterrupt {
    OutOfOps,
    InvalidParameter,
    InvalidSelectedStack,
    InvalidStackMode,
    InvalidStackObjectIndex,
    InvalidHeapIndex,
    TypeMismatch,
    InvalidConversion,
    InvalidFFICall,
    DivideByZero,
    NonIndexValue,
    InvalidOp,
    ByteStringOpOnNonBytestring,
}

/// The name under which an interrupt is reported.
pub open spec fn interrupt_message(i: SharkyInterrupt) -> Seq<char> {
    match i {
        SharkyInterrupt::OutOfOps => "OutOfOps"@,
        SharkyInterrupt::InvalidParameter => "InvalidParameter"@,
        SharkyInterrupt::InvalidSelectedStack => "InvalidStackIndex"@,
        SharkyInterrupt::InvalidStackMode => "InvalidStackMode"@,
        SharkyInterrupt::InvalidStackObjectIndex => "InvalidStackObjectIndex"@,
        SharkyInterrupt::InvalidHeapIndex => "InvalidHeapIndex"@,
        SharkyInterrupt::TypeMismatch => "TypeMismatch"@,
        SharkyInterrupt::InvalidConversion => "InvalidConversion"@,
        SharkyInterrupt::InvalidFFICall => "InvalidFFICall"@,
        SharkyInterrupt::DivideByZero => "DivideByZero"@,
        SharkyInterrupt::NonIndexValue => "NonIndexValue"@,
        SharkyInterrupt::InvalidOp => "OperationalyIncompatible"@,
        SharkyInterrupt::ByteStringOpOnNonBytestring => "ByteStringOpOnNonBytestring"@,
    }
}

impl SharkyInterrupt {
    /// The name under which the interrupt is reported.
    pub fn to_string(&self) -> (r: String)
        ensures
            r@ == interrupt_message(*self),
    {
        let name: &str = match self {
            SharkyInterrupt::OutOfOps => "OutOfOps",
            SharkyInterrupt::InvalidParameter => "InvalidParameter",
            SharkyInterrupt::InvalidSelectedStack => "InvalidStackIndex",
            SharkyInterrupt::InvalidStackMode => "InvalidStackMode",
            SharkyInterrupt::InvalidStackObjectIndex => "InvalidStackObjectIndex",
            SharkyInterrupt::InvalidHeapIndex => "InvalidHeapIndex",
            SharkyInterrupt::TypeMismatch => "TypeMismatch",
            SharkyInterrupt::InvalidConversion => "InvalidConversion",
            SharkyInterrupt::InvalidFFICall => "InvalidFFICall",
            SharkyInterrupt::DivideByZero => "DivideByZero",
            SharkyInterrupt::NonIndexValue => "NonIndexValue",
            SharkyInterrupt::InvalidOp => "OperationalyIncompatible",
            SharkyInterrupt::ByteStringOpOnNonBytestring => "ByteStringOpOnNonBytestring",
        };
        name.to_string()
    }
}

pub type SharkyInterpreterStatus = Result<(), SharkyInterrupt>;

/// A floating-point operation that the machine hands to its host.
#[derive(Debug, Clone, Copy, PartialEq, Eq, Structural)]
pub enum SharkyRealOp {
    Add,
    Subtract,
    Multiply,
    Divide,
    Mod,
    Equals,
    NotEquals,
    GreaterThan,
    LessThan,
    GreaterThanOrEquals,
    LessThanOrEquals,
    Convert(ConversionMode),
}

/// A floating-point operation with its operands (`rhs` is Nil for a conversion).
#[derive(Debug)]
pub struct SharkyRealRequest {
    pub op: SharkyRealOp,
    pub lhs: SharkyDataType,
    pub rhs: SharkyDataType,
}

/// What a step asks of the host after it returns.
pub enum SharkyAction {
    /// Nothing.
    Continue,
    /// Run this machine as a new task.
    SpawnSubtask(SharkyVM),
    /// Call this foreign function with the parameter stack.
    FFICall(usize),
    /// Compute this operation and hand the result to `complete_real_op`.
    RealOp(SharkyRealRequest),
}

/// One machine: its stacks, where it is in its program, and which heap
/// frame its heap instructions work on.
pub struct SharkyVM {
    memory: SharkyMemoryLayout,
    program_counter: usize,
    program_memory: Arc<SharkyProgram>,
    ffi_function_count: usize,
    selected_frame: usize,
    running: bool,
}

impl View for SharkyVM {
    type V = VmModel;

    closed spec fn view(&self) -> VmModel {
        VmModel {
            memory: self.memory@,
            program_counter: self.program_counter,
            selected_frame: self.selected_frame,
            running: self.running,
            ffi_function_count: self.ffi_function_count,
        }
    }
}

pub open spec fn action_model(a: SharkyAction) -> ActionModel {
    match a {
        SharkyAction::Continue => ActionModel::Continue,
        SharkyAction::SpawnSubtask(vm) => ActionModel::SpawnSubtask(vm@),
        SharkyAction::FFICall(f) => ActionModel::FFICall(f),
        SharkyAction::RealOp(req) => ActionModel::RealOp(req.op, req.lhs@, req.rhs@),
    }
}

pub open spec fn outcome_model(r: Result<SharkyAction, SharkyInterrupt>) -> Result<
    ActionModel,
    SharkyInterrupt,
> {
    match r {
        Ok(a) => Ok(action_model(a)),
        Err(e) => Err(e),
    }
}

pub open spec fn data_result(r: Result<SharkyDataType, SharkyInterrupt>) -> Result<
    DataModel,
    SharkyInterrupt,
> {
    match r {
        Ok(v) => Ok(v@),
        Err(e) => Err(e),
    }
}

/// Whether a spawned machine, if any, runs `program`.
pub open spec fn spawned_program(r: Result<SharkyAction, SharkyInterrupt>, program: Seq<SharkyInstruction>) -> bool {
    r matches Ok(SharkyAction::SpawnSubtask(sub)) ==> sub.program() == program
}

fn interrupt<T>(e: SharkyInterrupt) -> (r: Result<T, SharkyInterrupt>)
    ensures
        r == Err::<T, SharkyInterrupt>(e),
{
    Err(e)
}

impl SharkyVM {
    /// The program the machine runs.
    pub closed spec fn program(&self) -> Seq<SharkyInstruction> {
        self.program_memory@
    }

    /// A running machine at the start of `program`, with fresh memory, that
    /// can call foreign functions `0..ffi_function_count`.
    pub fn new(program: Arc<SharkyProgram>, ffi_function_count: usize) -> (r: SharkyVM)
        ensures
            r.program() == program@,
            r.program().len() <= usize::MAX,
            r@ == (VmModel {
                memory: fresh_memory(),
                program_counter: 0,
                selected_frame: 0,
                running: true,
                ffi_function_count,
            }),
    {
        let _len: usize = program.len();
        let r = SharkyVM {
            memory: SharkyMemoryLayout::new(),
            program_counter: 0,
            program_memory: program,
            ffi_function_count,
            selected_frame: 0,
            running: true,
        };
        assert(r@.memory =~= fresh_memory());
        r
    }

    /// A new machine on the same program that starts at `program_counter`
    /// with a copy of this machine's parameter stack.
    pub fn new_subvm(&self, program_counter: usize) -> (r: SharkyVM)
        ensures
            r.program() == self.program(),
            r@ == subvm(self@, program_counter),
            r.program().len() <= usize::MAX,
    {
        let mut sub = Self::new(self.program_memory.clone(), self.ffi_function_count);
        sub.program_counter = program_counter;
        sub.memory.set_parameter_stack(self.memory.get_parameter_stack());
        assert(sub@.memory =~= subvm(self@, program_counter).memory);
        sub
    }

    /// Whether a stack of this machine holds a reference to heap frame `address`.
    pub fn has_reference(&self, address: SharkyHeapFrameIndex) -> (r: bool)
        ensures
            r == self@.memory.has_heap_ref(address),
    {
        self.memory.has_heap_ref(address)
    }

    pub fn get_program_counter(&self) -> (r: usize)
        ensures
            r == self@.program_counter,
    {
        self.program_counter
    }

    pub fn set_program_counter(&mut self, index: usize)
        ensures
            final(self)@ == (VmModel { program_counter: index, ..old(self)@ }),
            final(self).program() == old(self).program(),
    {
        self.program_counter = index;
    }

    /// Stops the machine.
    pub fn stop(&mut self)
        ensures
            final(self)@ == (VmModel { running: false, ..old(self)@ }),
            final(self).program() == old(self).program(),
    {
        self.running = false;
    }

    pub fn get_memory(&self) -> (r: &SharkyMemoryLayout)
        ensures
            r@ == self@.memory,
    {
        &self.memory
    }

    pub fn is_running(&self) -> (r: bool)
        ensures
            r == self@.running,
    {
        self.running
    }

    /// The number of instructions in the program.
    pub fn program_len(&self) -> (r: usize)
        ensures
            r == self.program().len(),
    {
        self.program_memory.len()
    }

    // ------------------------------------------------------------ stacks

    fn read_active_stack(&self, index: usize) -> (r: Result<SharkyDataType, SharkyInterrupt>)
        ensures
            data_result(r) == read_active(self@.memory, index),
    {
        match self.memory.get_active_stack() {
            None => Err(SharkyInterrupt::InvalidSelectedStack),
            Some(s) => match s.read(index) {
                Some(v) => Ok(v.clone()),
                None => Err(SharkyInterrupt::InvalidStackObjectIndex),
            },
        }
    }

    fn push_active_stack(&mut self, value: SharkyDataType) -> (r: SharkyInterpreterStatus)
        ensures
            final(self).program() == old(self).program(),
            match push_active(old(self)@.memory, value@) {
                Ok(m) => r is Ok && final(self)@ == (VmModel { memory: m, ..old(self)@ }),
                Err(e) => r == Err::<(), SharkyInterrupt>(e) && final(self)@ == old(self)@,
            },
    {
        let ghost v = value@;
        match self.memory.get_active_stack_mut() {
            None => Err(SharkyInterrupt::InvalidSelectedStack),
            Some(s) => {
                let ghost s0 = s@;
                s.push(value);
                assert(data_model(s@) =~= data_model(s0).push(v));
                Ok(())
            },
        }
    }

    fn write_active_stack(&mut self, index: usize, value: SharkyDataType) -> (r: SharkyInterpreterStatus)
        ensures
            final(self).program() == old(self).program(),
            match write_active(old(self)@.memory, index, value@) {
                Ok(m) => r is Ok && final(self)@ == (VmModel { memory: m, ..old(self)@ }),
                Err(e) => r == Err::<(), SharkyInterrupt>(e) && final(self)@ == old(self)@,
            },
    {
        let ghost v = value@;
        proof {
            if self@.memory.active_stack_mut() is Some {
                self@.memory.lemma_with_active_stack_unchanged();
            }
        }
        match self.memory.get_active_stack_mut() {
            None => Err(SharkyInterrupt::InvalidSelectedStack),
            Some(s) => {
                if index < s.size() {
                    let ghost s0 = s@;
                    s.set(index, value);
                    assert(data_model(s@) =~= data_model(s0).update(index as int, v));
                    Ok(())
                } else {
                    Err(SharkyInterrupt::InvalidStackObjectIndex)
                }
            },
        }
    }

    fn push_operational_stack(&mut self, value: SharkyDataType)
        ensures
            final(self).program() == old(self).program(),
            final(self)@ == (VmModel {
                memory: push_operational(old(self)@.memory, value@),
                ..old(self)@
            }),
    {
        let ghost v = value@;
        let s = self.memory.get_operational_stack();
        let ghost s0 = s@;
        s.push(value);
        assert(data_model(s@) =~= data_model(s0).push(v));
    }

    /// The value an operand stands for.
    fn read_parameter(&self, parameter: &OpParameter) -> (r: Result<SharkyDataType, SharkyInterrupt>)
        ensures
            data_result(r) == read_param(self@.memory, parameter@),
    {
        match parameter {
            OpParameter::Constant(val) => Ok(val.clone()),
            OpParameter::Index(val) => self.read_active_stack(*val),
            OpParameter::Pointer(index) => {
                let ptr = self.read_active_stack(*index)?;
                match ptr {
                    SharkyDataType::Max(ptr_index) => self.read_active_stack(ptr_index),
                    _ => Err(SharkyInterrupt::NonIndexValue),
                }
            },
            OpParameter::Empty => Ok(SharkyDataType::Nil),
        }
    }

    /// The plain value of kind `T` an operand stands for.
    fn read_parameter_val<T: SharkyValue>(&self, parameter: &OpParameter) -> (r: Result<
        T,
        SharkyInterrupt,
    >)
        ensures
            r == read_param_val::<T>(self@.memory, parameter@),
    {
        match parameter {
            OpParameter::Constant(val) => match T::from_data(val) {
                Some(x) => Ok(x),
                None => Err(SharkyInterrupt::InvalidParameter),
            },
            OpParameter::Index(val) => {
                let v = self.read_active_stack(*val)?;
                match T::from_data(&v) {
                    Some(x) => Ok(x),
                    None => Err(SharkyInterrupt::InvalidParameter),
                }
            },
            OpParameter::Pointer(index) => {
                let ptr = self.read_active_stack(*index)?;
                match ptr {
                    SharkyDataType::Max(ptr_index) => {
                        let v = self.read_active_stack(ptr_index)?;
                        match T::from_data(&v) {
                            Some(x) => Ok(x),
                            None => Err(SharkyInterrupt::TypeMismatch),
                        }
                    },
                    _ => Err(SharkyInterrupt::NonIndexValue),
                }
            },
            OpParameter::Empty => Err(SharkyInterrupt::InvalidParameter),
        }
    }

    fn exec_select_stack(
        &mut self,
        Ghost(h): Ghost<HeapModel>,
        stack_index: &OpParameter,
        mode: SelectStackMode,
    ) -> (r: Result<SharkyAction, SharkyInterrupt>)
        ensures
            final(self).program() == old(self).program(),
            (final(self)@, h, outcome_model(r)) == step_select_stack(
                old(self)@,
                h,
                stack_index@,
                mode,
            ),
    {
        let stack_index: SharkyMax = self.read_parameter_val(stack_index)?;
        match mode {
            SelectStackMode::Fixed => {
                let u8_mode = stack_index as u8;
                let fixed_stack = match FixedStackMode::try_from_u8(u8_mode) {
                    Some(f) => f,
                    None => return Err(SharkyInterrupt::InvalidStackMode),
                };
                match fixed_stack {
                    FixedStackMode::Operative => self.memory.set_stack_mode(SharkyStackMode::Operative),
                    FixedStackMode::Transitional => self.memory.set_stack_mode(
                        SharkyStackMode::Transitional,
                    ),
                    FixedStackMode::Parameter => self.memory.set_stack_mode(SharkyStackMode::Parameter),
                }
            },
            SelectStackMode::Indexed => {
                self.memory.set_stack_mode(SharkyStackMode::Indexed);
                self.memory.select_local_stack(stack_index);
            },
        }
        Ok(SharkyAction::Continue)
    }

    fn exec_copy_to_transition(&mut self, Ghost(h): Ghost<HeapModel>, src_: &OpParameter) -> (r: Result<
        SharkyAction,
        SharkyInterrupt,
    >)
        ensures
            final(self).program() == old(self).program(),
            (final(self)@, h, outcome_model(r)) == step_copy_to_transition(old(self)@, h, src_@),
    {
        let src: SharkyMax = self.read_parameter_val(src_)?;
        let val = self.read_active_stack(src)?;
        let ghost v = val@;
        let t = self.memory.get_transitional_stack();
        let ghost t0 = t@;
        t.push(val);
        assert(data_model(t@) =~= data_model(t0).push(v));
        Ok(SharkyAction::Continue)
    }

    fn exec_copy_from_transition(&mut self, Ghost(h): Ghost<HeapModel>, src_: &OpParameter) -> (r: Result<
        SharkyAction,
        SharkyInterrupt,
    >)
        ensures
            final(self).program() == old(self).program(),
            (final(self)@, h, outcome_model(r)) == step_copy_from_transition(old(self)@, h, src_@),
    {
        let src: SharkyMax = self.read_parameter_val(src_)?;
        let value = match self.memory.get_transitional_stack().read(src) {
            Some(v) => v.clone(),
            None => return Err(SharkyInterrupt::InvalidStackObjectIndex),
        };
        self.push_active_stack(value)?;
        Ok(SharkyAction::Continue)
    }

    fn exec_push(&mut self, Ghost(h): Ghost<HeapModel>, value: &SharkyDataType) -> (r: Result<
        SharkyAction,
        SharkyInterrupt,
    >)
        ensures
            final(self).program() == old(self).program(),
            (final(self)@, h, outcome_model(r)) == step_push(old(self)@, h, value@),
    {
        self.push_active_stack(value.clone())?;
        Ok(SharkyAction::Continue)
    }

    /// A conversion that does not involve floating point.
    fn convert_to(value: SharkyDataType, mode: ConversionMode) -> (r: Result<
        SharkyDataType,
        SharkyInterrupt,
    >)
        ensures
            data_result(r) == convert_to(value@, mode),
    {
        let converted = match mode {
            ConversionMode::Max => value.to_max(),
            ConversionMode::Int => value.to_int(),
            ConversionMode::Byte => value.to_byte(),
            ConversionMode::Bool => value.to_bool(),
            ConversionMode::HeapReference => value.to_heap_reference(),
            _ => None,
        };
        match converted {
            Some(x) => Ok(x),
            None => Err(SharkyInterrupt::TypeMismatch),
        }
    }

    fn exec_convert(&mut self, Ghost(h): Ghost<HeapModel>, src_: &OpParameter, mode: ConversionMode) -> (r: Result<
        SharkyAction,
        SharkyInterrupt,
    >)
        ensures
            final(self).program() == old(self).program(),
            (final(self)@, h, outcome_model(r)) == step_convert(old(self)@, h, src_@, mode),
    {
        let src = self.read_parameter(src_)?;
        let is_real = match src {
            SharkyDataType::Real(_) => true,
            _ => false,
        };
        let real_mode = match mode {
            ConversionMode::Real => true,
            _ => false,
        };
        let float_target = match mode {
            ConversionMode::Max | ConversionMode::Int | ConversionMode::Byte | ConversionMode::Bool => true,
            _ => false,
        };
        if real_mode || (is_real && float_target) {
            return Ok(
                SharkyAction::RealOp(
                    SharkyRealRequest { op: SharkyRealOp::Convert(mode), lhs: src, rhs: SharkyDataType::Nil },
                ),
            );
        }
        let converted = Self::convert_to(src, mode)?;
        self.push_active_stack(converted)?;
        Ok(SharkyAction::Continue)
    }

    fn exec_nilify(&mut self, Ghost(h): Ghost<HeapModel>, dest_: &OpParameter) -> (r: Result<
        SharkyAction,
        SharkyInterrupt,
    >)
        ensures
            final(self).program() == old(self).program(),
            (final(self)@, h, outcome_model(r)) == step_nilify(old(self)@, h, dest_@),
    {
        let dest: SharkyMax = self.read_parameter_val(dest_)?;
        self.write_active_stack(dest, SharkyDataType::Nil)?;
        Ok(SharkyAction::Continue)
    }

    fn exec_assign(&mut self, Ghost(h): Ghost<HeapModel>, dest_: &OpParameter, src_: &OpParameter) -> (r: Result<
        SharkyAction,
        SharkyInterrupt,
    >)
        ensures
            final(self).program() == old(self).program(),
            (final(self)@, h, outcome_model(r)) == step_assign(old(self)@, h, dest_@, src_@),
    {
        let dest: SharkyMax = self.read_parameter_val(dest_)?;
        let src = self.read_parameter(src_)?;
        self.write_active_stack(dest, src)?;
        Ok(SharkyAction::Continue)
    }

    fn exec_copy(&mut self, Ghost(h): Ghost<HeapModel>, src_: &OpParameter) -> (r: Result<
        SharkyAction,
        SharkyInterrupt,
    >)
        ensures
            final(self).program() == old(self).program(),
            (final(self)@, h, outcome_model(r)) == step_copy(old(self)@, h, src_@),
    {
        let src_index: SharkyMax = self.read_parameter_val(src_)?;
        let src_val = self.read_active_stack(src_index)?;
        self.push_active_stack(src_val)?;
        Ok(SharkyAction::Continue)
    }

    fn exec_pop(&mut self, Ghost(h): Ghost<HeapModel>) -> (r: Result<SharkyAction, SharkyInterrupt>)
        ensures
            final(self).program() == old(self).program(),
            (final(self)@, h, outcome_model(r)) == step_pop(old(self)@, h),
    {
        match self.memory.get_active_stack_mut() {
            None => Err(SharkyInterrupt::InvalidSelectedStack),
            Some(s) => {
                let ghost s0 = s@;
                s.pop();
                assert(data_model(s@) =~= (if data_model(s0).len() > 0 {
                    data_model(s0).drop_last()
                } else {
                    data_model(s0)
                }));
                Ok(SharkyAction::Continue)
            },
        }
    }

    fn exec_clear(&mut self, Ghost(h): Ghost<HeapModel>) -> (r: Result<SharkyAction, SharkyInterrupt>)
        ensures
            final(self).program() == old(self).program(),
            (final(self)@, h, outcome_model(r)) == step_clear(old(self)@, h),
    {
        match self.memory.get_active_stack_mut() {
            None => Err(SharkyInterrupt::InvalidSelectedStack),
            Some(s) => {
                s.clear();
                assert(data_model(s@) =~= Seq::<DataModel>::empty());
                Ok(SharkyAction::Continue)
            },
        }
    }

    // ------------------------------------------------------ byte strings

    /// The byte string at `index` of the stack that writes go to, for
    /// writing; what is written through it is what the stack then holds.
    fn byte_string_mut(&mut self, index: SharkyMax) -> (r: Result<&mut CVec<SharkyByte>, SharkyInterrupt>)
        ensures
            final(self).program() == old(self).program(),
            match bytes_at(old(self)@.memory, index) {
                Ok(b) => r matches Ok(c) && (*c)@ == b && final(self)@ == (VmModel {
                    memory: with_bytes_at(old(self)@.memory, index, (*final(c))@),
                    ..old(self)@
                }),
                Err(e) => r matches Err(x) && x == e && final(self)@ == old(self)@,
            },
    {
        proof {
            if self@.memory.active_stack_mut() is Some {
                self@.memory.lemma_with_active_stack_unchanged();
            }
        }
        let s = match self.memory.get_active_stack_mut() {
            None => return Err(SharkyInterrupt::InvalidStackMode),
            Some(s) => s,
        };
        let v = s.get_vec_mut();
        if index >= v.len() {
            return Err(SharkyInterrupt::InvalidStackObjectIndex);
        }
        proof {
            assert forall|x: SharkyDataType|
                #[trigger] data_model(v@.update(index as int, x)) =~= data_model(v@).update(
                    index as int,
                    x@,
                ) by {}
            assert(v@.update(index as int, v@[index as int]) =~= v@);
        }
        let cell = &mut v[index];
        match cell {
            SharkyDataType::ByteString(b) => Ok(b),
            _ => Err(SharkyInterrupt::ByteStringOpOnNonBytestring),
        }
    }

    fn exec_fill_byte_string(&mut self, Ghost(h): Ghost<HeapModel>, dest_: &OpParameter, val_: &OpParameter) -> (r: Result<
        SharkyAction,
        SharkyInterrupt,
    >)
        ensures
            final(self).program() == old(self).program(),
            (final(self)@, h, outcome_model(r)) == step_fill_byte_string(old(self)@, h, dest_@, val_@),
    {
        let dest: SharkyMax = self.read_parameter_val(dest_)?;
        let val: SharkyByte = self.read_parameter_val(val_)?;
        let c = self.byte_string_mut(dest)?;
        let mut op = c.get_operator_mut();
        let v = op.as_vec_mut();
        let ghost n = v@.len();
        let mut i: usize = 0;
        while i < v.len()
            invariant
                v@.len() == n,
                0 <= i <= n,
                forall|j: int| 0 <= j < i ==> v@[j] == val,
            decreases n - i,
        {
            v.set(i, val);
            i = i + 1;
        }
        assert(v@ =~= Seq::new(n, |j: int| val));
        Ok(SharkyAction::Continue)
    }

    fn exec_extend_byte_string(&mut self, Ghost(h): Ghost<HeapModel>, dest_: &OpParameter, len_: &OpParameter) -> (r: Result<
        SharkyAction,
        SharkyInterrupt,
    >)
        requires
            !extend_overflows(old(self)@, dest_@, len_@),
        ensures
            final(self).program() == old(self).program(),
            (final(self)@, h, outcome_model(r)) == step_extend_byte_string(old(self)@, h, dest_@, len_@),
    {
        let dest: SharkyMax = self.read_parameter_val(dest_)?;
        let len: SharkyMax = self.read_parameter_val(len_)?;
        let c = self.byte_string_mut(dest)?;
        let mut op = c.get_operator_mut();
        let v = op.as_vec_mut();
        let ghost b = v@;
        let mut k: usize = 0;
        while k < len
            invariant
                0 <= k <= len,
                v@ == b + Seq::new(k as nat, |i: int| 0u8),
            decreases len - k,
        {
            v.push(0);
            assert(b + Seq::new((k + 1) as nat, |i: int| 0u8) =~= (b + Seq::new(k as nat, |i: int| 0u8)).push(0));
            k = k + 1;
        }
        Ok(SharkyAction::Continue)
    }

    fn exec_copy_to_byte_string(&mut self, Ghost(h): Ghost<HeapModel>, dest_: &OpParameter, src_: &OpParameter) -> (r: Result<
        SharkyAction,
        SharkyInterrupt,
    >)
        ensures
            final(self).program() == old(self).program(),
            (final(self)@, h, outcome_model(r)) == step_copy_to_byte_string(old(self)@, h, dest_@, src_@),
    {
        let dest: SharkyMax = self.read_parameter_val(dest_)?;
        let src: SharkyByte = self.read_parameter_val(src_)?;
        proof {
            if bytes_at(self@.memory, dest) is Ok {
                lemma_with_bytes_at_unchanged(self@.memory, dest);
            }
        }
        let c = self.byte_string_mut(dest)?;
        let mut op = c.get_operator_mut();
        let v = op.as_vec_mut();
        if dest < v.len() {
            v.set(dest, src);
            Ok(SharkyAction::Continue)
        } else {
            Err(SharkyInterrupt::InvalidStackObjectIndex)
        }
    }

    fn exec_copy_from_byte_string(&mut self, Ghost(h): Ghost<HeapModel>, dest_: &OpParameter, src_: &OpParameter) -> (r: Result<
        SharkyAction,
        SharkyInterrupt,
    >)
        ensures
            final(self).program() == old(self).program(),
            (final(self)@, h, outcome_model(r)) == step_copy_from_byte_string(old(self)@, h, dest_@, src_@),
    {
        let dest: SharkyMax = self.read_parameter_val(dest_)?;
        let src: SharkyMax = self.read_parameter_val(src_)?;
        proof {
            if bytes_at(self@.memory, src) is Ok {
                lemma_with_bytes_at_unchanged(self@.memory, src);
            }
        }
        let output = {
            let c = self.byte_string_mut(src)?;
            let op = c.get_operator();
            let v = op.as_vec();
            if dest < v.len() {
                SharkyDataType::Byte(v[dest])
            } else {
                return Err(SharkyInterrupt::InvalidStackObjectIndex);
            }
        };
        self.write_active_stack(dest, output)?;
        Ok(SharkyAction::Continue)
    }

    fn exec_append_byte_string(&mut self, Ghost(h): Ghost<HeapModel>, dest_: &OpParameter, src_: &OpParameter) -> (r: Result<
        SharkyAction,
        SharkyInterrupt,
    >)
        requires
            !append_panics(old(self)@, dest_@, src_@),
        ensures
            final(self).program() == old(self).program(),
            (final(self)@, h, outcome_model(r)) == step_append_byte_string(old(self)@, h, dest_@, src_@),
    {
        let dest: SharkyMax = self.read_parameter_val(dest_)?;
        let src: SharkyMax = self.read_parameter_val(src_)?;
        let ghost m0 = self@.memory;
        proof {
            if bytes_at(m0, src) is Ok {
                lemma_with_bytes_at_unchanged(m0, src);
            }
            if bytes_at(m0, dest) is Ok {
                lemma_with_bytes_at_unchanged(m0, dest);
            }
        }
        let mut copy_data: Vec<u8> = Vec::new();
        {
            let c = self.byte_string_mut(src)?;
            let op = c.get_operator();
            assert(op.spec_vec().len() == 0);
        }
        let c = self.byte_string_mut(dest)?;
        let mut op = c.get_operator_mut();
        let v = op.as_vec_mut();
        let ghost v0 = v@;
        v.append(&mut copy_data);
        assert(v@ =~= v0);
        Ok(SharkyAction::Continue)
    }

    fn exec_clear_byte_string(&mut self, Ghost(h): Ghost<HeapModel>, string_: &OpParameter) -> (r: Result<
        SharkyAction,
        SharkyInterrupt,
    >)
        ensures
            final(self).program() == old(self).program(),
            (final(self)@, h, outcome_model(r)) == step_clear_byte_string(old(self)@, h, string_@),
    {
        let string_index: SharkyMax = self.read_parameter_val(string_)?;
        let c = self.byte_string_mut(string_index)?;
        let mut op = c.get_operator_mut();
        let v = op.as_vec_mut();
        v.clear();
        Ok(SharkyAction::Continue)
    }

    fn exec_byte_string_size(&mut self, Ghost(h): Ghost<HeapModel>, string_: &OpParameter) -> (r: Result<
        SharkyAction,
        SharkyInterrupt,
    >)
        ensures
            final(self).program() == old(self).program(),
            (final(self)@, h, outcome_model(r)) == step_byte_string_size(old(self)@, h, string_@),
    {
        let string_index: SharkyMax = self.read_parameter_val(string_)?;
        proof {
            if bytes_at(self@.memory, string_index) is Ok {
                lemma_with_bytes_at_unchanged(self@.memory, string_index);
            }
        }
        let size = {
            let c = self.byte_string_mut(string_index)?;
            c.len()
        };
        self.push_active_stack(SharkyDataType::Max(size))?;
        Ok(SharkyAction::Continue)
    }

    fn exec_slice_byte_string(
        &mut self,
        Ghost(h): Ghost<HeapModel>,
        src_: &OpParameter,
        begin_: &OpParameter,
        end_: &OpParameter,
    ) -> (r: Result<SharkyAction, SharkyInterrupt>)
        ensures
            final(self).program() == old(self).program(),
            (final(self)@, h, outcome_model(r)) == step_slice_byte_string(
                old(self)@,
                h,
                src_@,
                begin_@,
                end_@,
            ),
    {
        let src: SharkyMax = self.read_parameter_val(src_)?;
        let begin: SharkyMax = self.read_parameter_val(begin_)?;
        let end: SharkyMax = self.read_parameter_val(end_)?;
        proof {
            if bytes_at(self@.memory, src) is Ok {
                lemma_with_bytes_at_unchanged(self@.memory, src);
            }
        }
        let output = {
            let c = self.byte_string_mut(src)?;
            let len = c.len();
            if begin > end || begin > len || end > len {
                return Err(SharkyInterrupt::InvalidStackObjectIndex);
            }
            let slice = vstd::slice::slice_subrange(c.as_slice(), begin, end);
            vstd::slice::slice_to_vec(slice)
        };
        self.push_active_stack(SharkyDataType::ByteString(CVec::from(output)))?;
        Ok(SharkyAction::Continue)
    }

    // --------------------------------------------------------- operators

    fn exec_arithmetic(
        &mut self,
        Ghost(h): Ghost<HeapModel>,
        lhs_: &OpParameter,
        rhs_: &OpParameter,
        mode: ArithmeticMode,
    ) -> (r: Result<SharkyAction, SharkyInterrupt>)
        ensures
            final(self).program() == old(self).program(),
            (final(self)@, h, outcome_model(r)) == step_arithmetic(old(self)@, h, lhs_@, rhs_@, mode),
    {
        let lhs = self.read_parameter(lhs_)?;
        let rhs = self.read_parameter(rhs_)?;
        if is_real(&lhs) || is_real(&rhs) {
            return Ok(
                SharkyAction::RealOp(
                    SharkyRealRequest { op: arithmetic_real_op(mode), lhs, rhs },
                ),
            );
        }
        let result = match mode {
            ArithmeticMode::Add => SharkyDataType::try_add(lhs, rhs),
            ArithmeticMode::Subtract => SharkyDataType::try_subtract(lhs, rhs),
            ArithmeticMode::Multiply => SharkyDataType::try_multiply(lhs, rhs),
            ArithmeticMode::Divide => SharkyDataType::try_divide(lhs, rhs),
            ArithmeticMode::Mod => SharkyDataType::try_mod(lhs, rhs),
        };
        match result {
            Some(v) => {
                self.push_operational_stack(v);
                Ok(SharkyAction::Continue)
            },
            None => Err(SharkyInterrupt::InvalidOp),
        }
    }

    fn exec_bitwise(
        &mut self,
        Ghost(h): Ghost<HeapModel>,
        lhs_: &OpParameter,
        rhs_: &OpParameter,
        mode: BitwiseMode,
    ) -> (r: Result<SharkyAction, SharkyInterrupt>)
        ensures
            final(self).program() == old(self).program(),
            (final(self)@, h, outcome_model(r)) == step_bitwise(old(self)@, h, lhs_@, rhs_@, mode),
    {
        let lhs = self.read_parameter(lhs_)?;
        let rhs = self.read_parameter(rhs_)?;
        let result = match mode {
            BitwiseMode::ShiftLeft => SharkyDataType::try_shift_left(lhs, rhs),
            BitwiseMode::ShiftRight => SharkyDataType::try_shift_right(lhs, rhs),
            BitwiseMode::And => SharkyDataType::try_bitwise_and(lhs, rhs),
            BitwiseMode::Or => SharkyDataType::try_bitwise_or(lhs, rhs),
            BitwiseMode::Xor => SharkyDataType::try_bitwise_xor(lhs, rhs),
            BitwiseMode::Not => SharkyDataType::try_bitwise_not(lhs),
        };
        match result {
            Some(v) => {
                self.push_operational_stack(v);
                Ok(SharkyAction::Continue)
            },
            None => Err(SharkyInterrupt::InvalidOp),
        }
    }

    fn exec_comparison(
        &mut self,
        Ghost(h): Ghost<HeapModel>,
        lhs_: &OpParameter,
        rhs_: &OpParameter,
        mode: ComparisonMode,
    ) -> (r: Result<SharkyAction, SharkyInterrupt>)
        ensures
            final(self).program() == old(self).program(),
            (final(self)@, h, outcome_model(r)) == step_comparison(old(self)@, h, lhs_@, rhs_@, mode),
    {
        let lhs = self.read_parameter(lhs_)?;
        let rhs = self.read_parameter(rhs_)?;
        match mode {
            ComparisonMode::And => {
                let result = match (&lhs, &rhs) {
                    (SharkyDataType::Bool(lbool), SharkyDataType::Bool(rbool)) => SharkyDataType::Bool(
                        *lbool == *rbool,
                    ),
                    _ => return Err(SharkyInterrupt::InvalidOp),
                };
                self.push_operational_stack(result);
                return Ok(SharkyAction::Continue);
            },
            ComparisonMode::Or => {
                let result = match (&lhs, &rhs) {
                    (SharkyDataType::Bool(lbool), SharkyDataType::Bool(rbool)) => SharkyDataType::Bool(
                        *lbool || *rbool,
                    ),
                    _ => return Err(SharkyInterrupt::InvalidOp),
                };
                self.push_operational_stack(result);
                return Ok(SharkyAction::Continue);
            },
            _ => {},
        }
        if is_real(&lhs) || is_real(&rhs) {
            return Ok(
                SharkyAction::RealOp(
                    SharkyRealRequest { op: comparison_real_op(mode), lhs, rhs },
                ),
            );
        }
        match mode {
            ComparisonMode::Equals => {
                match SharkyDataType::try_equals(lhs, rhs) {
                    Some(v) => self.push_operational_stack(v),
                    None => return Err(SharkyInterrupt::InvalidOp),
                }
            },
            ComparisonMode::NotEquals => {
                match SharkyDataType::try_equals(lhs, rhs) {
                    Some(SharkyDataType::Bool(val)) => self.push_operational_stack(
                        SharkyDataType::Bool(!val),
                    ),
                    Some(_) => {},
                    None => return Err(SharkyInterrupt::InvalidOp),
                }
            },
            ComparisonMode::GreaterThan => {
                match SharkyDataType::try_greater_than(lhs, rhs) {
                    Some(v) => self.push_operational_stack(v),
                    None => return Err(SharkyInterrupt::InvalidOp),
                }
            },
            ComparisonMode::LessThan => {
                match SharkyDataType::try_less_than(lhs, rhs) {
                    Some(v) => self.push_operational_stack(v),
                    None => return Err(SharkyInterrupt::InvalidOp),
                }
            },
            ComparisonMode::GreaterThanOrEquals => {
                let greater = match SharkyDataType::try_greater_than(lhs.clone(), rhs.clone()) {
                    Some(v) => v,
                    None => return Err(SharkyInterrupt::InvalidOp),
                };
                if let SharkyDataType::Bool(greater_than) = greater {
                    let equal = match SharkyDataType::try_equals(lhs, rhs) {
                        Some(v) => v,
                        None => return Err(SharkyInterrupt::InvalidOp),
                    };
                    if let SharkyDataType::Bool(equal_to) = equal {
                        self.push_operational_stack(SharkyDataType::Bool(greater_than || equal_to));
                    }
                }
            },
            _ => {
                let less = match SharkyDataType::try_less_than(lhs.clone(), rhs.clone()) {
                    Some(v) => v,
                    None => return Err(SharkyInterrupt::InvalidOp),
                };
                if let SharkyDataType::Bool(less_than) = less {
                    let equal = match SharkyDataType::try_equals(lhs, rhs) {
                        Some(v) => v,
                        None => return Err(SharkyInterrupt::InvalidOp),
                    };
                    if let SharkyDataType::Bool(equal_to) = equal {
                        self.push_operational_stack(SharkyDataType::Bool(less_than || equal_to));
                    }
                }
            },
        }
        Ok(SharkyAction::Continue)
    }

    fn exec_not_bool(&mut self, Ghost(h): Ghost<HeapModel>, val_: &OpParameter) -> (r: Result<
        SharkyAction,
        SharkyInterrupt,
    >)
        ensures
            final(self).program() == old(self).program(),
            (final(self)@, h, outcome_model(r)) == step_not_bool(old(self)@, h, val_@),
    {
        let val: SharkyBool = self.read_parameter_val(val_)?;
        self.push_active_stack(SharkyDataType::Bool(!val))?;
        Ok(SharkyAction::Continue)
    }
}

/// Whether a value is a Real.
fn is_real(v: &SharkyDataType) -> (r: bool)
    ensures
        r == (v@ is Real),
{
    match v {
        SharkyDataType::Real(_) => true,
        _ => false,
    }
}

fn arithmetic_real_op(mode: ArithmeticMode) -> (r: SharkyRealOp)
    ensures
        r == crate::vm_semantics::arithmetic_real_op(mode),
{
    match mode {
        ArithmeticMode::Add => SharkyRealOp::Add,
        ArithmeticMode::Subtract => SharkyRealOp::Subtract,
        ArithmeticMode::Multiply => SharkyRealOp::Multiply,
        ArithmeticMode::Divide => SharkyRealOp::Divide,
        ArithmeticMode::Mod => SharkyRealOp::Mod,
    }
}

fn comparison_real_op(mode: ComparisonMode) -> (r: SharkyRealOp)
    ensures
        r == crate::vm_semantics::comparison_real_op(mode),
{
    match mode {
        ComparisonMode::Equals => SharkyRealOp::Equals,
        ComparisonMode::NotEquals => SharkyRealOp::NotEquals,
        ComparisonMode::GreaterThan => SharkyRealOp::GreaterThan,
        ComparisonMode::LessThan => SharkyRealOp::LessThan,
        ComparisonMode::GreaterThanOrEquals => SharkyRealOp::GreaterThanOrEquals,
        _ => SharkyRealOp::LessThanOrEquals,
    }
}

impl SharkyVM {
    // ------------------------------------------------ control, heap, tasks

    fn exec_goto(&mut self, Ghost(h): Ghost<HeapModel>, a: &OpParameter) -> (r: Result<
        SharkyAction,
        SharkyInterrupt,
    >)
        ensures
            final(self).program() == old(self).program(),
            (final(self)@, h, outcome_model(r)) == step_goto(old(self)@, h, a@),
    {
        self.program_counter = self.read_parameter_val(a)?;
        Ok(SharkyAction::Continue)
    }

    fn exec_logical_goto(
        &mut self,
        Ghost(h): Ghost<HeapModel>,
        to_: &OpParameter,
        check_: &OpParameter,
        condition: LogicMode,
    ) -> (r: Result<SharkyAction, SharkyInterrupt>)
        ensures
            final(self).program() == old(self).program(),
            (final(self)@, h, outcome_model(r)) == step_logical_goto(
                old(self)@,
                h,
                to_@,
                check_@,
                condition,
            ),
    {
        let check: SharkyBool = self.read_parameter_val(check_)?;
        let to: SharkyMax = self.read_parameter_val(to_)?;
        match condition {
            LogicMode::If => {
                if check {
                    self.program_counter = to;
                }
            },
            LogicMode::IfNot => {
                if !check {
                    self.program_counter = to;
                }
            },
        }
        Ok(SharkyAction::Continue)
    }

    fn exec_heap(&mut self, heap: &mut SharkyHeap, mode: HeapOpMode) -> (r: Result<
        SharkyAction,
        SharkyInterrupt,
    >)
        requires
            !heap_op_panics(old(self)@, old(heap)@, mode),
        ensures
            final(self).program() == old(self).program(),
            (final(self)@, final(heap)@, outcome_model(r)) == step_heap(
                old(self)@,
                old(heap)@,
                mode,
                old(heap).vacant_key(),
            ),
    {
        match mode {
            HeapOpMode::Create => {
                let address = heap.allocate();
                self.push_active_stack(SharkyDataType::HeapReference(address))?;
            },
            HeapOpMode::Clone => {
                let address = match heap.clone_frame(self.selected_frame) {
                    Some(a) => a,
                    None => return Err(SharkyInterrupt::InvalidHeapIndex),
                };
                self.push_active_stack(SharkyDataType::HeapReference(address))?;
            },
            HeapOpMode::NewItem => {
                match heap.push(self.selected_frame, &SharkyDataType::Nil) {
                    Some(()) => {},
                    None => return Err(SharkyInterrupt::InvalidHeapIndex),
                }
            },
            HeapOpMode::Size => {
                let size = match heap.size_frame(self.selected_frame) {
                    Some(s) => s,
                    None => return Err(SharkyInterrupt::InvalidHeapIndex),
                };
                self.push_active_stack(SharkyDataType::Max(size))?;
            },
        }
        Ok(SharkyAction::Continue)
    }

    fn exec_select_heap(&mut self, Ghost(h): Ghost<HeapModel>, index_: &OpParameter) -> (r: Result<
        SharkyAction,
        SharkyInterrupt,
    >)
        ensures
            final(self).program() == old(self).program(),
            (final(self)@, h, outcome_model(r)) == step_select_heap(old(self)@, h, index_@),
    {
        let index: SharkyMax = self.read_parameter_val(index_)?;
        self.selected_frame = index;
        Ok(SharkyAction::Continue)
    }

    fn exec_copy_to_heap_item(&mut self, heap: &mut SharkyHeap, dest_: &OpParameter, src_: &OpParameter) -> (r: Result<
        SharkyAction,
        SharkyInterrupt,
    >)
        ensures
            final(self).program() == old(self).program(),
            (final(self)@, final(heap)@, outcome_model(r)) == step_copy_to_heap_item(
                old(self)@,
                old(heap)@,
                dest_@,
                src_@,
            ),
    {
        let dest: SharkyMax = self.read_parameter_val(dest_)?;
        let src = self.read_parameter(src_)?;
        match heap.set(self.selected_frame, dest, &src) {
            Some(()) => Ok(SharkyAction::Continue),
            None => Err(SharkyInterrupt::InvalidHeapIndex),
        }
    }

    fn exec_copy_from_heap_item(&mut self, heap: &SharkyHeap, dest_: &OpParameter, src_: &OpParameter) -> (r: Result<
        SharkyAction,
        SharkyInterrupt,
    >)
        ensures
            final(self).program() == old(self).program(),
            (final(self)@, heap@, outcome_model(r)) == step_copy_from_heap_item(
                old(self)@,
                heap@,
                dest_@,
                src_@,
            ),
    {
        let dest: SharkyMax = self.read_parameter_val(dest_)?;
        let src: SharkyMax = self.read_parameter_val(src_)?;
        let heap_val = match heap.read(self.selected_frame, src) {
            Some(v) => v,
            None => return Err(SharkyInterrupt::InvalidHeapIndex),
        };
        self.write_active_stack(dest, heap_val)?;
        Ok(SharkyAction::Continue)
    }

    fn exec_spawn_subtask(&mut self, Ghost(h): Ghost<HeapModel>, a: &OpParameter) -> (r: Result<
        SharkyAction,
        SharkyInterrupt,
    >)
        ensures
            final(self).program() == old(self).program(),
            spawned_program(r, old(self).program()),
            (final(self)@, h, outcome_model(r)) == step_spawn_subtask(old(self)@, h, a@),
    {
        let param_a: SharkyMax = self.read_parameter_val(a)?;
        let subtask = self.new_subvm(param_a);
        Ok(SharkyAction::SpawnSubtask(subtask))
    }

    fn exec_ffi_call(&mut self, Ghost(h): Ghost<HeapModel>, a: &OpParameter) -> (r: Result<
        SharkyAction,
        SharkyInterrupt,
    >)
        ensures
            final(self).program() == old(self).program(),
            (final(self)@, h, outcome_model(r)) == step_ffi_call(old(self)@, h, a@),
    {
        let param_a: SharkyMax = self.read_parameter_val(a)?;
        if param_a < self.ffi_function_count {
            Ok(SharkyAction::FFICall(param_a))
        } else {
            Err(SharkyInterrupt::InvalidFFICall)
        }
    }

    // ------------------------------------------------------------- step

    /// Executes one instruction, before the program counter moves on.
    fn execute(&mut self, heap: &mut SharkyHeap, instruction: &SharkyInstruction) -> (r: Result<
        SharkyAction,
        SharkyInterrupt,
    >)
        requires
            !execute_panics(old(self)@, old(heap)@, *instruction),
        ensures
            final(self).program() == old(self).program(),
            spawned_program(r, old(self).program()),
            (final(self)@, final(heap)@, outcome_model(r)) == execute(
                old(self)@,
                old(heap)@,
                *instruction,
                old(heap).vacant_key(),
            ),
    {
        let ghost h = heap@;
        match instruction {
            SharkyInstruction::NoOperation => Ok(SharkyAction::Continue),
            SharkyInstruction::SelectStack(p, mode) => self.exec_select_stack(Ghost(h), p, *mode),
            SharkyInstruction::PushStack => {
                self.memory.new_local_stack();
                Ok(SharkyAction::Continue)
            },
            SharkyInstruction::PopStack => {
                self.memory.pop_local_stack();
                Ok(SharkyAction::Continue)
            },
            SharkyInstruction::CopyToTransition(p) => self.exec_copy_to_transition(Ghost(h), p),
            SharkyInstruction::CopyFromTransition(p) => self.exec_copy_from_transition(Ghost(h), p),
            SharkyInstruction::Push(v) => self.exec_push(Ghost(h), v),
            SharkyInstruction::Convert(p, mode) => self.exec_convert(Ghost(h), p, *mode),
            SharkyInstruction::Copy(p) => self.exec_copy(Ghost(h), p),
            SharkyInstruction::Nilify(p) => self.exec_nilify(Ghost(h), p),
            SharkyInstruction::Assign(d, s) => self.exec_assign(Ghost(h), d, s),
            SharkyInstruction::Pop => self.exec_pop(Ghost(h)),
            SharkyInstruction::Clear => self.exec_clear(Ghost(h)),
            SharkyInstruction::Heap(mode) => self.exec_heap(heap, *mode),
            SharkyInstruction::SelectHeap(p) => self.exec_select_heap(Ghost(h), p),
            SharkyInstruction::CopyToHeapItem(d, s) => self.exec_copy_to_heap_item(heap, d, s),
            SharkyInstruction::CopyFromHeapItem(d, s) => self.exec_copy_from_heap_item(heap, d, s),
            SharkyInstruction::FillByteStringWithValue(d, v) => self.exec_fill_byte_string(
                Ghost(h),
                d,
                v,
            ),
            SharkyInstruction::ExtendByteString(d, l) => self.exec_extend_byte_string(Ghost(h), d, l),
            SharkyInstruction::CopyToByteString(d, s) => self.exec_copy_to_byte_string(Ghost(h), d, s),
            SharkyInstruction::CopyFromByteString(d, s) => self.exec_copy_from_byte_string(
                Ghost(h),
                d,
                s,
            ),
            SharkyInstruction::AppendByteString(d, s) => self.exec_append_byte_string(Ghost(h), d, s),
            SharkyInstruction::ClearByteString(p) => self.exec_clear_byte_string(Ghost(h), p),
            SharkyInstruction::ByteStringSize(p) => self.exec_byte_string_size(Ghost(h), p),
            SharkyInstruction::SliceByteString(s, b, e) => self.exec_slice_byte_string(
                Ghost(h),
                s,
                b,
                e,
            ),
            SharkyInstruction::ArithmeticOp(l, r, mode) => self.exec_arithmetic(Ghost(h), l, r, *mode),
            SharkyInstruction::BitwiseOp(l, r, mode) => self.exec_bitwise(Ghost(h), l, r, *mode),
            SharkyInstruction::ComparisonOp(l, r, mode) => self.exec_comparison(Ghost(h), l, r, *mode),
            SharkyInstruction::NotBool(p) => self.exec_not_bool(Ghost(h), p),
            SharkyInstruction::Goto(p) => self.exec_goto(Ghost(h), p),
            SharkyInstruction::LogicalGoto(t, c, mode) => self.exec_logical_goto(Ghost(h), t, c, *mode),
            SharkyInstruction::SpawnSubtask(p) => self.exec_spawn_subtask(Ghost(h), p),
            SharkyInstruction::EndTask => {
                self.running = false;
                Ok(SharkyAction::Continue)
            },
            SharkyInstruction::FFICall(p) => self.exec_ffi_call(Ghost(h), p),
        }
    }

    /// Moves on past the instruction at `prev_counter` unless the step
    /// jumped, and stops past the end of the program.
    fn finish_step(&mut self, prev_counter: usize)
        requires
            prev_counter < old(self).program().len(),
        ensures
            final(self).program() == old(self).program(),
            final(self)@ == finish(old(self)@, prev_counter, old(self).program().len()),
    {
        let program_memory_length = self.program_memory.len();
        if self.program_counter == prev_counter {
            self.program_counter = self.program_counter + 1;
        }
        if self.program_counter >= program_memory_length {
            self.running = false;
        }
    }

    /// Runs one step of the program against `heap`: nothing when the machine
    /// is stopped; `OutOfOps` past the end of the program; otherwise the
    /// current instruction, after which the machine moves on to the next
    /// instruction unless the instruction jumped, failed, or handed a
    /// floating-point operation to the host (see `complete_real_op`).
    pub fn interpret(&mut self, heap: &mut SharkyHeap) -> (r: Result<SharkyAction, SharkyInterrupt>)
        requires
            !step_panics(old(self)@, old(self).program(), old(heap)@),
        ensures
            old(self).program().len() <= usize::MAX,
            final(self).program() == old(self).program(),
            spawned_program(r, old(self).program()),
            (final(self)@, final(heap)@, outcome_model(r)) == step(
                old(self)@,
                old(self).program(),
                old(heap)@,
                old(heap).vacant_key(),
            ),
    {
        let _len: usize = self.program_memory.len();
        if !self.is_running() {
            return Ok(SharkyAction::Continue);
        }
        if self.program_counter >= self.program_memory.len() {
            return Err(SharkyInterrupt::OutOfOps);
        }
        let prev_counter = self.program_counter;
        let program = self.program_memory.clone();
        let current_instruction = &program[prev_counter];
        let action = self.execute(heap, current_instruction)?;
        if let SharkyAction::RealOp(_) = action {
            return Ok(action);
        }
        self.finish_step(prev_counter);
        Ok(action)
    }

    /// Whether the next step would panic (see `interpret`).
    pub fn step_would_panic(&self, heap: &SharkyHeap) -> (r: bool)
        ensures
            r == step_panics(self@, self.program(), heap@),
    {
        if !self.running || self.program_counter >= self.program_memory.len() {
            return false;
        }
        let program = self.program_memory.clone();
        let instruction = &program[self.program_counter];
        assert(*instruction == self.program()[self@.program_counter as int]);
        match instruction {
            SharkyInstruction::Heap(mode) => self.heap_op_would_panic(heap, *mode),
            SharkyInstruction::ExtendByteString(d, l) => self.extend_would_panic(d, l),
            SharkyInstruction::AppendByteString(d, s) => self.append_would_panic(d, s),
            _ => false,
        }
    }

    fn heap_op_would_panic(&self, heap: &SharkyHeap, mode: HeapOpMode) -> (r: bool)
        ensures
            r == heap_op_panics(self@, heap@, mode),
    {
        match mode {
            HeapOpMode::Create => heap.get_allocation_count() == usize::MAX,
            HeapOpMode::Clone => heap.size_frame(self.selected_frame).is_some()
                && heap.get_allocation_count() == usize::MAX,
            _ => false,
        }
    }

    fn extend_would_panic(&self, dest_: &OpParameter, len_: &OpParameter) -> (r: bool)
        ensures
            r == extend_overflows(self@, dest_@, len_@),
    {
        let dest: SharkyMax = match self.read_parameter_val(dest_) {
            Ok(v) => v,
            Err(_) => return false,
        };
        let len: SharkyMax = match self.read_parameter_val(len_) {
            Ok(v) => v,
            Err(_) => return false,
        };
        match self.byte_string_len(dest) {
            Some(n) => n as u128 + len as u128 > isize::MAX as u128,
            None => false,
        }
    }

    fn append_would_panic(&self, dest_: &OpParameter, src_: &OpParameter) -> (r: bool)
        ensures
            r == append_panics(self@, dest_@, src_@),
    {
        let dest_ok = self.read_parameter_val::<SharkyMax>(dest_).is_ok();
        let src: SharkyMax = match self.read_parameter_val(src_) {
            Ok(v) => v,
            Err(_) => return false,
        };
        if !dest_ok {
            return false;
        }
        match self.byte_string_len(src) {
            Some(n) => n > 0,
            None => false,
        }
    }

    /// The length of the byte string at `index` of the stack that writes go
    /// to, if there is one there.
    fn byte_string_len(&self, index: SharkyMax) -> (r: Option<usize>)
        ensures
            match bytes_at(self@.memory, index) {
                Ok(b) => r matches Some(n) && n == b.len(),
                Err(_) => r is None,
            },
    {
        let stack = match self.memory.stack_for_writes() {
            Some(s) => s,
            None => return None,
        };
        match stack.read(index) {
            Some(SharkyDataType::ByteString(b)) => Some(b.len()),
            _ => None,
        }
    }

    /// Finishes a step that handed a floating-point operation to the host,
    /// with the host's `result`: a conversion pushes it onto the stack that
    /// writes go to, any other operation onto the operational stack; no
    /// result interrupts with `TypeMismatch` for a conversion and `InvalidOp`
    /// otherwise. On success the machine moves on to the next instruction.
    pub fn complete_real_op(&mut self, op: SharkyRealOp, result: Option<SharkyDataType>) -> (r: SharkyInterpreterStatus)
        requires
            old(self)@.program_counter < old(self).program().len(),
        ensures
            final(self).program() == old(self).program(),
            (final(self)@, r) == complete_real(
                old(self)@,
                old(self).program().len(),
                op,
                opt_view(result),
            ),
    {
        let prev_counter = self.program_counter;
        match op {
            SharkyRealOp::Convert(_) => {
                let value = match result {
                    Some(v) => v,
                    None => return Err(SharkyInterrupt::TypeMismatch),
                };
                self.push_active_stack(value)?;
            },
            _ => {
                let value = match result {
                    Some(v) => v,
                    None => return Err(SharkyInterrupt::InvalidOp),
                };
                self.push_operational_stack(value);
            },
        }
        self.finish_step(prev_counter);
        Ok(())
    }
}

/// The machine after the host hands back the result of a floating-point
/// operation.
pub open spec fn complete_real(vm: VmModel, len: nat, op: SharkyRealOp, result: Option<DataModel>) -> (VmModel, SharkyInterpreterStatus) {
    match op {
        SharkyRealOp::Convert(_) => match result {
            None => (vm, Err(SharkyInterrupt::TypeMismatch)),
            Some(v) => match push_active(vm.memory, v) {
                Err(e) => (vm, Err(e)),
                Ok(m) => (finish(VmModel { memory: m, ..vm }, vm.program_counter, len), Ok(())),
            },
        },
        _ => match result {
            None => (vm, Err(SharkyInterrupt::InvalidOp)),
            Some(v) => (
                finish(VmModel { memory: push_operational(vm.memory, v), ..vm }, vm.program_counter, len),
                Ok(()),
            ),
        },
    }
}

} // verus!
