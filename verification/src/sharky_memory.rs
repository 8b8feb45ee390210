use vstd::prelude::*;
use vstd::std_specs::cmp::PartialEqSpec;
use vstd::std_specs::iter::IteratorSpec;

use slab::Slab;

use crate::sharky_data_types::{
    opt_view, DataModel, SharkyDataType, SharkyHeapCellIndex, SharkyHeapFrameIndex, SharkyStackMode,
};
use crate::slab_frames::{
    slab_frames, slab_get, slab_get_mut, slab_insert, slab_keys, slab_new, slab_remove,
    slab_vacant_key,
};

verus! {

/// What a value stored on a stack has to offer.
pub trait TypicalData: Clone + Default + PartialEq {}

impl<T> TypicalData for T where T: Clone + Default + PartialEq {}

/// A last-in, first-out stack. Its view is the sequence of items, bottom first.
pub struct SharkyStack<T> {
    stack: Vec<T>,
}

impl<T> View for SharkyStack<T> {
    type V = Seq<T>;

    closed spec fn view(&self) -> Seq<T> {
        self.stack@
    }
}

impl<T: Clone> Clone for SharkyStack<T> {
    /// A stack holding a clone of each item, in the same order.
    fn clone(&self) -> (r: Self)
        ensures
            r@.len() == self@.len(),
            forall|i: int| 0 <= i < self@.len() ==> cloned::<T>(self@[i], #[trigger] r@[i]),
    {
        SharkyStack { stack: self.stack.clone() }
    }
}

impl<T: TypicalData> SharkyStack<T> {
    /// An empty stack.
    pub fn default() -> (r: Self)
        ensures
            r@ == Seq::<T>::empty(),
    {
        Self { stack: Vec::new() }
    }

    /// The items as a vector, bottom first.
    pub fn get_vec(&self) -> (r: &Vec<T>)
        ensures
            r@ == self@,
    {
        &self.stack
    }

    /// The items as a vector that can be changed in place.
    pub fn get_vec_mut(&mut self) -> (r: &mut Vec<T>)
        ensures
            (*r)@ == old(self)@,
            final(self)@ == (*final(r))@,
    {
        &mut self.stack
    }

    /// Whether some item equals `value`.
    pub fn search(&self, value: &T) -> (r: bool)
        ensures
            T::obeys_eq_spec() ==> (r == exists|i: int|
                0 <= i < self@.len() && (#[trigger] self@[i]).eq_spec(value)),
    {
        let mut i: usize = 0;
        while i < self.stack.len()
            invariant
                0 <= i <= self@.len(),
                T::obeys_eq_spec() ==> forall|j: int| 0 <= j < i ==> !(#[trigger] self@[j]).eq_spec(value),
            decreases self@.len() - i,
        {
            if self.stack[i] == *value {
                return true;
            }
            i = i + 1;
        }
        false
    }

    /// An iterator over the items, bottom first.
    pub fn iter(&self) -> (r: std::slice::Iter<'_, T>)
        ensures
            r.remaining() == self@.map_values(|v: T| &v),
    {
        let it = self.stack.iter();
        assert(it.remaining() =~= self@.map_values(|v: T| &v));
        it
    }

    /// Removes the top item, if there is one.
    pub fn pop(&mut self)
        ensures
            old(self)@.len() > 0 ==> final(self)@ == old(self)@.drop_last(),
            old(self)@.len() == 0 ==> final(self)@ == old(self)@,
    {
        self.stack.pop();
    }

    /// Puts `data` on top.
    pub fn push(&mut self, data: T)
        ensures
            final(self)@ == old(self)@.push(data),
    {
        self.stack.push(data);
    }

    /// Replaces the item at `index` with `data`; an index past the top changes nothing.
    pub fn set(&mut self, index: usize, data: T)
        ensures
            index < old(self)@.len() ==> final(self)@ == old(self)@.update(index as int, data),
            index >= old(self)@.len() ==> final(self)@ == old(self)@,
    {
        if index < self.stack.len() {
            self.stack.set(index, data);
        }
    }

    /// The item at `index`, counted from the bottom.
    pub fn read(&self, index: usize) -> (r: Option<&T>)
        ensures
            index < self@.len() ==> r == Some(&self@[index as int]),
            index >= self@.len() ==> r is None,
    {
        if index < self.stack.len() {
            Some(&self.stack[index])
        } else {
            None
        }
    }

    /// The top item.
    pub fn read_top(&self) -> (r: Option<&T>)
        requires
            self@.len() > 0,
        ensures
            r == Some(&self@[self@.len() - 1]),
    {
        self.read(self.size() - 1)
    }

    /// The number of items.
    pub fn size(&self) -> (r: usize)
        ensures
            r == self@.len(),
    {
        self.stack.len()
    }

    /// Removes every item.
    pub fn clear(&mut self)
        ensures
            final(self)@ == Seq::<T>::empty(),
    {
        self.stack.clear();
    }
}

pub type SharkyDataStack = SharkyStack<SharkyDataType>;

/// The values of a stack, each taken by its view.
pub open spec fn data_model(s: Seq<SharkyDataType>) -> Seq<DataModel> {
    s.map_values(|v: SharkyDataType| v@)
}

/// Each stack of a sequence taken by the views of its values.
pub open spec fn stacks_model(s: Seq<SharkyDataStack>) -> Seq<Seq<DataModel>> {
    s.map_values(|t: SharkyDataStack| data_model(t@))
}

/// The memory of one machine, each stack taken by the views of its values.
pub struct MemoryModel {
    pub operational_stack: Seq<DataModel>,
    pub transitional_stack: Seq<DataModel>,
    pub parameter_stack: Seq<DataModel>,
    pub string_stack: Seq<DataModel>,
    pub local_stacks: Seq<Seq<DataModel>>,
    pub selected_local_stack: usize,
    pub stack_mode: SharkyStackMode,
}

impl MemoryModel {
    /// The stack that reads go to in the current mode, if there is one. In the
    /// transitional mode reads go to the operational stack.
    pub open spec fn active_stack(self) -> Option<Seq<DataModel>> {
        match self.stack_mode {
            SharkyStackMode::Indexed => if self.selected_local_stack < self.local_stacks.len() {
                Some(self.local_stacks[self.selected_local_stack as int])
            } else {
                None
            },
            SharkyStackMode::Transitional => Some(self.operational_stack),
            SharkyStackMode::Operative => Some(self.operational_stack),
            SharkyStackMode::Parameter => Some(self.parameter_stack),
            _ => None,
        }
    }

    /// The stack that writes go to in the current mode, if there is one.
    pub open spec fn active_stack_mut(self) -> Option<Seq<DataModel>> {
        match self.stack_mode {
            SharkyStackMode::Indexed => if self.selected_local_stack < self.local_stacks.len() {
                Some(self.local_stacks[self.selected_local_stack as int])
            } else {
                None
            },
            SharkyStackMode::Transitional => Some(self.transitional_stack),
            SharkyStackMode::Operative => Some(self.operational_stack),
            SharkyStackMode::Parameter => Some(self.parameter_stack),
            _ => None,
        }
    }

    /// This memory with the stack that writes go to replaced by `s`.
    pub open spec fn with_active_stack(self, s: Seq<DataModel>) -> MemoryModel {
        match self.stack_mode {
            SharkyStackMode::Indexed => MemoryModel {
                local_stacks: self.local_stacks.update(self.selected_local_stack as int, s),
                ..self
            },
            SharkyStackMode::Transitional => MemoryModel { transitional_stack: s, ..self },
            SharkyStackMode::Operative => MemoryModel { operational_stack: s, ..self },
            SharkyStackMode::Parameter => MemoryModel { parameter_stack: s, ..self },
            _ => self,
        }
    }

    /// Writing back the stack that writes go to changes nothing.
    pub proof fn lemma_with_active_stack_unchanged(self)
        requires
            self.active_stack_mut() is Some,
        ensures
            self.with_active_stack(self.active_stack_mut().unwrap()) == self,
    {
        if self.stack_mode == SharkyStackMode::Indexed {
            assert(self.local_stacks.update(
                self.selected_local_stack as int,
                self.local_stacks[self.selected_local_stack as int],
            ) =~= self.local_stacks);
        }
    }

    /// Whether a stack that the heap collector looks at holds a reference to `frame`.
    pub open spec fn has_heap_ref(self, frame: SharkyHeapFrameIndex) -> bool {
        let r = DataModel::HeapReference(frame);
        ||| self.transitional_stack.contains(r)
        ||| self.operational_stack.contains(r)
        ||| self.parameter_stack.contains(r)
        ||| exists|i: int| 0 <= i < self.local_stacks.len() && (#[trigger] self.local_stacks[i]).contains(r)
    }
}

/// The stacks of one machine.
pub struct SharkyMemoryLayout {
    operational_stack: SharkyDataStack,
    transitional_stack: SharkyDataStack,
    parameter_stack: SharkyDataStack,
    string_stack: SharkyDataStack,
    local_stacks: Vec<SharkyDataStack>,
    selected_local_stack: usize,
    stack_mode: SharkyStackMode,
}

impl View for SharkyMemoryLayout {
    type V = MemoryModel;

    closed spec fn view(&self) -> MemoryModel {
        MemoryModel {
            operational_stack: data_model(self.operational_stack@),
            transitional_stack: data_model(self.transitional_stack@),
            parameter_stack: data_model(self.parameter_stack@),
            string_stack: data_model(self.string_stack@),
            local_stacks: stacks_model(self.local_stacks@),
            selected_local_stack: self.selected_local_stack,
            stack_mode: self.stack_mode,
        }
    }
}

/// Whether a data stack holds `value` (by view), a value that is not a real.
fn search_data(stack: &SharkyDataStack, value: &SharkyDataType) -> (r: bool)
    requires
        !(value@ is Real),
    ensures
        r == data_model(stack@).contains(value@),
{
    let found = stack.search(value);
    proof {
        if found {
            let i = choose|i: int| 0 <= i < stack@.len() && (#[trigger] stack@[i]).eq_spec(value);
            assert(data_model(stack@)[i] == value@);
        } else {
            assert forall|i: int| 0 <= i < data_model(stack@).len() implies data_model(stack@)[i] != value@ by {
                assert(!stack@[i].eq_spec(value));
            }
        }
    }
    found
}

impl SharkyMemoryLayout {
    /// Empty stacks, with one local stack, selected, in the indexed mode.
    pub fn new() -> (r: Self)
        ensures
            r@ == (MemoryModel {
                operational_stack: Seq::empty(),
                transitional_stack: Seq::empty(),
                parameter_stack: Seq::empty(),
                string_stack: Seq::empty(),
                local_stacks: seq![Seq::empty()],
                selected_local_stack: 0,
                stack_mode: SharkyStackMode::Indexed,
            }),
    {
        let mut local_stacks: Vec<SharkyDataStack> = Vec::new();
        local_stacks.push(SharkyDataStack::default());
        let r = SharkyMemoryLayout {
            operational_stack: SharkyDataStack::default(),
            transitional_stack: SharkyDataStack::default(),
            parameter_stack: SharkyDataStack::default(),
            string_stack: SharkyDataStack::default(),
            local_stacks,
            selected_local_stack: 0,
            stack_mode: SharkyStackMode::Indexed,
        };
        assert(r@.local_stacks =~~= seq![Seq::<DataModel>::empty()]);
        assert(r@.operational_stack =~= Seq::<DataModel>::empty());
        assert(r@.transitional_stack =~= Seq::<DataModel>::empty());
        assert(r@.parameter_stack =~= Seq::<DataModel>::empty());
        assert(r@.string_stack =~= Seq::<DataModel>::empty());
        r
    }

    /// Whether the transitional, operational, parameter or a local stack
    /// holds a reference to heap frame `index`.
    pub fn has_heap_ref(&self, index: SharkyHeapFrameIndex) -> (r: bool)
        ensures
            r == self@.has_heap_ref(index),
    {
        let heap_value = SharkyDataType::HeapReference(index);
        if search_data(&self.transitional_stack, &heap_value) {
            return true;
        }
        if search_data(&self.operational_stack, &heap_value) {
            return true;
        }
        if search_data(&self.parameter_stack, &heap_value) {
            return true;
        }
        let mut i: usize = 0;
        while i < self.local_stacks.len()
            invariant
                0 <= i <= self.local_stacks@.len(),
                heap_value@ == DataModel::HeapReference(index),
                !self@.transitional_stack.contains(heap_value@),
                !self@.operational_stack.contains(heap_value@),
                !self@.parameter_stack.contains(heap_value@),
                forall|j: int| 0 <= j < i ==> !(#[trigger] self@.local_stacks[j]).contains(heap_value@),
            decreases self.local_stacks@.len() - i,
        {
            if search_data(&self.local_stacks[i], &heap_value) {
                assert(self@.local_stacks[i as int] == data_model(self.local_stacks@[i as int]@));
                return true;
            }
            assert(self@.local_stacks[i as int] == data_model(self.local_stacks@[i as int]@));
            i = i + 1;
        }
        false
    }

    pub fn set_stack_mode(&mut self, mode: SharkyStackMode)
        ensures
            final(self)@ == (MemoryModel { stack_mode: mode, ..old(self)@ }),
    {
        self.stack_mode = mode;
    }

    /// Adds an empty local stack after the others.
    pub fn new_local_stack(&mut self)
        ensures
            final(self)@ == (MemoryModel {
                local_stacks: old(self)@.local_stacks.push(Seq::empty()),
                ..old(self)@
            }),
    {
        self.local_stacks.push(SharkyDataStack::default());
        assert(self@.local_stacks =~~= old(self)@.local_stacks.push(Seq::empty()));
    }

    /// Removes the last local stack, if there is one.
    pub fn pop_local_stack(&mut self)
        ensures
            final(self)@ == (MemoryModel {
                local_stacks: if old(self)@.local_stacks.len() > 0 {
                    old(self)@.local_stacks.drop_last()
                } else {
                    old(self)@.local_stacks
                },
                ..old(self)@
            }),
    {
        self.local_stacks.pop();
        assert(self@.local_stacks =~= (if old(self)@.local_stacks.len() > 0 {
            old(self)@.local_stacks.drop_last()
        } else {
            old(self)@.local_stacks
        }));
    }

    /// Selects local stack `index`; whether it exists is checked when it is used.
    pub fn select_local_stack(&mut self, index: usize)
        ensures
            final(self)@ == (MemoryModel { selected_local_stack: index, ..old(self)@ }),
    {
        self.selected_local_stack = index;
    }

    pub fn get_transitional_stack(&mut self) -> (r: &mut SharkyDataStack)
        ensures
            data_model((*r)@) == old(self)@.transitional_stack,
            final(self)@ == (MemoryModel {
                transitional_stack: data_model((*final(r))@),
                ..old(self)@
            }),
    {
        &mut self.transitional_stack
    }

    pub fn get_parameter_stack_mut(&mut self) -> (r: &mut SharkyDataStack)
        ensures
            data_model((*r)@) == old(self)@.parameter_stack,
            final(self)@ == (MemoryModel { parameter_stack: data_model((*final(r))@), ..old(self)@ }),
    {
        &mut self.parameter_stack
    }

    pub fn get_parameter_stack(&self) -> (r: &SharkyDataStack)
        ensures
            data_model(r@) == self@.parameter_stack,
    {
        &self.parameter_stack
    }

    pub fn get_operational_stack(&mut self) -> (r: &mut SharkyDataStack)
        ensures
            data_model((*r)@) == old(self)@.operational_stack,
            final(self)@ == (MemoryModel {
                operational_stack: data_model((*final(r))@),
                ..old(self)@
            }),
    {
        &mut self.operational_stack
    }

    /// The operational stack, for reading.
    pub(crate) fn get_operational_stack_ref(&self) -> (r: &SharkyDataStack)
        ensures
            data_model(r@) == self@.operational_stack,
    {
        &self.operational_stack
    }

    /// Replaces the parameter stack with a copy of `stack`.
    pub fn set_parameter_stack(&mut self, stack: &SharkyDataStack)
        ensures
            final(self)@ == (MemoryModel { parameter_stack: data_model(stack@), ..old(self)@ }),
    {
        let copy = stack.clone();
        assert(data_model(copy@) =~= data_model(stack@)) by {
            assert forall|i: int| 0 <= i < stack@.len() implies copy@[i]@ == stack@[i]@ by {
                assert(cloned::<SharkyDataType>(stack@[i], copy@[i]));
            }
        }
        self.parameter_stack = copy;
    }

    /// The local stacks, in order.
    pub fn get_local_stacks(&self) -> (r: &Vec<SharkyDataStack>)
        ensures
            stacks_model(r@) == self@.local_stacks,
    {
        &self.local_stacks
    }

    /// The stack that writes go to in the current mode, if there is one.
    pub fn get_active_stack_mut(&mut self) -> (r: Option<&mut SharkyDataStack>)
        ensures
            match r {
                Some(s) => {
                    &&& old(self)@.active_stack_mut() == Some(data_model((*s)@))
                    &&& final(self)@ == old(self)@.with_active_stack(data_model((*final(s))@))
                },
                None => {
                    &&& old(self)@.active_stack_mut() is None
                    &&& final(self)@ == old(self)@
                },
            },
    {
        match self.stack_mode {
            SharkyStackMode::Indexed => {
                let selected = self.selected_local_stack;
                if selected < self.local_stacks.len() {
                    proof {
                        assert forall|x: SharkyDataStack|
                            #[trigger] stacks_model(self.local_stacks@.update(selected as int, x))
                                =~= self@.local_stacks.update(selected as int, data_model(x@)) by {}
                    }
                    let s = &mut self.local_stacks[selected];
                    Some(s)
                } else {
                    None
                }
            },
            SharkyStackMode::Transitional => Some(&mut self.transitional_stack),
            SharkyStackMode::Operative => Some(&mut self.operational_stack),
            SharkyStackMode::Parameter => Some(&mut self.parameter_stack),
            _ => None,
        }
    }

    /// The stack that writes go to in the current mode, for reading.
    pub(crate) fn stack_for_writes(&self) -> (r: Option<&SharkyDataStack>)
        ensures
            match r {
                Some(s) => self@.active_stack_mut() == Some(data_model(s@)),
                None => self@.active_stack_mut() is None,
            },
    {
        match self.stack_mode {
            SharkyStackMode::Indexed => {
                let selected = self.selected_local_stack;
                if selected < self.local_stacks.len() {
                    Some(&self.local_stacks[selected])
                } else {
                    None
                }
            },
            SharkyStackMode::Transitional => Some(&self.transitional_stack),
            SharkyStackMode::Operative => Some(&self.operational_stack),
            SharkyStackMode::Parameter => Some(&self.parameter_stack),
            _ => None,
        }
    }

    /// The stack that reads go to in the current mode, if there is one.
    pub fn get_active_stack(&self) -> (r: Option<&SharkyDataStack>)
        ensures
            match r {
                Some(s) => self@.active_stack() == Some(data_model(s@)),
                None => self@.active_stack() is None,
            },
    {
        match self.stack_mode {
            SharkyStackMode::Indexed => {
                let selected = self.selected_local_stack;
                if selected < self.local_stacks.len() {
                    Some(&self.local_stacks[selected])
                } else {
                    None
                }
            },
            SharkyStackMode::Transitional => Some(&self.operational_stack),
            SharkyStackMode::Operative => Some(&self.operational_stack),
            SharkyStackMode::Parameter => Some(&self.parameter_stack),
            _ => None,
        }
    }
}

/// The heap: its frames by index, each taken by the views of its values,
/// and how many frames were allocated since the count was last reset.
pub struct HeapModel {
    pub frames: Map<SharkyHeapFrameIndex, Seq<DataModel>>,
    pub allocation_count: usize,
}

impl HeapModel {
    /// Whether a cell of some frame holds a reference to `frame`.
    pub open spec fn has_reference(self, frame: SharkyHeapFrameIndex) -> bool {
        frames_refer(self.frames, frame)
    }

    /// The value at `index` of frame `frame`, if both exist.
    pub open spec fn cell(self, frame: SharkyHeapFrameIndex, index: SharkyHeapCellIndex) -> Option<DataModel> {
        if self.frames.dom().contains(frame) && index < self.frames[frame].len() {
            Some(self.frames[frame][index as int])
        } else {
            None
        }
    }

    /// The heap with `v` pushed onto frame `frame`; unchanged where there is no such frame.
    pub open spec fn pushed(self, frame: SharkyHeapFrameIndex, v: DataModel) -> HeapModel {
        if self.frames.dom().contains(frame) {
            HeapModel { frames: self.frames.insert(frame, self.frames[frame].push(v)), ..self }
        } else {
            self
        }
    }

    /// The heap with the value at `index` of frame `frame` set to `v`;
    /// unchanged where there is no such frame or the index is past its top.
    pub open spec fn written(self, frame: SharkyHeapFrameIndex, index: SharkyHeapCellIndex, v: DataModel) -> HeapModel {
        if self.frames.dom().contains(frame) {
            HeapModel {
                frames: self.frames.insert(
                    frame,
                    if index < self.frames[frame].len() {
                        self.frames[frame].update(index as int, v)
                    } else {
                        self.frames[frame]
                    },
                ),
                ..self
            }
        } else {
            self
        }
    }

    /// The heap with frame `frame` holding `values`.
    pub open spec fn with_frame(self, frame: SharkyHeapFrameIndex, values: Seq<DataModel>) -> HeapModel {
        HeapModel { frames: self.frames.insert(frame, values), ..self }
    }

    /// The heap without frame `frame`.
    pub open spec fn without_frame(self, frame: SharkyHeapFrameIndex) -> HeapModel {
        HeapModel { frames: self.frames.remove(frame), ..self }
    }
}

/// Whether a cell of some frame in `frames` holds a reference to `frame`.
pub open spec fn frames_refer(frames: Map<SharkyHeapFrameIndex, Seq<DataModel>>, frame: SharkyHeapFrameIndex) -> bool {
    exists|k: SharkyHeapFrameIndex|
        #![trigger frames[k]]
        frames.dom().contains(k) && frames[k].contains(DataModel::HeapReference(frame))
}

/// Frames of values that machines share and address by index.
pub struct SharkyHeap {
    memory: Slab<SharkyDataStack>,
    allocation_count: usize,
}

/// Each frame of a slab taken by the views of its values.
pub open spec fn frames_model(m: Map<usize, SharkyDataStack>) -> Map<usize, Seq<DataModel>> {
    m.map_values(|s: SharkyDataStack| data_model(s@))
}

impl View for SharkyHeap {
    type V = HeapModel;

    closed spec fn view(&self) -> HeapModel {
        HeapModel {
            frames: frames_model(slab_frames(self.memory)),
            allocation_count: self.allocation_count,
        }
    }
}

impl SharkyHeap {
    /// The index that the next new frame gets.
    pub closed spec fn vacant_key(&self) -> SharkyHeapFrameIndex {
        slab_vacant_key(self.memory)
    }

    /// An empty heap.
    pub fn default() -> (r: Self)
        ensures
            r@.frames == Map::<SharkyHeapFrameIndex, Seq<DataModel>>::empty(),
            r@.allocation_count == 0,
            r.vacant_key() == 0,
    {
        let r = Self { memory: slab_new(), allocation_count: 0 };
        assert(r@.frames =~= Map::<SharkyHeapFrameIndex, Seq<DataModel>>::empty());
        r
    }

    /// An empty heap.
    pub fn new() -> (r: Self)
        ensures
            r@.frames == Map::<SharkyHeapFrameIndex, Seq<DataModel>>::empty(),
            r@.allocation_count == 0,
            r.vacant_key() == 0,
    {
        Self::default()
    }

    pub fn get_allocation_count(&self) -> (r: usize)
        ensures
            r == self@.allocation_count,
    {
        self.allocation_count
    }

    pub fn reset_allocation_count(&mut self)
        ensures
            final(self)@ == (HeapModel { allocation_count: 0, ..old(self)@ }),
    {
        self.allocation_count = 0;
    }

    /// Adds an empty frame and counts the allocation; returns the frame's index.
    pub fn allocate(&mut self) -> (r: SharkyHeapFrameIndex)
        requires
            old(self)@.allocation_count < usize::MAX,
        ensures
            r == old(self).vacant_key(),
            !old(self)@.frames.dom().contains(r),
            final(self)@ == (HeapModel {
                frames: old(self)@.frames.insert(r, Seq::empty()),
                allocation_count: (old(self)@.allocation_count + 1) as usize,
            }),
    {
        self.allocation_count = self.allocation_count + 1;
        let ghost before = slab_frames(self.memory);
        let frame = SharkyDataStack::default();
        assert(data_model(frame@) =~= Seq::<DataModel>::empty());
        let r = slab_insert(&mut self.memory, frame);
        assert(frames_model(before.insert(r, frame)) =~= frames_model(before).insert(
            r,
            Seq::empty(),
        ));
        r
    }

    /// Removes frame `frame` (the frame must exist).
    pub fn free(&mut self, frame: SharkyHeapFrameIndex)
        requires
            old(self)@.frames.dom().contains(frame),
        ensures
            final(self)@ == old(self)@.without_frame(frame),
    {
        let ghost before = slab_frames(self.memory);
        slab_remove(&mut self.memory, frame);
        assert(frames_model(before.remove(frame)) =~= frames_model(before).remove(frame));
    }

    /// Pushes a copy of `data` onto frame `frame_addr`; `None` if there is no such frame.
    pub fn push(&mut self, frame_addr: SharkyHeapFrameIndex, data: &SharkyDataType) -> (r: Option<
        (),
    >)
        ensures
            r is Some <==> old(self)@.frames.dom().contains(frame_addr),
            final(self)@ == old(self)@.pushed(frame_addr, data@),
    {
        let ghost before = slab_frames(self.memory);
        match slab_get_mut(&mut self.memory, frame_addr) {
            Some(frame) => {
                let ghost f0 = *frame;
                frame.push(data.clone());
                proof {
                    assert(data_model(frame@) =~= data_model(f0@).push(data@));
                    assert(frames_model(before.insert(frame_addr, *frame)) =~= frames_model(
                        before,
                    ).insert(frame_addr, data_model(f0@).push(data@)));
                }
                Some(())
            },
            None => None,
        }
    }

    /// A copy of the value at `index` of frame `frame_addr`, if both exist.
    pub fn read(&self, frame_addr: SharkyHeapFrameIndex, index: SharkyHeapCellIndex) -> (r: Option<
        SharkyDataType,
    >)
        ensures
            opt_view(r) == self@.cell(frame_addr, index),
    {
        let frame = slab_get(&self.memory, frame_addr)?;
        let value = frame.read(index)?;
        Some(value.clone())
    }

    /// Stores `frame` as a new frame, without counting an allocation.
    pub fn take_frame(&mut self, frame: SharkyDataStack) -> (r: SharkyHeapFrameIndex)
        ensures
            r == old(self).vacant_key(),
            !old(self)@.frames.dom().contains(r),
            final(self)@ == old(self)@.with_frame(r, data_model(frame@)),
    {
        let ghost before = slab_frames(self.memory);
        let ghost fr = frame;
        let r = slab_insert(&mut self.memory, frame);
        assert(frames_model(before.insert(r, fr)) =~= frames_model(before).insert(
            r,
            data_model(fr@),
        ));
        r
    }

    /// A copy of frame `frame_addr`, if it exists.
    pub fn get_frame_clone(&self, frame_addr: SharkyHeapFrameIndex) -> (r: Option<SharkyDataStack>)
        ensures
            match r {
                Some(s) => self@.frames.dom().contains(frame_addr) && data_model(s@)
                    == self@.frames[frame_addr],
                None => !self@.frames.dom().contains(frame_addr),
            },
    {
        let frame = slab_get(&self.memory, frame_addr)?;
        Some(copy_stack(frame))
    }

    /// Sets the value at `index` of frame `frame_addr` to a copy of `data`; an
    /// index past the frame's top changes nothing. `None` if there is no such frame.
    pub fn set(
        &mut self,
        frame_addr: SharkyHeapFrameIndex,
        index: SharkyHeapCellIndex,
        data: &SharkyDataType,
    ) -> (r: Option<()>)
        ensures
            r is Some <==> old(self)@.frames.dom().contains(frame_addr),
            final(self)@ == old(self)@.written(frame_addr, index, data@),
    {
        let ghost before = slab_frames(self.memory);
        match slab_get_mut(&mut self.memory, frame_addr) {
            Some(frame) => {
                let ghost f0 = *frame;
                frame.set(index, data.clone());
                proof {
                    let expected = if index < data_model(f0@).len() {
                        data_model(f0@).update(index as int, data@)
                    } else {
                        data_model(f0@)
                    };
                    assert(data_model(frame@) =~= expected);
                    assert(frames_model(before.insert(frame_addr, *frame)) =~= frames_model(
                        before,
                    ).insert(frame_addr, expected));
                }
                Some(())
            },
            None => None,
        }
    }

    /// Adds a copy of frame `frame_addr` as a new frame and counts the
    /// allocation; returns the new frame's index. `None` if there is no such frame.
    pub fn clone_frame(&mut self, frame_addr: SharkyHeapFrameIndex) -> (r: Option<
        SharkyHeapFrameIndex,
    >)
        requires
            old(self)@.frames.dom().contains(frame_addr) ==> old(self)@.allocation_count
                < usize::MAX,
        ensures
            old(self)@.frames.dom().contains(frame_addr) ==> {
                &&& r == Some(old(self).vacant_key())
                &&& !old(self)@.frames.dom().contains(old(self).vacant_key())
                &&& final(self)@ == (HeapModel {
                    frames: old(self)@.frames.insert(
                        old(self).vacant_key(),
                        old(self)@.frames[frame_addr],
                    ),
                    allocation_count: (old(self)@.allocation_count + 1) as usize,
                })
            },
            !old(self)@.frames.dom().contains(frame_addr) ==> r is None && final(self)@ == old(
                self,
            )@,
    {
        let frame = match slab_get(&self.memory, frame_addr) {
            Some(f) => copy_stack(f),
            None => return None,
        };
        self.allocation_count = self.allocation_count + 1;
        let ghost before = slab_frames(self.memory);
        let ghost fr = frame;
        let key = slab_insert(&mut self.memory, frame);
        assert(frames_model(before.insert(key, fr)) =~= frames_model(before).insert(
            key,
            data_model(fr@),
        ));
        Some(key)
    }

    /// The number of values in frame `frame_addr`, if it exists.
    pub fn size_frame(&self, frame_addr: SharkyHeapFrameIndex) -> (r: Option<usize>)
        ensures
            self@.frames.dom().contains(frame_addr) ==> r == Some(
                self@.frames[frame_addr].len() as usize,
            ),
            !self@.frames.dom().contains(frame_addr) ==> r is None,
    {
        let frame = slab_get(&self.memory, frame_addr)?;
        Some(frame.size())
    }

    /// The indexes of all frames, in increasing order.
    pub fn collect_heap_indexes(&self) -> (r: Vec<SharkyHeapFrameIndex>)
        ensures
            forall|k: SharkyHeapFrameIndex| r@.contains(k) <==> self@.frames.dom().contains(k),
            forall|i: int, j: int| 0 <= i < j < r@.len() ==> r@[i] < r@[j],
    {
        slab_keys(&self.memory)
    }

    /// Whether a cell of some frame holds a reference to frame `reference`.
    pub fn has_reference(&self, reference: SharkyHeapFrameIndex) -> (r: bool)
        ensures
            r == self@.has_reference(reference),
    {
        let keys = slab_keys(&self.memory);
        let target = SharkyDataType::HeapReference(reference);
        let mut i: usize = 0;
        while i < keys.len()
            invariant
                0 <= i <= keys@.len(),
                forall|k: usize| keys@.contains(k) <==> slab_frames(self.memory).dom().contains(k),
                target@ == DataModel::HeapReference(reference),
                forall|j: int|
                    0 <= j < i ==> !(#[trigger] self@.frames[keys@[j]]).contains(target@),
            decreases keys@.len() - i,
        {
            let key = keys[i];
            assert(keys@.contains(key));
            match slab_get(&self.memory, key) {
                Some(frame) => {
                    if search_data(frame, &target) {
                        assert(self@.frames[key] == data_model(frame@));
                        return true;
                    }
                    assert(self@.frames[key] == data_model(frame@));
                },
                None => {},
            }
            i = i + 1;
        }
        proof {
            assert forall|k: SharkyHeapFrameIndex|
                self@.frames.dom().contains(k) implies !(#[trigger] self@.frames[k]).contains(
                target@,
            ) by {
                assert(keys@.contains(k));
                let j = keys@.index_of(k);
                assert(keys@[j] == k);
            }
        }
        false
    }
}

/// A copy of a data stack with the same values by view.
pub fn copy_stack(stack: &SharkyDataStack) -> (r: SharkyDataStack)
    ensures
        data_model(r@) == data_model(stack@),
{
    let copy = stack.clone();
    assert(data_model(copy@) =~= data_model(stack@)) by {
        assert forall|i: int| 0 <= i < stack@.len() implies copy@[i]@ == stack@[i]@ by {
            assert(cloned::<SharkyDataType>(stack@[i], copy@[i]));
        }
    }
    copy
}


/// A value pushed onto a frame reads back at the frame's old top, and no
/// other cell changes.
pub proof fn law_heap_read_after_push(heap: HeapModel, frame: SharkyHeapFrameIndex, v: DataModel)
    requires
        heap.frames.dom().contains(frame),
        heap.frames[frame].len() < usize::MAX,
    ensures
        heap.pushed(frame, v).cell(frame, heap.frames[frame].len() as usize) == Some(v),
        forall|g: SharkyHeapFrameIndex, j: SharkyHeapCellIndex|
            #[trigger] heap.cell(g, j) is Some ==> heap.pushed(frame, v).cell(g, j) == heap.cell(g, j),
{
}

/// A value written to a cell reads back, and no other cell changes.
pub proof fn law_heap_read_after_write(
    heap: HeapModel,
    frame: SharkyHeapFrameIndex,
    index: SharkyHeapCellIndex,
    v: DataModel,
)
    requires
        heap.cell(frame, index) is Some,
    ensures
        heap.written(frame, index, v).cell(frame, index) == Some(v),
        forall|g: SharkyHeapFrameIndex, j: SharkyHeapCellIndex|
            !(g == frame && j == index) ==> #[trigger] heap.written(frame, index, v).cell(g, j) == heap.cell(g, j),
{
}

/// A frame stored at an unused index reads back as it was stored, and no
/// other cell changes.
pub proof fn law_heap_new_frame(heap: HeapModel, frame: SharkyHeapFrameIndex, values: Seq<DataModel>)
    requires
        !heap.frames.dom().contains(frame),
    ensures
        forall|j: SharkyHeapCellIndex|
            #[trigger] heap.with_frame(frame, values).cell(frame, j) == if j < values.len() {
                Some(values[j as int])
            } else {
                None
            },
        forall|g: SharkyHeapFrameIndex, j: SharkyHeapCellIndex|
            g != frame ==> #[trigger] heap.with_frame(frame, values).cell(g, j) == heap.cell(g, j),
{
}

/// A freed frame has no cells left, and no other cell changes.
pub proof fn law_heap_freed_frame(heap: HeapModel, frame: SharkyHeapFrameIndex)
    ensures
        forall|j: SharkyHeapCellIndex| #[trigger] heap.without_frame(frame).cell(frame, j) is None,
        forall|g: SharkyHeapFrameIndex, j: SharkyHeapCellIndex|
            g != frame ==> #[trigger] heap.without_frame(frame).cell(g, j) == heap.cell(g, j),
{
}

/// A value pushed onto a stack is its top, and popping it gives the stack
/// back; a value set at an index reads back there.
pub proof fn law_stack_push_pop<T>(s: Seq<T>, v: T, index: int)
    ensures
        s.push(v).last() == v,
        s.push(v).drop_last() == s,
        0 <= index < s.len() ==> s.update(index, v)[index] == v,
{
    assert(s.push(v).drop_last() =~= s);
}

} // verus!
