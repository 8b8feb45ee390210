use vstd::prelude::*;

use crate::sharky_data_types::SharkyHeapFrameIndex;
use crate::sharky_memory::{data_model, HeapModel, MemoryModel, SharkyDataStack, SharkyHeap, SharkyMemoryLayout};

verus! {

/// How many frames have to be allocated before the collector looks at the heap.
pub const GC_COLLECTION_COUNT: usize = 128;

/// Whether a stack of some machine refers to heap frame `f`.
pub open spec fn any_task_refers(tasks: Seq<MemoryModel>, f: SharkyHeapFrameIndex) -> bool {
    exists|i: int| 0 <= i < tasks.len() && (#[trigger] tasks[i]).has_heap_ref(f)
}

/// Whether the collector keeps frame `f`: a cell of some frame, a stack of a
/// running machine or a global refers to it.
pub open spec fn gc_keeps(heap: HeapModel, globals: Seq<SharkyHeapFrameIndex>, tasks: Seq<MemoryModel>, f: SharkyHeapFrameIndex) -> bool {
    ||| heap.has_reference(f)
    ||| any_task_refers(tasks, f)
    ||| globals.contains(f)
}

/// The heap after a collection: unchanged while fewer than
/// `GC_COLLECTION_COUNT` frames were allocated since the last one; otherwise
/// every frame that nothing refers to is freed and the count starts again.
pub open spec fn collected(heap: HeapModel, globals: Seq<SharkyHeapFrameIndex>, tasks: Seq<MemoryModel>) -> HeapModel {
    if heap.allocation_count < GC_COLLECTION_COUNT {
        heap
    } else {
        HeapModel {
            frames: heap.frames.restrict(
                Set::new(|f: SharkyHeapFrameIndex| gc_keeps(heap, globals, tasks, f)),
            ),
            allocation_count: 0,
        }
    }
}

/// The shared heap of an application and the frames it holds as globals.
pub struct SharkyApp {
    heap: SharkyHeap,
    globals: Vec<SharkyHeapFrameIndex>,
}

/// Whether `v` holds `x`.
fn contains_index(v: &Vec<SharkyHeapFrameIndex>, x: SharkyHeapFrameIndex) -> (r: bool)
    ensures
        r == v@.contains(x),
{
    let mut i: usize = 0;
    while i < v.len()
        invariant
            0 <= i <= v@.len(),
            forall|j: int| 0 <= j < i ==> v@[j] != x,
        decreases v@.len() - i,
    {
        if v[i] == x {
            assert(v@[i as int] == x);
            return true;
        }
        i = i + 1;
    }
    false
}

impl SharkyApp {
    /// An empty heap and no globals.
    pub fn new() -> (r: Self)
        ensures
            r.spec_heap()@.frames == Map::<SharkyHeapFrameIndex, Seq<crate::sharky_data_types::DataModel>>::empty(),
            r.spec_heap()@.allocation_count == 0,
            r.spec_globals() == Seq::<SharkyHeapFrameIndex>::empty(),
    {
        SharkyApp { heap: SharkyHeap::new(), globals: Vec::new() }
    }

    pub fn heap(&self) -> (r: &SharkyHeap)
        ensures
            *r == self.spec_heap(),
    {
        &self.heap
    }

    pub closed spec fn spec_heap(&self) -> SharkyHeap {
        self.heap
    }

    pub closed spec fn spec_globals(&self) -> Seq<SharkyHeapFrameIndex> {
        self.globals@
    }

    /// The heap, for running machines against it.
    pub fn heap_mut(&mut self) -> (r: &mut SharkyHeap)
        ensures
            *r == old(self).spec_heap(),
            final(self).spec_heap() == *final(r),
            final(self).spec_globals() == old(self).spec_globals(),
    {
        &mut self.heap
    }

    /// The frames held as globals.
    pub fn globals(&self) -> (r: &Vec<SharkyHeapFrameIndex>)
        ensures
            r@ == self.spec_globals(),
    {
        &self.globals
    }

    /// Stores each frame on the heap, in order, and holds it as a global.
    pub fn add_global_frames(&mut self, global_frames: Vec<SharkyDataStack>)
        ensures
            final(self).spec_globals().len() == old(self).spec_globals().len() + global_frames@.len(),
            final(self).spec_globals().subrange(0, old(self).spec_globals().len() as int)
                == old(self).spec_globals(),
            final(self).spec_heap()@.allocation_count == old(self).spec_heap()@.allocation_count,
            forall|i: int|
                0 <= i < global_frames@.len() ==> {
                    let f = #[trigger] final(self).spec_globals()[old(self).spec_globals().len() + i];
                    &&& !old(self).spec_heap()@.frames.dom().contains(f)
                    &&& final(self).spec_heap()@.frames.dom().contains(f)
                    &&& final(self).spec_heap()@.frames[f] == data_model(global_frames@[i]@)
                },
            forall|f: SharkyHeapFrameIndex|
                #[trigger] old(self).spec_heap()@.frames.dom().contains(f) ==> final(self).spec_heap()@.frames.dom().contains(f)
                    && final(self).spec_heap()@.frames[f] == old(self).spec_heap()@.frames[f],
            forall|f: SharkyHeapFrameIndex|
                #[trigger] final(self).spec_heap()@.frames.dom().contains(f) ==> old(self).spec_heap()@.frames.dom().contains(f)
                    || final(self).spec_globals().subrange(
                    old(self).spec_globals().len() as int,
                    final(self).spec_globals().len() as int,
                ).contains(f),
    {
        let ghost g0 = self.globals@;
        let ghost h0 = self.heap@;
        let mut frames = global_frames;
        let ghost all = frames@;
        let mut i: usize = 0;
        let n = frames.len();
        while i < n
            invariant
                n == all.len(),
                0 <= i <= n,
                self.globals@.len() == g0.len() + i,
                self.globals@.subrange(0, g0.len() as int) == g0,
                self.heap@.allocation_count == h0.allocation_count,
                frames@ == all.subrange(i as int, n as int),
                forall|j: int|
                    0 <= j < i ==> {
                        let f = #[trigger] self.globals@[g0.len() + j];
                        &&& !h0.frames.dom().contains(f)
                        &&& self.heap@.frames.dom().contains(f)
                        &&& self.heap@.frames[f] == data_model(all[j]@)
                    },
                forall|f: SharkyHeapFrameIndex|
                    #[trigger] h0.frames.dom().contains(f) ==> self.heap@.frames.dom().contains(f)
                        && self.heap@.frames[f] == h0.frames[f],
                forall|f: SharkyHeapFrameIndex|
                    #[trigger] self.heap@.frames.dom().contains(f) ==> h0.frames.dom().contains(f)
                        || self.globals@.subrange(g0.len() as int, self.globals@.len() as int).contains(f),
            decreases n - i,
        {
            let frame = frames.remove(0);
            assert(frame == all[i as int]);
            let ghost h1 = self.heap@;
            let ghost g1 = self.globals@;
            let index = self.heap.take_frame(frame);
            self.globals.push(index);
            proof {
                assert(self.globals@.subrange(0, g0.len() as int) =~= g1.subrange(0, g0.len() as int));
                assert forall|f: SharkyHeapFrameIndex|
                    #[trigger] h0.frames.dom().contains(f) implies self.heap@.frames.dom().contains(f)
                        && self.heap@.frames[f] == h0.frames[f] by {
                    assert(h1.frames.dom().contains(f));
                }
                assert forall|j: int| 0 <= j < i + 1 implies {
                    let f = #[trigger] self.globals@[g0.len() + j];
                    &&& !h0.frames.dom().contains(f)
                    &&& self.heap@.frames.dom().contains(f)
                    &&& self.heap@.frames[f] == data_model(all[j]@)
                } by {
                    if j < i {
                        assert(self.globals@[g0.len() + j] == g1[g0.len() + j]);
                        let f = g1[g0.len() + j];
                        assert(h1.frames.dom().contains(f));
                    } else {
                        assert(self.globals@[g0.len() + j] == index);
                        if h0.frames.dom().contains(index) {
                            assert(h1.frames.dom().contains(index));
                        }
                    }
                }
                assert(frames@ =~= all.subrange(i + 1, n as int));
                let added = self.globals@.subrange(g0.len() as int, self.globals@.len() as int);
                let before = g1.subrange(g0.len() as int, g1.len() as int);
                assert(added =~= before.push(index));
                assert forall|f: SharkyHeapFrameIndex|
                    #[trigger] self.heap@.frames.dom().contains(f) implies h0.frames.dom().contains(f)
                        || added.contains(f) by {
                    if f == index {
                        assert(added[added.len() - 1] == index);
                    } else {
                        assert(h1.frames.dom().contains(f));
                        if before.contains(f) {
                            let k = before.index_of(f);
                            assert(added[k] == f);
                        }
                    }
                }
            }
            i = i + 1;
        }
    }

    /// Collects the heap: when at least `GC_COLLECTION_COUNT` frames were
    /// allocated since the last collection, frees every frame that no frame,
    /// no global and no stack of the running machines, whose memories are
    /// `tasks`, refers to, and starts the count again.
    pub fn garbage_collect(&mut self, tasks: &Vec<&SharkyMemoryLayout>)
        ensures
            final(self).spec_heap()@ == collected(
                old(self).spec_heap()@,
                old(self).spec_globals(),
                tasks_model(tasks@),
            ),
            final(self).spec_globals() == old(self).spec_globals(),
    {
        if self.heap.get_allocation_count() < GC_COLLECTION_COUNT {
            return;
        }
        let ghost h0 = self.heap@;
        let ghost tm = tasks_model(tasks@);
        let ghost gl = self.globals@;
        self.heap.reset_allocation_count();
        let keys = self.heap.collect_heap_indexes();
        let mut to_collect: Vec<SharkyHeapFrameIndex> = Vec::new();
        let mut i: usize = 0;
        while i < keys.len()
            invariant
                self.heap@ == (HeapModel { allocation_count: 0, ..h0 }),
                self.globals@ == gl,
                tm == tasks_model(tasks@),
                0 <= i <= keys@.len(),
                forall|k: SharkyHeapFrameIndex| keys@.contains(k) <==> h0.frames.dom().contains(k),
                forall|a: int, b: int| 0 <= a < b < keys@.len() ==> keys@[a] < keys@[b],
                forall|a: int|
                    0 <= a < to_collect@.len() ==> h0.frames.dom().contains(#[trigger] to_collect@[a])
                        && !gc_keeps(h0, gl, tm, to_collect@[a]),
                forall|a: int, b: int| 0 <= a < b < to_collect@.len() ==> to_collect@[a] < to_collect@[b],
                forall|a: int, j: int|
                    0 <= a < to_collect@.len() && i <= j < keys@.len() ==> to_collect@[a] < keys@[j],
                forall|j: int|
                    0 <= j < i && !gc_keeps(h0, gl, tm, #[trigger] keys@[j])
                        ==> to_collect@.contains(keys@[j]),
            decreases keys@.len() - i,
        {
            let frame = keys[i];
            assert(keys@.contains(frame));
            let kept = self.heap.has_reference(frame) || tasks_have_reference(tasks, frame)
                || contains_index(&self.globals, frame);
            assert(kept == gc_keeps(h0, gl, tm, frame));
            if !kept {
                let ghost before = to_collect@;
                to_collect.push(frame);
                proof {
                    assert forall|j: int|
                        0 <= j < i + 1 && !gc_keeps(h0, gl, tm, #[trigger] keys@[j])
                            implies to_collect@.contains(keys@[j]) by {
                        if j < i {
                            assert(before.contains(keys@[j]));
                            let a = before.index_of(keys@[j]);
                            assert(to_collect@[a] == keys@[j]);
                        } else {
                            assert(to_collect@[before.len() as int] == keys@[j]);
                        }
                    }
                }
            }
            i = i + 1;
        }
        let mut m: usize = 0;
        while m < to_collect.len()
            invariant
                self.globals@ == gl,
                0 <= m <= to_collect@.len(),
                self.heap@.allocation_count == 0,
                forall|a: int|
                    0 <= a < to_collect@.len() ==> h0.frames.dom().contains(#[trigger] to_collect@[a]),
                forall|a: int, b: int| 0 <= a < b < to_collect@.len() ==> to_collect@[a] < to_collect@[b],
                forall|f: SharkyHeapFrameIndex|
                    #[trigger] self.heap@.frames.dom().contains(f) <==> h0.frames.dom().contains(f)
                        && !to_collect@.subrange(0, m as int).contains(f),
                forall|f: SharkyHeapFrameIndex|
                    #[trigger] self.heap@.frames.dom().contains(f) ==> self.heap@.frames[f]
                        == h0.frames[f],
            decreases to_collect@.len() - m,
        {
            let frame = to_collect[m];
            let ghost hb = self.heap@;
            proof {
                if to_collect@.subrange(0, m as int).contains(frame) {
                    let a = to_collect@.subrange(0, m as int).index_of(frame);
                    assert(to_collect@[a] == frame);
                    assert(to_collect@[a] < to_collect@[m as int]);
                }
                assert(h0.frames.dom().contains(to_collect@[m as int]));
                assert(hb.frames.dom().contains(frame));
            }
            self.heap.free(frame);
            proof {
                assert(to_collect@.subrange(0, m + 1)[m as int] == frame);
                assert forall|f: SharkyHeapFrameIndex|
                    #[trigger] self.heap@.frames.dom().contains(f) <==> h0.frames.dom().contains(f)
                        && !to_collect@.subrange(0, m + 1).contains(f) by {
                    assert(hb.frames.dom().contains(f) <==> h0.frames.dom().contains(f)
                        && !to_collect@.subrange(0, m as int).contains(f));
                    if to_collect@.subrange(0, m as int).contains(f) {
                        let a = to_collect@.subrange(0, m as int).index_of(f);
                        assert(to_collect@.subrange(0, m + 1)[a] == f);
                    }
                    if to_collect@.subrange(0, m + 1).contains(f) {
                        let a = to_collect@.subrange(0, m + 1).index_of(f);
                        if a < m {
                            assert(to_collect@.subrange(0, m as int)[a] == f);
                        }
                    }
                }
                assert forall|f: SharkyHeapFrameIndex|
                    #[trigger] self.heap@.frames.dom().contains(f) implies self.heap@.frames[f]
                        == h0.frames[f] by {
                    assert(hb.frames.dom().contains(f));
                }
            }
            m = m + 1;
        }
        proof {
            let kept = Set::new(|f: SharkyHeapFrameIndex| gc_keeps(h0, gl, tm, f));
            assert(to_collect@.subrange(0, to_collect@.len() as int) =~= to_collect@);
            assert forall|f: SharkyHeapFrameIndex|
                #[trigger] self.heap@.frames.dom().contains(f) <==> h0.frames.restrict(kept).dom().contains(f) by {
                if h0.frames.dom().contains(f) && !gc_keeps(h0, gl, tm, f) {
                    assert(keys@.contains(f));
                    let j = keys@.index_of(f);
                    assert(keys@[j] == f);
                    assert(to_collect@.contains(keys@[j]));
                }
                if to_collect@.contains(f) {
                    let a = to_collect@.index_of(f);
                    assert(to_collect@[a] == f);
                }
            }
            assert(self.heap@.frames =~= h0.frames.restrict(kept));
        }
    }
}

/// Each machine's memory taken by its view.
pub open spec fn tasks_model(tasks: Seq<&SharkyMemoryLayout>) -> Seq<MemoryModel> {
    tasks.map_values(|t: &SharkyMemoryLayout| t@)
}

/// Whether a stack of some machine, whose memories are `tasks`, refers to
/// heap frame `frame`.
pub fn tasks_have_reference(tasks: &Vec<&SharkyMemoryLayout>, frame: SharkyHeapFrameIndex) -> (r: bool)
    ensures
        r == any_task_refers(tasks_model(tasks@), frame),
{
    let mut i: usize = 0;
    while i < tasks.len()
        invariant
            0 <= i <= tasks@.len(),
            tasks_model(tasks@).len() == tasks@.len(),
            forall|j: int|
                0 <= j < i ==> !(#[trigger] tasks_model(tasks@)[j]).has_heap_ref(frame),
        decreases tasks@.len() - i,
    {
        let task: &SharkyMemoryLayout = tasks[i];
        assert(tasks_model(tasks@)[i as int] == task@);
        if task.has_heap_ref(frame) {
            assert(tasks_model(tasks@).len() == tasks@.len());
            return true;
        }
        i = i + 1;
    }
    false
}


/// A collection frees only frames that nothing refers to: every frame left
/// was there before with the same values, and every frame that a frame, a
/// machine or a global refers to is left.
pub proof fn law_collection_keeps_referenced_frames(
    heap: HeapModel,
    globals: Seq<SharkyHeapFrameIndex>,
    tasks: Seq<MemoryModel>,
)
    ensures
        forall|f: SharkyHeapFrameIndex|
            #[trigger] collected(heap, globals, tasks).frames.dom().contains(f) ==> heap.frames.dom().contains(f)
                && collected(heap, globals, tasks).frames[f] == heap.frames[f],
        forall|f: SharkyHeapFrameIndex|
            heap.frames.dom().contains(f) && #[trigger] gc_keeps(heap, globals, tasks, f)
                ==> collected(heap, globals, tasks).frames.dom().contains(f),
{
}

/// A collection that runs starts the allocation count again, so a second
/// collection straight after it changes nothing.
pub proof fn law_collection_twice_is_once(
    heap: HeapModel,
    globals: Seq<SharkyHeapFrameIndex>,
    tasks: Seq<MemoryModel>,
)
    ensures
        collected(collected(heap, globals, tasks), globals, tasks) == collected(heap, globals, tasks),
{
}

} // verus!
