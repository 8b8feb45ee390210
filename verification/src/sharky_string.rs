use vstd::prelude::*;

use crate::sharky_data_types::SharkyByte;

verus! {

/// Byte strings stored back to back in one buffer, each addressed by the
/// index it was created with. Its view is the sequence of strings.
pub struct SharkyStringPool {
    buffer: Vec<SharkyByte>,
    spans: Vec<(usize, usize)>,
}

impl SharkyStringPool {
    /// Every span lies inside the buffer.
    pub closed spec fn wf(&self) -> bool {
        forall|i: int|
            0 <= i < self.spans@.len() ==> #[trigger] self.spans@[i].0 <= self.spans@[i].1
                <= self.buffer@.len()
    }
}

impl View for SharkyStringPool {
    type V = Seq<Seq<SharkyByte>>;

    closed spec fn view(&self) -> Seq<Seq<SharkyByte>> {
        self.spans@.map_values(|s: (usize, usize)| self.buffer@.subrange(s.0 as int, s.1 as int))
    }
}

impl SharkyStringPool {
    /// The number of bytes stored over all strings.
    pub closed spec fn buffer_len(&self) -> nat {
        self.buffer@.len()
    }

    /// An empty pool.
    pub fn new() -> (r: SharkyStringPool)
        ensures
            r.wf(),
            r@ == Seq::<Seq<SharkyByte>>::empty(),
            r.buffer_len() == 0,
    {
        let r = SharkyStringPool { buffer: Vec::new(), spans: Vec::new() };
        assert(r@ =~= Seq::<Seq<SharkyByte>>::empty());
        r
    }

    /// Stores a copy of `stack` as a new string and returns its index.
    pub fn create_string(&mut self, stack: &[u8]) -> (r: usize)
        requires
            old(self).wf(),
            old(self).buffer_len() + stack@.len() <= usize::MAX,
        ensures
            final(self).wf(),
            r == old(self)@.len(),
            final(self)@ == old(self)@.push(stack@),
            final(self).buffer_len() == old(self).buffer_len() + stack@.len(),
    {
        let ghost old_buffer = self.buffer@;
        let ghost old_spans = self.spans@;
        let begin = self.buffer.len();
        let end = begin + stack.len();
        let mut i: usize = 0;
        while i < stack.len()
            invariant
                0 <= i <= stack@.len(),
                self.spans@ == old_spans,
                self.buffer@ == old_buffer + stack@.subrange(0, i as int),
                begin == old_buffer.len(),
            decreases stack@.len() - i,
        {
            self.buffer.push(stack[i]);
            assert(stack@.subrange(0, i + 1) =~= stack@.subrange(0, i as int).push(stack@[i as int]));
            i = i + 1;
        }
        assert(stack@.subrange(0, stack@.len() as int) =~= stack@);
        self.spans.push((begin, end));
        proof {
            assert forall|j: int| 0 <= j < old_spans.len() implies old_buffer.subrange(
                old_spans[j].0 as int,
                old_spans[j].1 as int,
            ) =~= self.buffer@.subrange(old_spans[j].0 as int, old_spans[j].1 as int) by {}
            assert(self.buffer@.subrange(begin as int, end as int) =~= stack@);
            assert(self@ =~= old(self)@.push(stack@));
        }
        self.spans.len() - 1
    }

    /// The string with index `id`, if there is one.
    pub fn get_slice(&self, id: usize) -> (r: Option<&[u8]>)
        requires
            self.wf(),
        ensures
            id < self@.len() ==> (r matches Some(s) && s@ == self@[id as int]),
            id >= self@.len() ==> r is None,
    {
        if id >= self.spans.len() {
            return None;
        }
        let span = self.spans[id];
        Some(vstd::slice::slice_subrange(self.buffer.as_slice(), span.0, span.1))
    }
}

impl Default for SharkyStringPool {
    fn default() -> (r: Self)
        ensures
            r.wf(),
            r@ == Seq::<Seq<SharkyByte>>::empty(),
    {
        Self::new()
    }
}


/// A created string reads back under the index it was given, and creating
/// it leaves every earlier string as it was.
pub proof fn law_string_reads_back(pool: Seq<Seq<SharkyByte>>, bytes: Seq<SharkyByte>)
    ensures
        pool.push(bytes)[pool.len() as int] == bytes,
        forall|i: int| 0 <= i < pool.len() ==> #[trigger] pool.push(bytes)[i] == pool[i],
{
}

} // verus!
