use vstd::prelude::*;

use slab::Slab;

use crate::sharky_memory::SharkyDataStack;

verus! {

// The heap keeps its frames in a `slab::Slab`: a vector of entries in which
// each entry is occupied by a value or vacant, the vacant ones chained into a
// free list. The items below are the part of its interface the heap uses.

#[verifier::external_type_specification]
#[verifier::external_body]
#[verifier::reject_recursive_types(T)]
pub struct ExSlab<T>(Slab<T>);

/// The frames a slab holds, by key.
pub uninterp spec fn slab_frames(s: Slab<SharkyDataStack>) -> Map<usize, SharkyDataStack>;

/// The key that the next insertion into a slab uses (`Slab::vacant_key`).
pub uninterp spec fn slab_vacant_key(s: Slab<SharkyDataStack>) -> usize;

/// `Slab::new`: an empty slab, whose first insertion uses key 0.
#[verifier::external_body]
pub(crate) fn slab_new() -> (r: Slab<SharkyDataStack>)
    ensures
        slab_frames(r).dom() == Set::<usize>::empty(),
        slab_vacant_key(r) == 0,
{
    Slab::new()
}

/// `Slab::insert`: stores `value` at the slab's vacant key, which no value
/// occupied before, and returns that key.
#[verifier::external_body]
pub(crate) fn slab_insert(s: &mut Slab<SharkyDataStack>, value: SharkyDataStack) -> (key: usize)
    ensures
        key == slab_vacant_key(*old(s)),
        !slab_frames(*old(s)).dom().contains(key),
        slab_frames(*final(s)) == slab_frames(*old(s)).insert(key, value),
{
    s.insert(value)
}

/// `Slab::remove`: takes out and returns the value at an occupied key (the
/// call panics on a vacant key, which `requires` leaves out).
#[verifier::external_body]
pub(crate) fn slab_remove(s: &mut Slab<SharkyDataStack>, key: usize) -> (r: SharkyDataStack)
    requires
        slab_frames(*old(s)).dom().contains(key),
    ensures
        r == slab_frames(*old(s))[key],
        slab_frames(*final(s)) == slab_frames(*old(s)).remove(key),
{
    s.remove(key)
}

/// `Slab::get`: the value at `key`, or `None` where the key is vacant.
#[verifier::external_body]
pub(crate) fn slab_get(s: &Slab<SharkyDataStack>, key: usize) -> (r: Option<&SharkyDataStack>)
    ensures
        slab_frames(*s).dom().contains(key) ==> r == Some(&slab_frames(*s)[key]),
        !slab_frames(*s).dom().contains(key) ==> r is None,
{
    s.get(key)
}

/// `Slab::get_mut`: the value at `key` for writing, or `None` where the key
/// is vacant; what is written through it is what the slab then holds there.
#[verifier::external_body]
pub(crate) fn slab_get_mut(s: &mut Slab<SharkyDataStack>, key: usize) -> (r: Option<
    &mut SharkyDataStack,
>)
    ensures
        match r {
            Some(v) => {
                &&& slab_frames(*old(s)).dom().contains(key)
                &&& *v == slab_frames(*old(s))[key]
                &&& slab_frames(*final(s)) == slab_frames(*old(s)).insert(key, *final(v))
            },
            None => {
                &&& !slab_frames(*old(s)).dom().contains(key)
                &&& slab_frames(*final(s)) == slab_frames(*old(s))
            },
        },
{
    s.get_mut(key)
}

/// The occupied keys of a slab, from `Slab::iter`, which walks the entries
/// in the order of their keys.
#[verifier::external_body]
pub(crate) fn slab_keys(s: &Slab<SharkyDataStack>) -> (r: Vec<usize>)
    ensures
        forall|k: usize| r@.contains(k) <==> slab_frames(*s).dom().contains(k),
        forall|i: int, j: int| 0 <= i < j < r@.len() ==> r@[i] < r@[j],
{
    s.iter().map(|(key, _)| key).collect()
}

} // verus!
