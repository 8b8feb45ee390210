use vstd::prelude::*;

verus! {

/// A growable buffer meant to be handed across a C boundary.
///
/// The items live in one owned vector; `len` always equals the number of
/// items. Its view is the sequence of items.
#[derive(Debug)]
pub struct CVec<T> {
    vec: Vec<T>,
}

impl<T> View for CVec<T> {
    type V = Seq<T>;

    open spec fn view(&self) -> Seq<T> {
        self.spec_items()
    }
}

impl<T> CVec<T> {
    /// The items, in order.
    pub closed spec fn spec_items(&self) -> Seq<T> {
        self.vec@
    }

    /// An empty buffer.
    pub fn new() -> (r: Self)
        ensures
            r@ == Seq::<T>::empty(),
    {
        CVec { vec: Vec::new() }
    }

    /// Runs `f` on the items as a vector; the buffer then holds what `f` left.
    pub fn operate<F: FnOnce(&mut Vec<T>)>(&mut self, f: F)
        requires
            forall|v: &mut Vec<T>| (*v)@ == old(self)@ ==> f.requires((v,)),
        ensures
            exists|v: &mut Vec<T>|
                (*v)@ == old(self)@ && f.ensures((v,), ()) && final(self)@ == (*final(v))@,
    {
        let mut upon: Vec<T> = Vec::new();
        std::mem::swap(&mut upon, &mut self.vec);
        f(&mut upon);
        self.vec = upon;
    }

    /// A guard through which the items can be changed.
    pub fn get_operator_mut(&mut self) -> (r: SharkyCVecOperatorMut<'_, T>)
        ensures
            r.spec_vec() == old(self)@,
            final(self)@ == (*final(r.operate))@,
    {
        SharkyCVecOperatorMut::new(self)
    }

    /// A guard through which the items can be read.
    pub fn get_operator(&self) -> (r: SharkyCVecOperator<'_, T>)
        ensures
            r.spec_vec() == self@,
    {
        SharkyCVecOperator::new(self)
    }

    /// The number of items.
    pub fn len(&self) -> (r: usize)
        ensures
            r == self@.len(),
    {
        self.vec.len()
    }

    /// The items as a slice.
    pub fn as_slice(&self) -> (r: &[T])
        ensures
            r@ == self@,
    {
        self.vec.as_slice()
    }
}

impl<T: Clone> Clone for CVec<T> {
    /// A buffer holding a clone of each item, in the same order.
    fn clone(&self) -> (r: Self)
        ensures
            r@.len() == self@.len(),
            forall|i: int| 0 <= i < self@.len() ==> cloned::<T>(self@[i], #[trigger] r@[i]),
    {
        if self.vec.len() == 0 {
            return Self::new();
        }
        CVec { vec: self.vec.clone() }
    }
}

impl<T> From<Vec<T>> for CVec<T> {
    /// Takes ownership of the vector's items.
    fn from(vec: Vec<T>) -> (r: Self)
        ensures
            r@ == vec@,
    {
        CVec { vec }
    }
}

impl<T> vstd::std_specs::convert::FromSpecImpl<Vec<T>> for CVec<T> {
    open spec fn obeys_from_spec() -> bool {
        true
    }

    closed spec fn from_spec(v: Vec<T>) -> Self {
        CVec { vec: v }
    }
}

/// A read guard over the items of a `CVec`.
pub struct SharkyCVecOperator<'a, T> {
    pub operate: &'a CVec<T>,
}

impl<'a, T> SharkyCVecOperator<'a, T> {
    /// The items the guard reads.
    pub open spec fn spec_vec(&self) -> Seq<T> {
        self.operate@
    }

    fn new(cvec: &'a CVec<T>) -> (r: Self)
        ensures
            r.spec_vec() == cvec@,
    {
        SharkyCVecOperator { operate: cvec }
    }

    /// The items as a vector.
    pub fn as_vec(&self) -> (r: &Vec<T>)
        ensures
            r@ == self.spec_vec(),
    {
        &self.operate.vec
    }
}

/// A write guard over the items of a `CVec`: what is written through it is
/// what the `CVec` holds once the guard is gone.
pub struct SharkyCVecOperatorMut<'a, T> {
    pub operate: &'a mut CVec<T>,
}

impl<'a, T> SharkyCVecOperatorMut<'a, T> {
    /// The items the guard currently holds.
    pub open spec fn spec_vec(&self) -> Seq<T> {
        self.operate@
    }

    fn new(cvec: &'a mut CVec<T>) -> (r: Self)
        ensures
            r.spec_vec() == old(cvec)@,
            final(cvec)@ == (*final(r.operate))@,
    {
        SharkyCVecOperatorMut { operate: cvec }
    }

    /// The items as a vector, for reading.
    pub fn as_vec(&self) -> (r: &Vec<T>)
        ensures
            r@ == self.spec_vec(),
    {
        &self.operate.vec
    }

    /// The items as a vector, for writing.
    pub fn as_vec_mut(&mut self) -> (r: &mut Vec<T>)
        ensures
            (*r)@ == old(self).spec_vec(),
            final(self).spec_vec() == (*final(r))@,
            *final(final(self).operate) == *final(old(self).operate),
    {
        &mut self.operate.vec
    }
}

} // verus!
