use vstd::prelude::*;

verus! {

/// A vector with a value-passing, functional interface: every operation
/// consumes the vector and returns the updated one.
#[derive(Debug)]
pub struct FpVec<T> {
    pub inner: Vec<T>,
}

impl<T> View for FpVec<T> {
    type V = Seq<T>;

    open spec fn view(&self) -> Seq<T> {
        self.inner@
    }
}

impl<T: DeepView> DeepView for FpVec<T> {
    type V = Seq<T::V>;

    open spec fn deep_view(&self) -> Seq<T::V> {
        self.inner.deep_view()
    }
}

impl<T> FpVec<T> {
    pub fn new() -> (r: Self)
        ensures
            r@ == Seq::<T>::empty(),
    {
        Self { inner: vec![] }
    }

    pub fn from_vec(inner: Vec<T>) -> (r: Self)
        ensures
            r@ == inner@,
    {
        Self { inner }
    }

    pub fn push(self, item: T) -> (r: Self)
        ensures
            r@ == self@.push(item),
    {
        let mut inner = self.inner;
        inner.push(item);
        Self { inner }
    }

    pub fn pop(self) -> (r: (Self, Option<T>))
        ensures
            self@.len() == 0 ==> r.0@ == self@ && r.1 is None,
            self@.len() > 0 ==> r.0@ == self@.drop_last() && r.1 == Some(self@.last()),
    {
        let mut inner = self.inner;
        let item = inner.pop();
        (Self { inner }, item)
    }

    pub fn extend(self, other: FpVec<T>) -> (r: Self)
        ensures
            r@ == self@ + other@,
    {
        let mut inner = self.inner;
        let mut rest = other.inner;
        inner.append(&mut rest);
        Self { inner }
    }
}

} // verus!
