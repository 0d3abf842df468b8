//! The accessor pattern the container generator emits, written out for one
//! representative container and verified.
//!
//! Every generated accessor set follows exactly this shape — an immutable
//! borrow, a mutable borrow, a replace operation and a consume operation
//! per field — so the laws these contracts state are the laws of each
//! emitted set: the immutable borrow reads the field's current value, a
//! write through the mutable borrow or the replace operation is what a
//! later read returns, the other fields are untouched, and the consume
//! operation takes the container and hands the field back.

use vstd::prelude::*;

verus! {

/// A container of two fields, as the generator declares one; the accessor
/// methods below are its generated accessor sets, written out.
pub struct SampleContainer<A, B> {
    pub first: A,
    pub second: B,
}

impl<A, B> SampleContainer<A, B> {
    /// The generated immutable-borrow accessor of the field `first`.
    pub fn get_first(&self) -> (r: &A)
        ensures
            *r == self.first,
    {
        &self.first
    }

    /// The generated mutable-borrow accessor of the field `first`: what
    /// the caller writes through the borrow is the field's new value, and
    /// the other field keeps its value.
    pub fn get_mut_first(&mut self) -> (r: &mut A)
        ensures
            *r == old(self).first,
            final(self).first == *final(r),
            final(self).second == old(self).second,
    {
        &mut self.first
    }

    /// The generated replace operation of the field `first`: the field
    /// takes the given value, and the other field keeps its value.
    pub fn set_first(&mut self, first: A)
        ensures
            final(self).first == first,
            final(self).second == old(self).second,
    {
        self.first = first;
    }

    /// The generated consume operation of the field `first`: the container
    /// is taken and the field's value is returned.
    pub fn into_first(self) -> (r: A)
        ensures
            r == self.first,
    {
        self.first
    }

    /// The generated immutable-borrow accessor of the field `second`.
    pub fn get_second(&self) -> (r: &B)
        ensures
            *r == self.second,
    {
        &self.second
    }

    /// The generated mutable-borrow accessor of the field `second`.
    pub fn get_mut_second(&mut self) -> (r: &mut B)
        ensures
            *r == old(self).second,
            final(self).second == *final(r),
            final(self).first == old(self).first,
    {
        &mut self.second
    }

    /// The generated replace operation of the field `second`.
    pub fn set_second(&mut self, second: B)
        ensures
            final(self).second == second,
            final(self).first == old(self).first,
    {
        self.second = second;
    }

    /// The generated consume operation of the field `second`.
    pub fn into_second(self) -> (r: B)
        ensures
            r == self.second,
    {
        self.second
    }
}

} // verus!
