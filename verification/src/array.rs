//! Handles of arrays, and the cursor that walks one.

use vstd::prelude::*;
use crate::from_value::FromValue;
use crate::inspect::{bracket, bracketed};
use crate::ruby::VALUE;
use crate::ruby_type::RubyType;
use crate::to_value::ToValue;

verus! {

/// The handle of an array of the runtime.
pub struct Array {
    val: VALUE,
}

impl View for Array {
    type V = VALUE;

    /// The handle that is wrapped.
    closed spec fn view(&self) -> VALUE {
        self.val
    }
}

impl Array {
    /// What the array prints as: its name and, between brackets, what the
    /// runtime's `inspect` says of it, which the caller passes as `inspected`.
    pub fn describe(&self, inspected: &str) -> (s: String)
        ensures
            s@ == bracketed("Array"@, inspected@),
    {
        bracket("Array", inspected)
    }
}

impl FromValue for Array {
    open spec fn checks(value: VALUE, flags: VALUE) -> bool {
        RubyType::of(value, flags) is Array
    }

    open spec fn assumes(value: VALUE, flags: VALUE) -> bool {
        true
    }

    closed spec fn converted(value: VALUE, flags: VALUE) -> Array {
        Array { val: value }
    }

    proof fn lemma_checked_is_assumed(value: VALUE, flags: VALUE) {
    }

    fn from_value(value: VALUE, flags: VALUE) -> (r: Option<Self>)
        ensures
            r matches Some(arr) ==> arr@ == value,
    {
        match RubyType::from_value(value, flags) {
            RubyType::Array => Some(Self::from_value_unchecked(value, flags)),
            _ => None,
        }
    }

    fn from_value_unchecked(value: VALUE, _flags: VALUE) -> (r: Self)
        ensures
            r@ == value,
    {
        Array { val: value }
    }
}

/// An array has the handle that it wraps.
impl ToValue for Array {
    open spec fn handle(&self) -> VALUE {
        self@
    }

    fn to_value(&self) -> (v: VALUE) {
        self.val
    }
}

/// A handle that is made into an array and back into a handle is the same
/// handle, and an array that is made into a handle and back is the same array.
pub proof fn lemma_array_round_trip(array: Array, value: VALUE, flags: VALUE)
    ensures
        Array::converted(value, flags).handle() == value,
        Array::converted(array.handle(), flags) == array,
{
}

/// A cursor over the indices of an array, from the first to the last that
/// the array had when the cursor was made. The cursor decides which entry
/// comes next; fetching the entry from the runtime is left to the caller.
pub struct ArrayIterator {
    arr: Array,
    initial_size: usize,
    current_idx: usize,
}

impl ArrayIterator {
    #[verifier::type_invariant]
    spec fn in_bounds(self) -> bool {
        self.current_idx <= self.initial_size
    }

    /// The handle of the array that is walked.
    pub closed spec fn handle(&self) -> VALUE {
        self.arr@
    }

    /// The number of entries that the array had when the cursor was made.
    pub closed spec fn size(&self) -> nat {
        self.initial_size as nat
    }

    /// The number of indices handed out so far.
    pub closed spec fn position(&self) -> nat {
        self.current_idx as nat
    }

    /// A cursor in front of the first entry of `arr`, whose length is `len`.
    pub fn new(arr: Array, len: usize) -> (it: Self)
        ensures
            it.handle() == arr@,
            it.size() == len,
            it.position() == 0,
    {
        ArrayIterator { arr: arr, initial_size: len, current_idx: 0 }
    }

    /// The array that is walked.
    pub fn array(&self) -> (arr: &Array)
        ensures
            arr@ == self.handle(),
    {
        &self.arr
    }

    /// Hands out the index of the next entry and steps over it, or gives
    /// `None`, and stays where it is, once every index has been handed out.
    pub fn next(&mut self) -> (r: Option<usize>)
        ensures
            final(self).handle() == old(self).handle(),
            final(self).size() == old(self).size(),
            final(self).position() <= final(self).size(),
            old(self).position() < old(self).size() ==> r is Some && final(self).position()
                == old(self).position() + 1,
            r matches Some(i) ==> i as nat == old(self).position(),
            old(self).position() >= old(self).size() ==> r is None && final(self).position()
                == old(self).position(),
    {
        proof {
            use_type_invariant(&*self);
        }
        if self.current_idx < self.initial_size {
            let idx = self.current_idx;
            self.current_idx += 1;
            Some(idx)
        } else {
            None
        }
    }
}

} // verus!
