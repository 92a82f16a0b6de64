//! Native values as handles.

use vstd::prelude::*;
use crate::macros::{fixnum_handle, INT2FIX};
use crate::ruby::{VALUE, RUBY_Qfalse, RUBY_Qnil, RUBY_Qtrue};
use crate::Nil;

verus! {

/// A value that has a handle of its own, which `to_value` gives. The
/// handle depends on the value alone: a type that has to ask the runtime
/// for a new object at every call is not for this trait.
pub trait ToValue {
    /// The handle that stands for the value.
    spec fn handle(&self) -> VALUE;

    fn to_value(&self) -> (v: VALUE)
        ensures
            v == self.handle(),
    ;
}

/// A handle is its own handle.
impl ToValue for VALUE {
    open spec fn handle(&self) -> VALUE {
        *self
    }

    fn to_value(&self) -> (v: VALUE) {
        *self
    }
}

/// The booleans have the handles of `true` and `false`.
impl ToValue for bool {
    open spec fn handle(&self) -> VALUE {
        if *self {
            RUBY_Qtrue as VALUE
        } else {
            RUBY_Qfalse as VALUE
        }
    }

    fn to_value(&self) -> (v: VALUE) {
        match *self {
            true => RUBY_Qtrue as VALUE,
            false => RUBY_Qfalse as VALUE,
        }
    }
}

/// An integer has the handle that encodes it, which holds all of it where
/// the integer has no more than 63 bits.
impl ToValue for i64 {
    open spec fn handle(&self) -> VALUE {
        fixnum_handle(*self)
    }

    fn to_value(&self) -> (v: VALUE) {
        INT2FIX(*self)
    }
}

/// An integer of 32 bits has the handle that encodes it.
impl ToValue for i32 {
    open spec fn handle(&self) -> VALUE {
        fixnum_handle(*self as i64)
    }

    fn to_value(&self) -> (v: VALUE) {
        INT2FIX(*self as i64)
    }
}

/// `Nil` has the handle of `nil`.
impl ToValue for Nil {
    open spec fn handle(&self) -> VALUE {
        RUBY_Qnil as VALUE
    }

    fn to_value(&self) -> (v: VALUE) {
        RUBY_Qnil as VALUE
    }
}

} // verus!
