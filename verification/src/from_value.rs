//! Handles as native values.

use vstd::prelude::*;
use vstd::pervasive::unreached;
use crate::ruby::VALUE;
use crate::ruby_type::RubyType;
use crate::to_value::ToValue;
use crate::Nil;

verus! {

/// A value that can be made from a handle, in two ways: `from_value` tests
/// the handle first and gives `None` where the test fails;
/// `from_value_unchecked` takes the handle for what the caller says it is.
///
/// Both take, beside the handle, the flags word of the object that the
/// handle points to. It matters only where `tagged_in_header` holds of the
/// handle; for any other handle every flags word gives the same result.
/// The handle and the flags word are all that a conversion goes by: one
/// that has to read more of the runtime's memory is not for this trait.
pub trait FromValue: Sized {
    /// The test that `from_value` makes.
    spec fn checks(value: VALUE, flags: VALUE) -> bool;

    /// The handles that `from_value_unchecked` can be given.
    spec fn assumes(value: VALUE, flags: VALUE) -> bool;

    /// The value that the handle stands for.
    spec fn converted(value: VALUE, flags: VALUE) -> Self;

    /// Whatever passes the test can be converted without it.
    proof fn lemma_checked_is_assumed(value: VALUE, flags: VALUE)
        requires
            Self::checks(value, flags),
        ensures
            Self::assumes(value, flags),
    ;

    fn from_value(value: VALUE, flags: VALUE) -> (r: Option<Self>)
        ensures
            r == if Self::checks(value, flags) {
                Some(Self::converted(value, flags))
            } else {
                None
            },
    ;

    fn from_value_unchecked(value: VALUE, flags: VALUE) -> (r: Self)
        requires
            Self::assumes(value, flags),
        ensures
            r == Self::converted(value, flags),
    ;
}

/// Every handle is a handle.
impl FromValue for VALUE {
    open spec fn checks(value: VALUE, flags: VALUE) -> bool {
        true
    }

    open spec fn assumes(value: VALUE, flags: VALUE) -> bool {
        true
    }

    open spec fn converted(value: VALUE, flags: VALUE) -> VALUE {
        value
    }

    proof fn lemma_checked_is_assumed(value: VALUE, flags: VALUE) {
    }

    fn from_value(val: VALUE, _flags: VALUE) -> (r: Option<Self>) {
        Some(val)
    }

    fn from_value_unchecked(val: VALUE, _flags: VALUE) -> (r: Self) {
        val
    }
}

/// The values of type `True` and `False` are the booleans; a handle of
/// another type is refused by the test, and cannot be given without it.
impl FromValue for bool {
    open spec fn checks(value: VALUE, flags: VALUE) -> bool {
        RubyType::of(value, flags) is True || RubyType::of(value, flags) is False
    }

    open spec fn assumes(value: VALUE, flags: VALUE) -> bool {
        Self::checks(value, flags)
    }

    open spec fn converted(value: VALUE, flags: VALUE) -> bool {
        RubyType::of(value, flags) is True
    }

    proof fn lemma_checked_is_assumed(value: VALUE, flags: VALUE) {
    }

    fn from_value(value: VALUE, flags: VALUE) -> (r: Option<Self>) {
        match RubyType::from_value(value, flags) {
            RubyType::False | RubyType::True => Some(Self::from_value_unchecked(value, flags)),
            _ => None,
        }
    }

    fn from_value_unchecked(value: VALUE, flags: VALUE) -> (r: Self) {
        match RubyType::from_value(value, flags) {
            RubyType::False => false,
            RubyType::True => true,
            _ => unreached(),
        }
    }
}

/// The one value of type `Nil` is `nil`. Without the test any handle is
/// taken for it.
impl FromValue for Nil {
    open spec fn checks(value: VALUE, flags: VALUE) -> bool {
        RubyType::of(value, flags) is Nil
    }

    open spec fn assumes(value: VALUE, flags: VALUE) -> bool {
        true
    }

    open spec fn converted(value: VALUE, flags: VALUE) -> Nil {
        Nil
    }

    proof fn lemma_checked_is_assumed(value: VALUE, flags: VALUE) {
    }

    fn from_value_unchecked(_value: VALUE, _flags: VALUE) -> (r: Self) {
        Nil
    }

    fn from_value(value: VALUE, flags: VALUE) -> (r: Option<Self>) {
        match RubyType::from_value(value, flags) {
            RubyType::Nil => Some(Self::from_value_unchecked(value, flags)),
            _ => None,
        }
    }
}

/// A boolean that went into a handle comes out of it again, whatever the
/// flags word: the handle passes the test, and stands for the boolean.
pub proof fn lemma_bool_round_trip(b: bool, flags: VALUE)
    ensures
        bool::checks(b.handle(), flags),
        bool::converted(b.handle(), flags) == b,
{
}

/// The handle of `Nil` passes the test of `Nil`, whatever the flags word.
pub proof fn lemma_nil_round_trip(flags: VALUE)
    ensures
        Nil::checks(Nil.handle(), flags),
        Nil::converted(Nil.handle(), flags) == Nil,
{
}

/// The handle of an integer is no boolean and not `nil`, whatever the flags
/// word: both tests refuse it.
pub proof fn lemma_fixnum_is_neither(i: i64, flags: VALUE)
    ensures
        !bool::checks(i.handle(), flags),
        !Nil::checks(i.handle(), flags),
{
}

} // verus!
