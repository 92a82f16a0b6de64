//! Handles of hashes.

use vstd::prelude::*;
use crate::from_value::FromValue;
use crate::inspect::{bracket, bracketed};
use crate::ruby::VALUE;
use crate::ruby_type::RubyType;
use crate::to_value::ToValue;

verus! {

/// The handle of a hash of the runtime.
pub struct Hash {
    val: VALUE,
}

impl View for Hash {
    type V = VALUE;

    /// The handle that is wrapped.
    closed spec fn view(&self) -> VALUE {
        self.val
    }
}

impl Hash {
    /// What the hash prints as: its name and, between brackets, what the
    /// runtime's `inspect` says of it, which the caller passes as `inspected`.
    pub fn describe(&self, inspected: &str) -> (s: String)
        ensures
            s@ == bracketed("Hash"@, inspected@),
    {
        bracket("Hash", inspected)
    }
}

impl FromValue for Hash {
    open spec fn checks(value: VALUE, flags: VALUE) -> bool {
        RubyType::of(value, flags) is Hash
    }

    open spec fn assumes(value: VALUE, flags: VALUE) -> bool {
        true
    }

    closed spec fn converted(value: VALUE, flags: VALUE) -> Hash {
        Hash { val: value }
    }

    proof fn lemma_checked_is_assumed(value: VALUE, flags: VALUE) {
    }

    fn from_value(value: VALUE, flags: VALUE) -> (r: Option<Self>)
        ensures
            r matches Some(hash) ==> hash@ == value,
    {
        match RubyType::from_value(value, flags) {
            RubyType::Hash => Some(Self::from_value_unchecked(value, flags)),
            _ => None,
        }
    }

    fn from_value_unchecked(value: VALUE, _flags: VALUE) -> (r: Self)
        ensures
            r@ == value,
    {
        Hash { val: value }
    }
}

/// A hash has the handle that it wraps.
impl ToValue for Hash {
    open spec fn handle(&self) -> VALUE {
        self@
    }

    fn to_value(&self) -> (v: VALUE) {
        self.val
    }
}

/// A handle that is made into a hash and back into a handle is the same
/// handle, and a hash that is made into a handle and back is the same hash.
pub proof fn lemma_hash_round_trip(hash: Hash, value: VALUE, flags: VALUE)
    ensures
        Hash::converted(value, flags).handle() == value,
        Hash::converted(hash.handle(), flags) == hash,
{
}

} // verus!
