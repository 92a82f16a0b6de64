//! Value handles of the Ruby runtime, as a native extension sees them.
//!
//! The runtime hands every object out as one machine word. Small integers,
//! booleans, `nil` and a few other values are encoded in the word itself;
//! every other word is the address of a structure whose first field, the
//! flags word, carries the type tag. This crate decodes such words, builds
//! them for the values that need no allocation, and wraps them in typed
//! handles. It never follows a handle: where a flags word matters, the
//! caller passes it in.

use vstd::prelude::*;
use crate::ruby::VALUE;
use crate::ruby_type::type_tag;

#[allow(non_upper_case_globals, non_camel_case_types)]
pub mod ruby;
#[allow(non_snake_case)]
pub mod macros;
pub mod ruby_type;
pub mod array;
pub mod hash;
pub mod inspect;
pub mod from_value;
pub mod to_value;

pub use array::{Array, ArrayIterator};
pub use from_value::FromValue;
pub use inspect::{Detail, InspectValue};
pub use ruby_type::{rb_type, tagged_in_header, RubyType};
pub use to_value::ToValue;

verus! {

/// The native stand-in for the runtime's `nil`.
#[derive(Debug, Clone, Copy, PartialEq, Eq, Structural)]
pub struct Nil;

/// What the extension's sample method answers when it is called with
/// `arg`: the handles of `nil`, of `true`, of the integer 25 and of the type
/// tag of `arg`, in the order in which they go into the array that the
/// method returns. `flags` is the flags word of the object that `arg`
/// points to.
pub fn foo(arg: VALUE, flags: VALUE) -> (reply: Vec<VALUE>)
    ensures
        reply@ == seq![
            Nil.handle(),
            true.handle(),
            25i32.handle(),
            (type_tag(arg, flags) as i64).handle(),
        ],
{
    let mut ary: Vec<VALUE> = Vec::new();
    ary.push(Nil.to_value());
    ary.push(true.to_value());
    ary.push(25i32.to_value());
    ary.push((rb_type(arg, flags) as i64).to_value());
    ary
}

} // verus!
