//! The handle type and the constants of the runtime's value encoding.

use vstd::prelude::*;

verus! {

/// A value handle: an immediate value, or the address of a heap object.
pub type VALUE = u64;

/// The handle of `false`.
pub const RUBY_Qfalse: u32 = 0x00;

/// The handle of `true`.
pub const RUBY_Qtrue: u32 = 0x14;

/// The handle of `nil`.
pub const RUBY_Qnil: u32 = 0x08;

/// The handle that marks an undefined slot.
pub const RUBY_Qundef: u32 = 0x34;

/// The bits that are all clear in the address of a heap object.
pub const RUBY_IMMEDIATE_MASK: u32 = 0x07;

/// The bit that is set in the handle of a small integer.
pub const RUBY_FIXNUM_FLAG: u32 = 0x01;

/// The bits that tell an immediate float from other handles.
pub const RUBY_FLONUM_MASK: u32 = 0x03;

/// What the bits under `RUBY_FLONUM_MASK` hold in an immediate float.
pub const RUBY_FLONUM_FLAG: u32 = 0x02;

/// What the low byte holds in the handle of a static symbol.
pub const RUBY_SYMBOL_FLAG: u32 = 0x0c;

/// The width in bits of the tag of a special constant.
pub const RUBY_SPECIAL_SHIFT: u32 = 8;

// The type tags. A heap object holds its tag in the low bits of its flags
// word. `nil`, `true`, `false`, small integers and the undefined marker have
// no heap object: their tags are told by the handle, as are those of
// immediate floats and static symbols.

pub const RUBY_T_NONE: u32 = 0x00;

pub const RUBY_T_OBJECT: u32 = 0x01;

pub const RUBY_T_CLASS: u32 = 0x02;

pub const RUBY_T_MODULE: u32 = 0x03;

pub const RUBY_T_FLOAT: u32 = 0x04;

pub const RUBY_T_STRING: u32 = 0x05;

pub const RUBY_T_REGEXP: u32 = 0x06;

pub const RUBY_T_ARRAY: u32 = 0x07;

pub const RUBY_T_HASH: u32 = 0x08;

pub const RUBY_T_STRUCT: u32 = 0x09;

pub const RUBY_T_BIGNUM: u32 = 0x0a;

pub const RUBY_T_FILE: u32 = 0x0b;

pub const RUBY_T_DATA: u32 = 0x0c;

pub const RUBY_T_MATCH: u32 = 0x0d;

pub const RUBY_T_COMPLEX: u32 = 0x0e;

pub const RUBY_T_RATIONAL: u32 = 0x0f;

pub const RUBY_T_NIL: u32 = 0x11;

pub const RUBY_T_TRUE: u32 = 0x12;

pub const RUBY_T_FALSE: u32 = 0x13;

pub const RUBY_T_SYMBOL: u32 = 0x14;

pub const RUBY_T_FIXNUM: u32 = 0x15;

pub const RUBY_T_UNDEF: u32 = 0x16;

/// The bits of a flags word that hold the type tag.
pub const RUBY_T_MASK: u32 = 0x1f;

} // verus!
