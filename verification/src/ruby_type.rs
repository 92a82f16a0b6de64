//! The type of the value behind a handle.

use vstd::prelude::*;
use crate::macros::{
    builtin_type, fixnum_handle, is_fixnum, is_flonum, is_immediate, is_static_sym,
    RB_BUILTIN_TYPE, RB_FIXNUM_P, RB_FLONUM_P, RB_IMMEDIATE_P, RB_STATIC_SYM_P, RTEST,
};
use crate::ruby::{
    VALUE, RUBY_Qfalse, RUBY_Qnil, RUBY_Qtrue, RUBY_Qundef, RUBY_T_ARRAY, RUBY_T_BIGNUM,
    RUBY_T_CLASS, RUBY_T_COMPLEX, RUBY_T_DATA, RUBY_T_FALSE, RUBY_T_FILE, RUBY_T_FIXNUM,
    RUBY_T_FLOAT, RUBY_T_HASH, RUBY_T_MASK, RUBY_T_MODULE, RUBY_T_NIL, RUBY_T_RATIONAL,
    RUBY_T_REGEXP, RUBY_T_STRING, RUBY_T_STRUCT, RUBY_T_SYMBOL, RUBY_T_TRUE, RUBY_T_UNDEF,
};

verus! {

/// The type tag that a handle carries in its own bits, if it carries one:
/// small integers, immediate floats, `true`, static symbols, the undefined
/// marker, `nil` and `false`, looked for in this order.
pub open spec fn immediate_type(obj: VALUE) -> Option<u64> {
    if is_fixnum(obj) {
        Some(RUBY_T_FIXNUM as u64)
    } else if is_flonum(obj) {
        Some(RUBY_T_FLOAT as u64)
    } else if obj == RUBY_Qtrue {
        Some(RUBY_T_TRUE as u64)
    } else if is_static_sym(obj) {
        Some(RUBY_T_SYMBOL as u64)
    } else if obj == RUBY_Qundef {
        Some(RUBY_T_UNDEF as u64)
    } else if obj == RUBY_Qnil {
        Some(RUBY_T_NIL as u64)
    } else if obj == RUBY_Qfalse {
        Some(RUBY_T_FALSE as u64)
    } else {
        None
    }
}

/// The type tag of the value behind `obj`, where `flags` is the flags word
/// of the object that `obj` points to. The tag is the handle's own where it
/// has one, and the one in the flags word for every other handle.
pub open spec fn type_tag(obj: VALUE, flags: VALUE) -> u64 {
    match immediate_type(obj) {
        Some(tag) => tag,
        None => builtin_type(flags),
    }
}

/// Says whether the type of `obj` has to be looked up in the flags word of
/// the object it points to. Where this is false, `rb_type` and all that
/// builds on it give the same answer for every flags word, so that a caller
/// who holds only the handle may pass any.
pub fn tagged_in_header(obj: VALUE) -> (b: bool)
    ensures
        b == (immediate_type(obj) is None),
        !b ==> forall|f: VALUE, g: VALUE| type_tag(obj, f) == type_tag(obj, g),
{
    !RB_FIXNUM_P(obj) && !RB_FLONUM_P(obj) && obj != RUBY_Qtrue as u64 && !RB_STATIC_SYM_P(obj)
        && obj != RUBY_Qundef as u64 && obj != RUBY_Qnil as u64 && obj != RUBY_Qfalse as u64
}

/// The type tag of the value behind `obj`. `flags` is the flags word of
/// the object that `obj` points to; it is looked at only where
/// `tagged_in_header(obj)` holds.
#[inline(always)]
pub fn rb_type(obj: VALUE, flags: VALUE) -> (tag: u64)
    ensures
        tag == type_tag(obj, flags),
        tag <= RUBY_T_MASK,
{
    if RB_IMMEDIATE_P(obj) {
        if RB_FIXNUM_P(obj) {
            return RUBY_T_FIXNUM as u64;
        }
        if RB_FLONUM_P(obj) {
            return RUBY_T_FLOAT as u64;
        }
        if obj == RUBY_Qtrue as u64 {
            return RUBY_T_TRUE as u64;
        }
        if RB_STATIC_SYM_P(obj) {
            return RUBY_T_SYMBOL as u64;
        }
        if obj == RUBY_Qundef as u64 {
            return RUBY_T_UNDEF as u64;
        }
    } else if !RTEST(obj) {
        if obj == RUBY_Qnil as u64 {
            return RUBY_T_NIL as u64;
        }
        if obj == RUBY_Qfalse as u64 {
            return RUBY_T_FALSE as u64;
        }
    }
    return RB_BUILTIN_TYPE(flags);
}

/// The types that a handle is told apart by.
#[derive(Debug, Clone, Copy, PartialEq, Eq, Structural)]
pub enum RubyType {
    Nil,
    Object,
    Class,
    Module,
    Float,
    String,
    Regexp,
    Array,
    Hash,
    Struct,
    Bignum,
    Fixnum,
    Complex,
    Rational,
    File,
    True,
    False,
    Data,
    Symbol,
}

impl RubyType {
    /// The type that a type tag stands for. A tag without a variant of its
    /// own counts as `Object`.
    pub open spec fn of_tag(tag: u64) -> RubyType {
        if tag == RUBY_T_ARRAY {
            RubyType::Array
        } else if tag == RUBY_T_BIGNUM {
            RubyType::Bignum
        } else if tag == RUBY_T_CLASS {
            RubyType::Class
        } else if tag == RUBY_T_COMPLEX {
            RubyType::Complex
        } else if tag == RUBY_T_DATA {
            RubyType::Data
        } else if tag == RUBY_T_FALSE {
            RubyType::False
        } else if tag == RUBY_T_FILE {
            RubyType::File
        } else if tag == RUBY_T_FIXNUM {
            RubyType::Fixnum
        } else if tag == RUBY_T_FLOAT {
            RubyType::Float
        } else if tag == RUBY_T_HASH {
            RubyType::Hash
        } else if tag == RUBY_T_MODULE {
            RubyType::Module
        } else if tag == RUBY_T_NIL {
            RubyType::Nil
        } else if tag == RUBY_T_RATIONAL {
            RubyType::Rational
        } else if tag == RUBY_T_REGEXP {
            RubyType::Regexp
        } else if tag == RUBY_T_STRING {
            RubyType::String
        } else if tag == RUBY_T_STRUCT {
            RubyType::Struct
        } else if tag == RUBY_T_SYMBOL {
            RubyType::Symbol
        } else if tag == RUBY_T_TRUE {
            RubyType::True
        } else {
            RubyType::Object
        }
    }

    /// The type of the value behind `obj`, where `flags` is the flags word
    /// of the object that `obj` points to.
    pub open spec fn of(obj: VALUE, flags: VALUE) -> RubyType {
        Self::of_tag(type_tag(obj, flags))
    }

    /// The type of the value behind `obj`. `flags` is the flags word of the
    /// object that `obj` points to; it is looked at only where
    /// `tagged_in_header(obj)` holds.
    pub fn from_value(obj: VALUE, flags: VALUE) -> (ty: Self)
        ensures
            ty == Self::of(obj, flags),
    {
        match rb_type(obj, flags) as u32 {
            RUBY_T_ARRAY => RubyType::Array,
            RUBY_T_BIGNUM => RubyType::Bignum,
            RUBY_T_CLASS => RubyType::Class,
            RUBY_T_COMPLEX => RubyType::Complex,
            RUBY_T_DATA => RubyType::Data,
            RUBY_T_FALSE => RubyType::False,
            RUBY_T_FILE => RubyType::File,
            RUBY_T_FIXNUM => RubyType::Fixnum,
            RUBY_T_FLOAT => RubyType::Float,
            RUBY_T_HASH => RubyType::Hash,
            RUBY_T_MODULE => RubyType::Module,
            RUBY_T_NIL => RubyType::Nil,
            RUBY_T_RATIONAL => RubyType::Rational,
            RUBY_T_REGEXP => RubyType::Regexp,
            RUBY_T_STRING => RubyType::String,
            RUBY_T_STRUCT => RubyType::Struct,
            RUBY_T_SYMBOL => RubyType::Symbol,
            RUBY_T_TRUE => RubyType::True,
            _ => RubyType::Object,
        }
    }
}

/// The handle of an integer has the type tag of a fixnum, whatever the
/// flags word.
pub proof fn lemma_fixnum_handle_type(i: i64, flags: VALUE)
    ensures
        type_tag(fixnum_handle(i), flags) == RUBY_T_FIXNUM,
{
}

/// The handles of `nil`, `true` and `false` have their own type tags,
/// whatever the flags word.
pub proof fn lemma_singleton_types(flags: VALUE)
    ensures
        type_tag(RUBY_Qnil as VALUE, flags) == RUBY_T_NIL,
        type_tag(RUBY_Qtrue as VALUE, flags) == RUBY_T_TRUE,
        type_tag(RUBY_Qfalse as VALUE, flags) == RUBY_T_FALSE,
{
}

/// The address of a heap object, which has its three low bits clear and is
/// not zero or eight, has the type tag that the object's flags word holds.
pub proof fn lemma_heap_object_type(obj: VALUE, flags: VALUE)
    requires
        !is_immediate(obj),
        obj != RUBY_Qnil,
        obj != RUBY_Qfalse,
    ensures
        immediate_type(obj) is None,
        type_tag(obj, flags) == builtin_type(flags),
{
}

} // verus!
