//! The tests on the bits of a handle, and the encoding of small integers.
//!
//! Each test is stated as arithmetic on the handle, read as a number: which
//! bits are set is a matter of remainders. The functions compute the same
//! with masks.

use vstd::prelude::*;
use crate::ruby::{
    VALUE, RUBY_FIXNUM_FLAG, RUBY_FLONUM_FLAG, RUBY_FLONUM_MASK, RUBY_IMMEDIATE_MASK,
    RUBY_Qfalse, RUBY_Qnil, RUBY_SPECIAL_SHIFT, RUBY_SYMBOL_FLAG, RUBY_T_MASK,
};

verus! {

/// The handle that encodes the integer `i`: twice `i` plus one, in the 64
/// bits of a handle.
pub open spec fn fixnum_handle(i: i64) -> VALUE {
    ((2 * i + 1) % 0x1_0000_0000_0000_0000) as VALUE
}

/// The integers that a handle holds without loss: those of 63 bits, from
/// -2^62 up to 2^62 - 1.
pub open spec fn is_fixable(i: i64) -> bool {
    -0x4000_0000_0000_0000 <= i < 0x4000_0000_0000_0000
}

/// A handle is immediate when it cannot be the address of a heap object:
/// one of its three low bits is set.
pub open spec fn is_immediate(x: VALUE) -> bool {
    x % 8 != 0
}

/// The handles of small integers are the odd ones.
pub open spec fn is_fixnum(f: VALUE) -> bool {
    f % 2 == 1
}

/// The handles of immediate floats end in the bits `10`.
pub open spec fn is_flonum(x: VALUE) -> bool {
    x % 4 == 2
}

/// The handles of static symbols have `0x0c` as their low byte.
pub open spec fn is_static_sym(x: VALUE) -> bool {
    x % 0x100 == 0x0c
}

/// A handle counts as true unless it is that of `false` or of `nil`.
pub open spec fn is_truthy(v: VALUE) -> bool {
    v != RUBY_Qfalse && v != RUBY_Qnil
}

/// The one handle that counts as `nil` is that of `nil`.
pub open spec fn is_nil(v: VALUE) -> bool {
    v == RUBY_Qnil
}

/// The type tag that a flags word holds: its five low bits.
pub open spec fn builtin_type(flags: VALUE) -> u64 {
    flags % 32
}

/// The handle of the integer `i`. An integer of more than 63 bits loses
/// its top bit on the way.
#[inline(always)]
#[verifier::when_used_as_spec(fixnum_handle)]
pub fn INT2FIX(i: i64) -> (v: VALUE)
    ensures
        v == fixnum_handle(i),
{
    assert(((i << 1 | 0x01i64) as u64) == ((2 * i + 1) % 0x1_0000_0000_0000_0000) as u64)
        by (bit_vector);
    #[verifier::truncate]
    ((i << 1 | RUBY_FIXNUM_FLAG as i64) as VALUE)
}

/// Whether `x` is an immediate value rather than an address.
#[verifier::when_used_as_spec(is_immediate)]
pub fn RB_IMMEDIATE_P(x: VALUE) -> (b: bool)
    ensures
        b == is_immediate(x),
{
    assert((x as u32 & 0x07u32) > 0 <==> x % 8 != 0) by (bit_vector);
    (#[verifier::truncate] (x as u32) & RUBY_IMMEDIATE_MASK) > 0
}

/// Whether `f` is the handle of a small integer.
#[verifier::when_used_as_spec(is_fixnum)]
pub fn RB_FIXNUM_P(f: VALUE) -> (b: bool)
    ensures
        b == is_fixnum(f),
{
    assert((f as u32 & 0x01u32) > 0 <==> f % 2 == 1) by (bit_vector);
    (#[verifier::truncate] (f as u32) & RUBY_FIXNUM_FLAG) > 0
}

/// Whether `x` is the handle of an immediate float.
#[verifier::when_used_as_spec(is_flonum)]
pub fn RB_FLONUM_P(x: VALUE) -> (b: bool)
    ensures
        b == is_flonum(x),
{
    assert((x as u32 & 0x03u32) == 0x02u32 <==> x % 4 == 2) by (bit_vector);
    #[verifier::truncate] (x as u32) & RUBY_FLONUM_MASK == RUBY_FLONUM_FLAG
}

/// Whether `x` is the handle of a static symbol.
#[verifier::when_used_as_spec(is_static_sym)]
pub fn RB_STATIC_SYM_P(x: VALUE) -> (b: bool)
    ensures
        b == is_static_sym(x),
{
    assert((x as u32 & !(!0u32 << 8u32)) == 0x0cu32 <==> x % 0x100 == 0x0c) by (bit_vector);
    (#[verifier::truncate] (x as u32) & !(!0u32 << RUBY_SPECIAL_SHIFT)) == RUBY_SYMBOL_FLAG
}

/// Whether `v` counts as true.
#[verifier::when_used_as_spec(is_truthy)]
pub fn RTEST(v: VALUE) -> (b: bool)
    ensures
        b == is_truthy(v),
{
    assert(!((v & !0x08u64) == 0) <==> v != 0 && v != 8) by (bit_vector);
    !(v & !(RUBY_Qnil as u64) == 0)
}

/// Whether `v` counts as `nil`.
#[verifier::when_used_as_spec(is_nil)]
pub fn NIL_P(v: VALUE) -> (b: bool)
    ensures
        b == is_nil(v),
{
    !(v != RUBY_Qnil as u64)
}

/// Takes the type tag out of the flags word of a heap object. The word
/// is the first field of the structure that the object's handle points to;
/// reading it there is left to the caller.
#[verifier::when_used_as_spec(builtin_type)]
pub fn RB_BUILTIN_TYPE(flags: VALUE) -> (t: u64)
    ensures
        t == builtin_type(flags),
{
    assert(flags & 0x1fu64 == flags % 32) by (bit_vector);
    flags & RUBY_T_MASK as u64
}

/// The handle of an integer passes for one: it is immediate, and a fixnum.
pub proof fn lemma_fixnum_handle_is_fixnum(i: i64)
    ensures
        is_fixnum(fixnum_handle(i)),
        is_immediate(fixnum_handle(i)),
{
}

/// No two integers of 63 bits have the same handle.
pub proof fn lemma_fixnum_handle_injective(i: i64, j: i64)
    requires
        is_fixable(i),
        is_fixable(j),
        fixnum_handle(i) == fixnum_handle(j),
    ensures
        i == j,
{
}

/// An integer of 64 bits shares its handle with the one that differs
/// from it in the top bit alone.
pub proof fn lemma_fixnum_handle_wraps(i: i64)
    requires
        i < 0,
    ensures
        fixnum_handle(i) == fixnum_handle((i + 0x8000_0000_0000_0000) as i64),
{
}

/// A handle that counts as `nil` does not count as true.
pub proof fn lemma_nil_is_not_truthy(v: VALUE)
    requires
        is_nil(v),
    ensures
        !is_truthy(v),
{
}

} // verus!
