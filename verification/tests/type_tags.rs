use ruby_value::macros::INT2FIX;
use ruby_value::ruby::{
    RUBY_Qfalse, RUBY_Qnil, RUBY_Qtrue, RUBY_Qundef, RUBY_T_ARRAY, RUBY_T_BIGNUM, RUBY_T_CLASS,
    RUBY_T_COMPLEX, RUBY_T_DATA, RUBY_T_FALSE, RUBY_T_FILE, RUBY_T_FIXNUM, RUBY_T_FLOAT,
    RUBY_T_HASH, RUBY_T_MATCH, RUBY_T_MODULE, RUBY_T_NIL, RUBY_T_NONE, RUBY_T_OBJECT,
    RUBY_T_RATIONAL, RUBY_T_REGEXP, RUBY_T_STRING, RUBY_T_STRUCT, RUBY_T_SYMBOL, RUBY_T_TRUE,
    RUBY_T_UNDEF, VALUE,
};
use ruby_value::{rb_type, tagged_in_header, RubyType};

const HEAP: VALUE = 0x7f3a_22c0_1040;

#[test]
fn rb_type_of_the_singletons() {
    assert_eq!(rb_type(RUBY_Qnil as VALUE, 0), RUBY_T_NIL as u64);
    assert_eq!(rb_type(RUBY_Qtrue as VALUE, 0), RUBY_T_TRUE as u64);
    assert_eq!(rb_type(RUBY_Qfalse as VALUE, 0), RUBY_T_FALSE as u64);
    assert_eq!(rb_type(RUBY_Qundef as VALUE, 0), RUBY_T_UNDEF as u64);
}

#[test]
fn rb_type_of_fixnums() {
    assert_eq!(rb_type(1, 0), RUBY_T_FIXNUM as u64);
    assert_eq!(rb_type(51, 0), RUBY_T_FIXNUM as u64);
    assert_eq!(rb_type(INT2FIX(-7), 0), RUBY_T_FIXNUM as u64);
    assert_eq!(rb_type(0xffff_ffff_ffff_ffff, 0), RUBY_T_FIXNUM as u64);
    // An odd handle is a fixnum even where its low byte is that of a symbol
    // plus one.
    assert_eq!(rb_type(0x0d, 0), RUBY_T_FIXNUM as u64);
}

#[test]
fn rb_type_of_flonums() {
    assert_eq!(rb_type(2, 0), RUBY_T_FLOAT as u64);
    assert_eq!(rb_type(0x4002_0000_0000_0002, 0), RUBY_T_FLOAT as u64);
    assert_eq!(rb_type(0x0e, 0), RUBY_T_FLOAT as u64);
}

#[test]
fn rb_type_of_static_symbols() {
    assert_eq!(rb_type(0x0c, 0), RUBY_T_SYMBOL as u64);
    assert_eq!(rb_type(0x10c, 0), RUBY_T_SYMBOL as u64);
    assert_eq!(rb_type(0x00ab_cd0c, 0), RUBY_T_SYMBOL as u64);
}

#[test]
fn rb_type_ignores_the_flags_word_of_a_tagged_handle() {
    for obj in [0u64, 8, 0x14, 0x34, 1, 51, 2, 0x0c, 0x10c] {
        assert!(!tagged_in_header(obj));
        let t = rb_type(obj, 0);
        assert_eq!(rb_type(obj, RUBY_T_ARRAY as VALUE), t);
        assert_eq!(rb_type(obj, RUBY_T_STRING as VALUE), t);
        assert_eq!(rb_type(obj, 0xffff_ffff_ffff_ffff), t);
    }
}

#[test]
fn rb_type_of_a_heap_object_is_in_its_flags_word() {
    assert!(tagged_in_header(HEAP));
    assert_eq!(rb_type(HEAP, RUBY_T_ARRAY as VALUE), RUBY_T_ARRAY as u64);
    assert_eq!(rb_type(HEAP, 0x2005), RUBY_T_STRING as u64);
    assert_eq!(rb_type(HEAP, 0xffff_ffe8), RUBY_T_HASH as u64);
    assert_eq!(rb_type(HEAP, 0), RUBY_T_NONE as u64);
    assert_eq!(rb_type(HEAP, 0x20), RUBY_T_NONE as u64);
}

#[test]
fn rb_type_of_an_address_that_ends_like_nil_or_false() {
    assert!(tagged_in_header(0x1_0000_0000));
    assert!(tagged_in_header(0x1_0000_0008));
    assert_eq!(rb_type(0x1_0000_0000, RUBY_T_HASH as VALUE), RUBY_T_HASH as u64);
    assert_eq!(rb_type(0x1_0000_0008, RUBY_T_DATA as VALUE), RUBY_T_DATA as u64);
}

#[test]
fn rb_type_of_an_immediate_without_a_tag_of_its_own() {
    // 0x24 has a low bit set, yet is neither a fixnum, a flonum, `true`, a
    // symbol nor the undefined marker.
    assert!(tagged_in_header(0x24));
    assert!(tagged_in_header(4));
    assert_eq!(rb_type(0x24, RUBY_T_STRING as VALUE), RUBY_T_STRING as u64);
    assert_eq!(rb_type(4, RUBY_T_FILE as VALUE), RUBY_T_FILE as u64);
}

#[test]
fn tagged_in_header_of_the_singletons() {
    assert!(!tagged_in_header(RUBY_Qnil as VALUE));
    assert!(!tagged_in_header(RUBY_Qtrue as VALUE));
    assert!(!tagged_in_header(RUBY_Qfalse as VALUE));
    assert!(!tagged_in_header(RUBY_Qundef as VALUE));
    assert!(tagged_in_header(16));
    assert!(tagged_in_header(HEAP));
}

#[test]
fn ruby_type_of_each_tag() {
    let cases = [
        (RUBY_T_OBJECT, RubyType::Object),
        (RUBY_T_CLASS, RubyType::Class),
        (RUBY_T_MODULE, RubyType::Module),
        (RUBY_T_FLOAT, RubyType::Float),
        (RUBY_T_STRING, RubyType::String),
        (RUBY_T_REGEXP, RubyType::Regexp),
        (RUBY_T_ARRAY, RubyType::Array),
        (RUBY_T_HASH, RubyType::Hash),
        (RUBY_T_STRUCT, RubyType::Struct),
        (RUBY_T_BIGNUM, RubyType::Bignum),
        (RUBY_T_FILE, RubyType::File),
        (RUBY_T_DATA, RubyType::Data),
        (RUBY_T_COMPLEX, RubyType::Complex),
        (RUBY_T_RATIONAL, RubyType::Rational),
        (RUBY_T_NIL, RubyType::Nil),
        (RUBY_T_TRUE, RubyType::True),
        (RUBY_T_FALSE, RubyType::False),
        (RUBY_T_SYMBOL, RubyType::Symbol),
        (RUBY_T_FIXNUM, RubyType::Fixnum),
    ];
    for (tag, ty) in cases {
        assert_eq!(RubyType::from_value(HEAP, tag as VALUE), ty);
        assert_eq!(RubyType::from_value(HEAP, 0xabc0_0000 | tag as VALUE), ty);
    }
}

#[test]
fn ruby_type_of_a_tag_without_a_variant_is_object() {
    for tag in [RUBY_T_NONE, RUBY_T_MATCH, RUBY_T_UNDEF, 0x10, 0x17, 0x1a, 0x1b, 0x1c, 0x1d, 0x1f] {
        assert_eq!(RubyType::from_value(HEAP, tag as VALUE), RubyType::Object);
    }
}

#[test]
fn ruby_type_of_immediates() {
    assert_eq!(RubyType::from_value(RUBY_Qnil as VALUE, 0), RubyType::Nil);
    assert_eq!(RubyType::from_value(RUBY_Qtrue as VALUE, 0), RubyType::True);
    assert_eq!(RubyType::from_value(RUBY_Qfalse as VALUE, 0), RubyType::False);
    assert_eq!(RubyType::from_value(RUBY_Qundef as VALUE, 0), RubyType::Object);
    assert_eq!(RubyType::from_value(INT2FIX(25), 0), RubyType::Fixnum);
    assert_eq!(RubyType::from_value(INT2FIX(-25), 0), RubyType::Fixnum);
    assert_eq!(RubyType::from_value(2, 0), RubyType::Float);
    assert_eq!(RubyType::from_value(0x10c, 0), RubyType::Symbol);
}

#[test]
fn ruby_type_of_an_immediate_ignores_the_flags_word() {
    assert_eq!(RubyType::from_value(RUBY_Qnil as VALUE, RUBY_T_ARRAY as VALUE), RubyType::Nil);
    assert_eq!(RubyType::from_value(INT2FIX(3), RUBY_T_HASH as VALUE), RubyType::Fixnum);
    assert_eq!(RubyType::from_value(RUBY_Qfalse as VALUE, RUBY_T_TRUE as VALUE), RubyType::False);
}
