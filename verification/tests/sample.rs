use ruby_value::foo;
use ruby_value::macros::INT2FIX;
use ruby_value::ruby::{
    RUBY_Qnil, RUBY_Qtrue, RUBY_T_ARRAY, RUBY_T_FIXNUM, RUBY_T_HASH, RUBY_T_NIL, VALUE,
};

const HEAP: VALUE = 0x7f3a_22c0_1040;

#[test]
fn foo_answers_with_four_handles() {
    let reply = foo(HEAP, RUBY_T_ARRAY as VALUE);
    assert_eq!(reply, vec![0x08, 0x14, 51, 15]);
}

#[test]
fn foo_reports_the_type_of_its_argument() {
    assert_eq!(foo(HEAP, RUBY_T_HASH as VALUE)[3], INT2FIX(RUBY_T_HASH as i64));
    assert_eq!(foo(RUBY_Qnil as VALUE, 0)[3], INT2FIX(RUBY_T_NIL as i64));
    assert_eq!(foo(INT2FIX(9), 0)[3], INT2FIX(RUBY_T_FIXNUM as i64));
    assert_eq!(foo(INT2FIX(9), 0)[3], 43);
    assert_eq!(foo(HEAP, 0xffff_ffe8)[3], 17);
}

#[test]
fn foo_starts_with_nil_true_and_twenty_five() {
    for (arg, flags) in [(HEAP, 7u64), (0, 0), (51, 5), (0x14, 0)] {
        let reply = foo(arg, flags);
        assert_eq!(reply.len(), 4);
        assert_eq!(reply[0], RUBY_Qnil as VALUE);
        assert_eq!(reply[1], RUBY_Qtrue as VALUE);
        assert_eq!(reply[2], INT2FIX(25));
    }
}
