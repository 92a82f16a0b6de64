use ruby_value::ruby::{RUBY_T_ARRAY, VALUE};
use ruby_value::{Array, ArrayIterator, FromValue, ToValue};

const HEAP: VALUE = 0x7f3a_22c0_1040;

#[test]
fn cursor_hands_out_every_index_once_in_order() {
    let arr = Array::from_value(HEAP, RUBY_T_ARRAY as VALUE).unwrap();
    let mut it = ArrayIterator::new(arr, 4);
    assert_eq!(it.next(), Some(0));
    assert_eq!(it.next(), Some(1));
    assert_eq!(it.next(), Some(2));
    assert_eq!(it.next(), Some(3));
    assert_eq!(it.next(), None);
}

#[test]
fn cursor_over_an_empty_array() {
    let mut it = ArrayIterator::new(Array::from_value_unchecked(HEAP, 0), 0);
    assert_eq!(it.next(), None);
    assert_eq!(it.next(), None);
}

#[test]
fn cursor_over_one_entry() {
    let mut it = ArrayIterator::new(Array::from_value_unchecked(HEAP, 0), 1);
    assert_eq!(it.next(), Some(0));
    assert_eq!(it.next(), None);
}

#[test]
fn cursor_stays_at_the_end() {
    let mut it = ArrayIterator::new(Array::from_value_unchecked(HEAP, 0), 2);
    assert_eq!(it.next(), Some(0));
    assert_eq!(it.next(), Some(1));
    for _ in 0..5 {
        assert_eq!(it.next(), None);
    }
}

#[test]
fn cursor_keeps_its_array() {
    let mut it = ArrayIterator::new(Array::from_value_unchecked(HEAP, 0), 3);
    assert_eq!(it.array().to_value(), HEAP);
    it.next();
    assert_eq!(it.array().to_value(), HEAP);
    it.next();
    it.next();
    it.next();
    assert_eq!(it.array().to_value(), HEAP);
}

#[test]
fn cursor_counts_as_far_as_it_was_told() {
    let mut it = ArrayIterator::new(Array::from_value_unchecked(HEAP, 0), 1000);
    let mut seen: Vec<usize> = Vec::new();
    while let Some(i) = it.next() {
        seen.push(i);
    }
    assert_eq!(seen.len(), 1000);
    for (k, i) in seen.iter().enumerate() {
        assert_eq!(*i, k);
    }
}

#[test]
fn cursor_at_the_largest_length() {
    let mut it = ArrayIterator::new(Array::from_value_unchecked(HEAP, 0), usize::MAX);
    assert_eq!(it.next(), Some(0));
    assert_eq!(it.next(), Some(1));
}
