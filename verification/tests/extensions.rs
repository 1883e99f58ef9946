use std::path::PathBuf;

use stdont::prelude::BoolExt;
use stdont::OptionExt;
use stdont::PathBufExt;
use stdont::ResultExt;
use stdont::VecExt;

#[test]
fn implies_truth_table() {
    assert!(false.implies(false));
    assert!(false.implies(true));
    assert!(!true.implies(false));
    assert!(true.implies(true));
}

#[test]
fn implied_by_truth_table() {
    assert!(false.implied_by(false));
    assert!(!false.implied_by(true));
    assert!(true.implied_by(false));
    assert!(true.implied_by(true));
}

#[test]
fn implies_is_implied_by_reversed() {
    let cases = [(false, false), (false, true), (true, false), (true, true)];
    for (a, b) in cases {
        assert_eq!(a.implies(b), !a || b);
        assert_eq!(a.implied_by(b), !b || a);
        assert_eq!(a.implies(b), b.implied_by(a));
    }
}

#[test]
fn is_none_or_present_satisfying() {
    let x: Option<u32> = Some(2);
    assert_eq!(OptionExt::is_none_or(x, |x| x > 1), true);
}

#[test]
fn is_none_or_present_failing() {
    let x: Option<u32> = Some(0);
    assert_eq!(OptionExt::is_none_or(x, |x| x > 1), false);
}

#[test]
fn is_none_or_absent() {
    let x: Option<u32> = None;
    assert_eq!(OptionExt::is_none_or(x, |x| x > 1), true);
}

#[test]
fn is_none_or_consumes_the_value() {
    let x: Option<String> = Some(String::from("abc"));
    assert!(OptionExt::is_none_or(x, |s| s.len() == 3));
}

#[test]
fn unwrap_display_on_success() {
    let x: Result<u32, &str> = Ok(2);
    assert_eq!(x.unwrap_display(), 2);
}

#[test]
fn expect_display_on_success() {
    let x: Result<u32, &str> = Ok(7);
    assert_eq!(x.expect_display("Testing expect"), 7);
}

#[test]
fn try_remove_in_bounds() {
    let mut v = vec![10, 20, 30];
    assert_eq!(VecExt::try_remove(&mut v, 1), Some(20));
    assert_eq!(v, vec![10, 30]);
}

#[test]
fn try_remove_out_of_bounds() {
    let mut v = vec![10, 20, 30];
    assert_eq!(VecExt::try_remove(&mut v, 5), None);
    assert_eq!(v, vec![10, 20, 30]);
}

#[test]
fn try_remove_index_equal_to_length() {
    let mut v = vec![10, 20, 30];
    assert_eq!(VecExt::try_remove(&mut v, 3), None);
    assert_eq!(v, vec![10, 20, 30]);
}

#[test]
fn try_remove_from_empty() {
    let mut v: Vec<u32> = vec![];
    assert_eq!(VecExt::try_remove(&mut v, 0), None);
    assert!(v.is_empty());
}

#[test]
fn try_swap_remove_in_bounds() {
    let mut v = vec![10, 20, 30];
    assert_eq!(VecExt::try_swap_remove(&mut v, 0), Some(10));
    assert_eq!(v, vec![30, 20]);
}

#[test]
fn try_swap_remove_out_of_bounds() {
    let mut v = vec![10, 20, 30];
    assert_eq!(VecExt::try_swap_remove(&mut v, 3), None);
    assert_eq!(v, vec![10, 20, 30]);
}

#[test]
fn try_swap_remove_from_empty() {
    let mut v: Vec<u32> = vec![];
    assert_eq!(VecExt::try_swap_remove(&mut v, 0), None);
    assert!(v.is_empty());
}

#[test]
fn with_matches_sequential_joins() {
    let path = PathBuf::from("a").with("b").with("c");
    assert_eq!(path, PathBuf::from("a").join("b").join("c"));
}

#[test]
fn with_extends_the_buffer() {
    let path = PathBuf::from("a").with("b");
    assert_ne!(path, PathBuf::from("a"));
    assert_eq!(path, PathBuf::from("a").join("b"));
}

#[test]
fn with_absolute_segment_replaces() {
    let path = PathBuf::from("a").with("/b");
    assert_eq!(path, PathBuf::from("a").join("/b"));
}
