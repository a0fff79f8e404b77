//! Bounded path construction: exact concatenation, the terminator, and the
//! capacity limit.

use sdmmc::path::{HeaplessCStr, PATH_BUF_CAPACITY};
use sdmmc::status::Error;

#[test]
fn single_fragment_is_terminated() {
    let p = HeaplessCStr::new("abc").unwrap();
    assert_eq!(p.as_bytes(), b"abc\0");
}

#[test]
fn empty_fragment_is_just_the_terminator() {
    let p = HeaplessCStr::new("").unwrap();
    assert_eq!(p.as_bytes(), b"\0");
}

#[test]
fn mode_string() {
    let p = HeaplessCStr::new("w").unwrap();
    assert_eq!(p.as_bytes(), b"w\0");
}

#[test]
fn multi_fragment_concatenation() {
    let p = HeaplessCStr::new_multi(&["/sdcard", "/", "write.txt"]).unwrap();
    assert_eq!(p.as_bytes(), b"/sdcard/write.txt\0");
}

#[test]
fn multi_with_empty_fragments() {
    let p = HeaplessCStr::new_multi(&["", "dir", ""]).unwrap();
    assert_eq!(p.as_bytes(), b"dir\0");
}

#[test]
fn longest_fitting_path_succeeds() {
    let long = "x".repeat(PATH_BUF_CAPACITY - 1);
    let p = HeaplessCStr::new(&long).unwrap();
    assert_eq!(p.as_bytes().len(), PATH_BUF_CAPACITY);
    assert_eq!(p.as_bytes()[PATH_BUF_CAPACITY - 1], 0);
    assert_eq!(&p.as_bytes()[..PATH_BUF_CAPACITY - 1], long.as_bytes());
}

#[test]
fn one_byte_over_capacity_fails() {
    let long = "x".repeat(PATH_BUF_CAPACITY);
    let r = HeaplessCStr::new(&long);
    assert!(matches!(r, Err(Error::PathTooLong)));
}

#[test]
fn multi_fragment_over_capacity_fails() {
    let a = "a".repeat(64);
    let b = "b".repeat(65);
    let r = HeaplessCStr::new_multi(&[&a, &b]);
    assert!(matches!(r, Err(Error::PathTooLong)));
}

#[test]
fn multi_fragment_exactly_at_capacity_succeeds() {
    let a = "a".repeat(64);
    let b = "b".repeat(64);
    let p = HeaplessCStr::new_multi(&[&a, &b]).unwrap();
    assert_eq!(p.as_bytes().len(), PATH_BUF_CAPACITY);
    assert_eq!(p.as_bytes()[PATH_BUF_CAPACITY - 1], 0);
}

#[test]
fn non_ascii_fragment_uses_utf8_bytes() {
    let p = HeaplessCStr::new("héllo").unwrap();
    assert_eq!(p.as_bytes(), "héllo\0".as_bytes());
}
