use fmod_oxide::{Utf8CStr, Utf8CString};

const TEST_STR: &str = "Hello, world!";
const INTERIOR_NUL: &str = "Hello\0, world!";
const TRAILING_NUL: &str = "Hello, world!\0";

#[test]
fn it_works() {
    let str = Utf8CStr::from_str_with_nul("Hello, world!\0").unwrap();
    assert_eq!(str, TEST_STR);
}

#[test]
fn from_interior() {
    Utf8CStr::from_str_with_nul(INTERIOR_NUL).expect_err("string had interior nul");
}

#[test]
fn from_trailing() {
    let str = Utf8CStr::from_str_with_nul(TRAILING_NUL).unwrap();
    assert_eq!(str, TEST_STR);
}

#[test]
fn truncating_interior() {
    let str = Utf8CStr::from_str_until_nul(INTERIOR_NUL).unwrap();
    assert_eq!(str, "Hello");
}

#[test]
fn from_non_terminated() {
    let str = Utf8CString::new(TEST_STR).unwrap();
    assert_eq!(str, TEST_STR);
}
