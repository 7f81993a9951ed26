use fmod_oxide::{FromBytesUntilNulError, FromBytesWithNulError, FromUtf8UntilNul, FromUtf8WithNul, Utf8CStr};

#[test]
fn with_nul_accepts_a_c_string() {
    let c = Utf8CStr::from_utf8_with_nul(b"abc\0").unwrap();
    assert_eq!(c.as_bytes(), b"abc");
    assert_eq!(c.as_bytes_with_nul(), b"abc\0");
    assert_eq!(c.as_str(), "abc");
    assert_eq!(c.as_str_with_nul(), "abc\0");
    assert_eq!(c.len(), 3);
    assert_eq!(c.len_with_nul(), 4);
    assert!(!c.is_empty());
}

#[test]
fn with_nul_reports_interior_nul_position() {
    let err = Utf8CStr::from_utf8_with_nul(b"ab\0c\0").unwrap_err();
    assert_eq!(err, FromUtf8WithNul::CStr(FromBytesWithNulError::InteriorNul { position: 2 }));
}

#[test]
fn with_nul_reports_missing_terminator() {
    let err = Utf8CStr::from_utf8_with_nul(b"abc").unwrap_err();
    assert_eq!(err, FromUtf8WithNul::CStr(FromBytesWithNulError::NotNulTerminated));
    let empty = Utf8CStr::from_utf8_with_nul(b"").unwrap_err();
    assert_eq!(empty, FromUtf8WithNul::CStr(FromBytesWithNulError::NotNulTerminated));
}

#[test]
fn with_nul_reports_invalid_utf8() {
    let err = Utf8CStr::from_utf8_with_nul(b"a\xff\0").unwrap_err();
    match err {
        FromUtf8WithNul::Utf8(e) => assert_eq!(e.valid_up_to(), 1),
        other => panic!("unexpected error {:?}", other),
    }
}

#[test]
fn nul_check_comes_before_utf8_check() {
    let err = Utf8CStr::from_utf8_with_nul(b"\xff\0\0").unwrap_err();
    assert_eq!(err, FromUtf8WithNul::CStr(FromBytesWithNulError::InteriorNul { position: 1 }));
}

#[test]
fn until_nul_stops_at_first_nul() {
    let c = Utf8CStr::from_utf8_until_nul(b"hi\0there\0").unwrap();
    assert_eq!(c.as_bytes_with_nul(), b"hi\0");
    assert_eq!(c, "hi");
}

#[test]
fn until_nul_needs_a_nul() {
    let err = Utf8CStr::from_utf8_until_nul(b"hi").unwrap_err();
    assert_eq!(err, FromUtf8UntilNul::CStr(FromBytesUntilNulError));
}

#[test]
fn until_nul_checks_only_the_string_part() {
    let c = Utf8CStr::from_utf8_until_nul(b"ok\0\xff\xfe").unwrap();
    assert_eq!(c.as_str(), "ok");
    let err = Utf8CStr::from_utf8_until_nul(b"\xffok\0").unwrap_err();
    assert!(matches!(err, FromUtf8UntilNul::Utf8(_)));
}

#[test]
fn str_until_nul_without_nul_fails() {
    assert_eq!(Utf8CStr::from_str_until_nul("no nul"), Err(FromBytesUntilNulError));
}

#[test]
fn str_with_nul_reports_errors() {
    assert_eq!(Utf8CStr::from_str_with_nul("abc"), Err(FromBytesWithNulError::NotNulTerminated));
    assert_eq!(
        Utf8CStr::from_str_with_nul("a\0bc\0"),
        Err(FromBytesWithNulError::InteriorNul { position: 1 })
    );
}

#[test]
fn multibyte_lengths_count_bytes() {
    let c = Utf8CStr::from_str_with_nul("h\u{e9}llo\0").unwrap();
    assert_eq!(c.len(), 6);
    assert_eq!(c.len_with_nul(), 7);
    assert_eq!(c.as_str(), "h\u{e9}llo");
}

#[test]
fn empty_string_is_empty() {
    let c = Utf8CStr::from_str_with_nul("\0").unwrap();
    assert!(c.is_empty());
    assert_eq!(c.len(), 0);
    assert_eq!(c.len_with_nul(), 1);
    let d = Utf8CStr::default();
    assert!(d.is_empty());
    assert_eq!(d.as_bytes_with_nul(), b"\0");
    assert_eq!(c, d);
}

#[test]
fn unchecked_wraps_the_same_bytes() {
    let c = Utf8CStr::from_utf8_with_nul_unchecked(b"xyz\0");
    assert_eq!(c.as_str(), "xyz");
}

#[test]
fn bytes_with_nul_round_trip() {
    let c = Utf8CStr::from_str_with_nul("round \u{1F600} trip\0").unwrap();
    let again = Utf8CStr::from_utf8_with_nul(c.as_bytes_with_nul()).unwrap();
    assert_eq!(again, c);
    let with_rest = [c.as_bytes_with_nul(), b"tail"].concat();
    let prefix = Utf8CStr::from_utf8_until_nul(&with_rest).unwrap();
    assert_eq!(prefix, c);
}

#[test]
fn equality_with_strings() {
    let c = Utf8CStr::from_str_with_nul("same\0").unwrap();
    assert!(c == "same");
    assert!(c != "other");
    assert!(c == String::from("same"));
    assert!(c != String::from("sam"));
}

#[test]
fn to_cstring_copies() {
    let c = Utf8CStr::from_str_with_nul("copy\0").unwrap();
    let owned = c.to_cstring();
    assert_eq!(owned, "copy");
    assert_eq!(owned.as_utf8_cstr(), c);
}

#[test]
fn str_and_bytes_readings_agree() {
    for s in ["plain\0", "in\0side\0", "none", "\u{e9}t\u{e9}\0"] {
        let from_str = Utf8CStr::from_str_with_nul(s);
        let from_bytes = Utf8CStr::from_utf8_with_nul(s.as_bytes());
        assert_eq!(from_str.is_ok(), from_bytes.is_ok());
        if let (Ok(a), Ok(b)) = (from_str, from_bytes) {
            assert_eq!(a, b);
        }
    }
}

#[test]
fn str_until_nul_is_always_utf8() {
    let s = "h\u{e9}\0\u{1F600}";
    let a = Utf8CStr::from_str_until_nul(s).unwrap();
    let b = Utf8CStr::from_utf8_until_nul(s.as_bytes()).unwrap();
    assert_eq!(a, b);
    assert_eq!(a.as_str(), "h\u{e9}");
}

#[test]
fn derefs_to_the_string_before_the_nul() {
    let c = Utf8CStr::from_str_with_nul("hello\0").unwrap();
    assert!(c.starts_with("he"));
    assert_eq!(&*c, "hello");
}
