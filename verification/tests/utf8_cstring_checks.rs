use fmod_oxide::{FromBytesWithNulError, FromOwnedUtf8WithNul, Utf8CString};

#[test]
fn new_appends_terminator() {
    let c = Utf8CString::new("abc").unwrap();
    assert_eq!(c.clone().into_bytes(), b"abc".to_vec());
    assert_eq!(c.clone().into_bytes_with_nul(), b"abc\0".to_vec());
    assert_eq!(c.clone().into_string(), "abc");
    assert_eq!(c.into_string_with_nul(), "abc\0");
}

#[test]
fn new_refuses_nul_and_names_first() {
    let err = Utf8CString::new("a\0b\0").unwrap_err();
    assert_eq!(err.nul_position(), 1);
    assert_eq!(err.into_vec(), b"a\0b\0".to_vec());
}

#[test]
fn string_with_nul_takes_one_trailing_nul() {
    let c = Utf8CString::from_string_with_nul("done\0").unwrap();
    assert_eq!(c, "done");
    let err = Utf8CString::from_string_with_nul("done").unwrap_err();
    assert_eq!(err.kind(), FromBytesWithNulError::NotNulTerminated);
    assert_eq!(err.as_bytes(), b"done");
    let err = Utf8CString::from_string_with_nul("do\0ne\0").unwrap_err();
    assert_eq!(err.kind(), FromBytesWithNulError::InteriorNul { position: 2 });
    assert_eq!(err.into_bytes(), b"do\0ne\0".to_vec());
}

#[test]
fn utf8_with_nul_checks_utf8_first() {
    match Utf8CString::from_utf8_with_nul(b"\xff\0\0".to_vec()).unwrap_err() {
        FromOwnedUtf8WithNul::Utf8(e) => assert_eq!(e.into_bytes(), b"\xff\0\0".to_vec()),
        other => panic!("unexpected error {:?}", other),
    }
}

#[test]
fn utf8_with_nul_then_checks_nul() {
    match Utf8CString::from_utf8_with_nul(b"ab".to_vec()).unwrap_err() {
        FromOwnedUtf8WithNul::CString(e) => {
            assert_eq!(e.kind(), FromBytesWithNulError::NotNulTerminated);
            assert_eq!(e.into_bytes(), b"ab".to_vec());
        }
        other => panic!("unexpected error {:?}", other),
    }
    match Utf8CString::from_utf8_with_nul(b"a\0b\0".to_vec()).unwrap_err() {
        FromOwnedUtf8WithNul::CString(e) => {
            assert_eq!(e.kind(), FromBytesWithNulError::InteriorNul { position: 1 })
        }
        other => panic!("unexpected error {:?}", other),
    }
}

#[test]
fn utf8_with_nul_keeps_the_bytes() {
    let c = Utf8CString::from_utf8_with_nul("gr\u{fc}\u{df}e\0".as_bytes().to_vec()).unwrap();
    assert_eq!(c, "gr\u{fc}\u{df}e");
    assert_eq!(c.into_bytes_with_nul(), "gr\u{fc}\u{df}e\0".as_bytes().to_vec());
}

#[test]
fn unchecked_constructors() {
    let a = Utf8CString::from_utf8_unchecked(b"raw".to_vec());
    let b = Utf8CString::from_utf8_with_nul_unchecked(b"raw\0".to_vec());
    assert_eq!(a, b);
    assert_eq!(a.as_utf8_cstr().len(), 3);
}

#[test]
fn owned_round_trip() {
    let c = Utf8CString::new("again").unwrap();
    let back = Utf8CString::from_utf8_with_nul(c.clone().into_bytes_with_nul()).unwrap();
    assert_eq!(back, c);
}

#[test]
fn default_is_empty() {
    let d = Utf8CString::default();
    assert_eq!(d, "");
    assert_eq!(d.into_bytes_with_nul(), vec![0u8]);
}

#[test]
fn equality_and_order() {
    let a = Utf8CString::new("a").unwrap();
    let b = Utf8CString::new("b").unwrap();
    assert!(a != b);
    assert!(a < b);
    assert!(a == String::from("a"));
}


#[test]
fn owned_utf8_error_clones_equal() {
    let err = Utf8CString::from_utf8_with_nul(b"\xfe\0".to_vec()).unwrap_err();
    let copy = err.clone();
    assert_eq!(copy, err);
    match copy {
        FromOwnedUtf8WithNul::Utf8(e) => assert_eq!(e.utf8_error().valid_up_to(), 0),
        other => panic!("unexpected error {:?}", other),
    }
}
