use std::borrow::Cow;

use vlc::{
    flag, from_cstr, from_cstr_owned, from_cstr_ref, to_cstr, to_cstr_array, ArgsError, NulError,
};

#[test]
fn to_cstr_appends_terminator() {
    assert_eq!(to_cstr("abc"), Ok(vec![b'a', b'b', b'c', 0]));
}

#[test]
fn to_cstr_of_empty_text_is_lone_terminator() {
    assert_eq!(to_cstr(""), Ok(vec![0]));
}

#[test]
fn to_cstr_keeps_multibyte_text() {
    let c = to_cstr("é€").unwrap();
    assert_eq!(c, vec![0xc3, 0xa9, 0xe2, 0x82, 0xac, 0]);
}

#[test]
fn to_cstr_rejects_embedded_nul() {
    assert_eq!(to_cstr("ab\0c"), Err(NulError { position: 2 }));
}

#[test]
fn to_cstr_reports_first_of_several_nuls() {
    assert_eq!(to_cstr("\0a\0"), Err(NulError { position: 0 }));
    assert_eq!(to_cstr("é\0\0"), Err(NulError { position: 2 }));
}

#[test]
fn from_cstr_reads_up_to_terminator() {
    assert_eq!(from_cstr(Some(&b"abc\0def"[..])), Some(String::from("abc")));
}

#[test]
fn from_cstr_of_null_is_absent() {
    assert_eq!(from_cstr(None), None);
    assert_eq!(from_cstr_ref(None), None);
}

#[test]
fn from_cstr_of_empty_string_is_empty_not_absent() {
    assert_eq!(from_cstr(Some(&b"\0"[..])), Some(String::new()));
    assert_eq!(from_cstr(Some(&b""[..])), Some(String::new()));
}

#[test]
fn from_cstr_without_terminator_reads_whole_buffer() {
    assert_eq!(from_cstr(Some(&b"xyz"[..])), Some(String::from("xyz")));
}

#[test]
fn from_cstr_replaces_invalid_utf8() {
    let text = from_cstr(Some(&[b'a', 0xff, b'b', 0][..])).unwrap();
    assert_eq!(text, "a\u{fffd}b");
}

#[test]
fn from_cstr_ref_borrows_valid_text() {
    let buf = b"hello\0";
    match from_cstr_ref(Some(&buf[..])) {
        Some(Cow::Borrowed(s)) => assert_eq!(s, "hello"),
        other => panic!("expected borrowed text, got {:?}", other),
    }
}

#[test]
fn from_cstr_ref_decodes_text_not_bytes() {
    let buf = [0xe2, 0x82, 0xac, 0];
    let text = from_cstr_ref(Some(&buf[..])).unwrap();
    assert_eq!(text.chars().count(), 1);
    assert_eq!(text, "€");
}

#[test]
fn from_cstr_owned_frees_only_what_is_there() {
    let some = from_cstr_owned(Some(&b"mrl\0"[..]));
    assert_eq!(some.text, Some(String::from("mrl")));
    assert!(some.free);
    let none = from_cstr_owned(None);
    assert_eq!(none.text, None);
    assert!(!none.free);
}

#[test]
fn ordinary_text_round_trips() {
    for text in ["", "a", "file:///tmp/a b.ogg", "日本語", "--no-video"] {
        let c = to_cstr(text).unwrap();
        assert_eq!(from_cstr(Some(&c[..])), Some(String::from(text)));
        assert_eq!(from_cstr_ref(Some(&c[..])).unwrap(), text);
    }
}

#[test]
fn to_cstr_array_of_none_is_empty() {
    let native = to_cstr_array(&None).unwrap();
    assert_eq!(native.argc, 0);
    assert!(native.argv.is_empty());
}

#[test]
fn to_cstr_array_of_empty_list_is_empty() {
    let native = to_cstr_array(&Some(Vec::new())).unwrap();
    assert_eq!(native.argc, 0);
    assert!(native.argv.is_empty());
}

#[test]
fn to_cstr_array_marshals_each_argument() {
    let args = Some(vec![String::from("--verbose"), String::from("2")]);
    let native = to_cstr_array(&args).unwrap();
    assert_eq!(native.argc, 2);
    assert_eq!(native.argv, vec![b"--verbose\0".to_vec(), b"2\0".to_vec()]);
}

#[test]
fn to_cstr_array_reports_first_bad_argument() {
    let args = Some(vec![
        String::from("ok"),
        String::from("b\0d"),
        String::from("\0"),
    ]);
    match to_cstr_array(&args) {
        Err(e) => assert_eq!(e, ArgsError::Nul { index: 1, position: 1 }),
        Ok(_) => panic!("an argument with a null byte was marshaled"),
    }
}

#[test]
fn flag_is_one_or_zero() {
    assert_eq!(flag(true), 1);
    assert_eq!(flag(false), 0);
}
