use tego::error::Error;
use tego::ffi::string::{StringError, TegoString};
use tego::file_hash::{FileHash, FileHashError};
use tego::service_id::{InvalidServiceId, ServiceId};
use tego::text::{has_char, is_white_space_char, split_on, str_eq, trim};

const KNOWN_ID: &str = "6l62fw7tqctlu5fesdqukvpoxezkaxbzllrafa2ve6ewuhzphxczsjyd";

#[test]
fn split_keeps_empty_pieces() {
    assert_eq!(split_on("a,b,,c", ','), vec!["a", "b", "", "c"]);
    assert_eq!(split_on("", ','), vec![""]);
    assert_eq!(split_on(",", ','), vec!["", ""]);
    assert_eq!(split_on("abc", ','), vec!["abc"]);
}

#[test]
fn text_equality_and_search() {
    assert!(str_eq("abc", "abc"));
    assert!(!str_eq("abc", "abd"));
    assert!(!str_eq("abc", "ab"));
    assert!(has_char("user:name", ':'));
    assert!(!has_char("username", ':'));
    assert!(!has_char("", ':'));
}

#[test]
fn service_id_accepts_valid_text() {
    assert!(ServiceId::is_valid(KNOWN_ID));
    let id = ServiceId::from_string(KNOWN_ID).unwrap();
    assert_eq!(id.as_str(), KNOWN_ID);
    let copy = id.clone();
    assert!(copy.same(&id));
}

#[test]
fn service_id_refuses_invalid_text() {
    assert!(!ServiceId::is_valid(""));
    assert!(matches!(
        ServiceId::from_string("6L62FW7TQCTLU5FESDQUKVPOXEZKAXBZLLRAFA2VE6EWUHZPHXCZSJYD"),
        Err(InvalidServiceId)
    ));
    assert!(ServiceId::from_string("aaaaaaaaaaaaaaaaaaaaaaaaaaaaaaaaaaaaaaaaaaaaaaaaaaaaaaaa").is_err());
}

#[test]
fn tego_string_round_trips_with_terminator() {
    let s = TegoString::new(b"hello").unwrap();
    assert_eq!(s.size(), 6);
    assert_eq!(s.data_with_nul(6).unwrap(), b"hello\0".to_vec());
    assert_eq!(s.data_with_nul(100).unwrap(), b"hello\0".to_vec());
    assert_eq!(s.data_with_nul(5), Err(StringError::BufferTooSmall));
    let empty = TegoString::new(b"").unwrap();
    assert_eq!(empty.size(), 1);
    assert_eq!(empty.data_with_nul(1).unwrap(), vec![0u8]);
}

#[test]
fn tego_string_refuses_bad_bytes() {
    assert!(matches!(TegoString::new(&[0xffu8, 0x41]), Err(StringError::InvalidUtf8)));
    assert!(matches!(TegoString::new(b"a\0b"), Err(StringError::InteriorNul)));
    let s = TegoString::new("h\u{e9}llo".as_bytes()).unwrap();
    assert_eq!(s.size(), 7);
}

#[test]
fn error_message_without_nul() {
    assert_eq!(Error::new("something failed").message(), "something failed");
    assert_eq!(Error::new("bad\0message").message(), "");
    assert_eq!(Error::new("").message(), "");
}

#[test]
fn file_hash_in_lowercase_hex() {
    let h = FileHash::new(vec![0x00, 0x0f, 0xab, 0xff]);
    assert_eq!(h.to_hex(), "000fabff");
    assert_eq!(h.string_size(), 9);
    assert_eq!(h.to_string_for_buffer(9).unwrap(), "000fabff");
    assert_eq!(h.to_string_for_buffer(8), Err(FileHashError::BufferTooSmall));
    let empty = FileHash::new(vec![]);
    assert_eq!(empty.to_hex(), "");
    assert_eq!(empty.string_size(), 1);
}

#[test]
fn trim_removes_unicode_white_space_at_both_ends() {
    for text in ["  a b \t", "\u{3000}x\u{85}", "   ", "", "\u{2028}\u{200a}y z\u{205f}\n", "no-space", "\u{200b}zw\u{200b}"] {
        assert_eq!(trim(text), text.trim());
    }
    assert_eq!(trim("  a b \t"), "a b");
    assert!(is_white_space_char('\u{a0}'));
    assert!(!is_white_space_char('\u{200b}'));
    assert!(!is_white_space_char('x'));
}
