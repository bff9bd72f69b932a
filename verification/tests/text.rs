use opencad_storm_sewer_plugin::edit::to_ascii_lowercase;
use opencad_storm_sewer_plugin::license::{fail, new_license_record, LicenseValidationMode};
use opencad_storm_sewer_plugin::params::to_ascii_uppercase;
use opencad_storm_sewer_plugin::state::StormTabState;
use opencad_storm_sewer_plugin::tables::{push_fill, push_left_aligned, push_right_aligned};
use opencad_storm_sewer_plugin::text::{
    append, append_str, byte_len, char_byte_len, chars_eq, chars_eq_str, chars_of,
    contains_char, decimal, decimal_padded, find_char, is_whitespace, parse_i64, parse_u32,
    parse_u64, slice_chars, split_chars, split_words, str_eq, string_of, take_bytes, trim_chars,
    trim_str,
};

fn s(v: &[char]) -> String {
    v.iter().collect()
}

#[test]
fn building_text() {
    let mut v = chars_of("ab");
    append(&mut v, &chars_of("cd"));
    append_str(&mut v, "é");
    assert_eq!(string_of(&v), "abcdé");
    assert_eq!(opencad_storm_sewer_plugin::text::concat("x", "yz"), "xyz");
    let mut w: Vec<char> = Vec::new();
    push_fill(&mut w, '-', 3);
    push_right_aligned(&mut w, "7", 3);
    push_left_aligned(&mut w, "ab", 4);
    push_left_aligned(&mut w, "toolong", 2);
    assert_eq!(s(&w), "---  7ab  toolong");
}

#[test]
fn trimming_and_splitting() {
    assert_eq!(s(&trim_str("\u{a0} a b \t")), "a b");
    assert_eq!(s(&trim_chars(&chars_of("  x  "))), "x");
    let words: Vec<String> = split_words(&chars_of("  one two\u{2003}three ")).iter().map(|w| s(w)).collect();
    assert_eq!(words, vec!["one", "two", "three"]);
    let parts: Vec<String> = split_chars(&chars_of("a--b"), '-').iter().map(|w| s(w)).collect();
    assert_eq!(parts, vec!["a", "", "b"]);
    assert!(is_whitespace('\u{3000}') && !is_whitespace('x'));
}

#[test]
fn searching_and_comparing() {
    let v = chars_of("hello");
    assert_eq!(find_char(&v, 'l'), Some(2));
    assert_eq!(find_char(&v, 'z'), None);
    assert!(contains_char(&v, 'o'));
    assert_eq!(s(&slice_chars(&v, 1, 3)), "el");
    assert!(chars_eq(&v, &chars_of("hello")));
    assert!(chars_eq_str(&v, "hello") && !chars_eq_str(&v, "hell"));
    assert!(str_eq("a", "a") && !str_eq("a", "b"));
    assert_eq!(s(&to_ascii_lowercase(&chars_of("AbÇ"))), "abÇ");
    assert_eq!(s(&to_ascii_uppercase(&chars_of("aBç"))), "ABç");
}

#[test]
fn bytes_and_numbers() {
    assert_eq!(char_byte_len('a'), 1);
    assert_eq!(char_byte_len('é'), 2);
    assert_eq!(char_byte_len('€'), 3);
    assert_eq!(char_byte_len('😀'), 4);
    assert_eq!(byte_len(&chars_of("aé€")), 6);
    assert_eq!(take_bytes(&chars_of("aé€"), 3).map(|p| s(&p)), Some("aé".to_string()));
    assert_eq!(take_bytes(&chars_of("aé€"), 2), None);
    assert_eq!(s(&decimal(1234)), "1234");
    assert_eq!(s(&decimal_padded(7, 3)), "007");
    assert_eq!(parse_u64(&chars_of("18446744073709551615")), Some(u64::MAX));
    assert_eq!(parse_u64(&chars_of("18446744073709551616")), None);
    assert_eq!(parse_u32(&chars_of("+42")), Some(42));
    assert_eq!(parse_u32(&chars_of("4 2")), None);
    assert_eq!(parse_i64(&chars_of("-9223372036854775808")), Some(i64::MIN));
    assert_eq!(parse_i64(&chars_of("-")), None);
}

#[test]
fn records_and_state() {
    let r = new_license_record("a@b.c", "hc_live_abcdefgh", "2099-01-01T00:00:00Z", "", "online");
    let d = r.duplicate();
    assert_eq!((d.email, d.token, d.product), (r.email.clone(), r.token.clone(), r.product.clone()));
    let f = fail("nope".to_string());
    assert!(!f.success);
    assert_eq!(f.mode, LicenseValidationMode::NoLicense);
    assert_eq!(f.expires, "");
    let mut st = StormTabState::new(5u32);
    *st.params_mut() += 1;
    assert_eq!(*st.params(), 6);
}
