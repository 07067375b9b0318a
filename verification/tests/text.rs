use winecho::text::{to_wstring, utf16_units};

#[test]
fn wstring_ascii() {
    assert_eq!(to_wstring("abc"), vec![97u16, 98, 99, 0]);
}

#[test]
fn wstring_empty() {
    assert_eq!(to_wstring(""), vec![0u16]);
}

#[test]
fn wstring_message_title() {
    assert_eq!(to_wstring("Message"), vec![77u16, 101, 115, 115, 97, 103, 101, 0]);
}

#[test]
fn wstring_bmp_non_ascii() {
    // U+00E9 and U+20AC are single units
    assert_eq!(to_wstring("\u{e9}\u{20ac}"), vec![0x00E9u16, 0x20AC, 0]);
}

#[test]
fn wstring_surrogate_pair() {
    // U+1D11E (musical G clef) encodes as the pair D834 DD1E
    assert_eq!(to_wstring("\u{1d11e}"), vec![0xD834u16, 0xDD1E, 0]);
}

#[test]
fn wstring_mixed() {
    let w = to_wstring("a\u{1d11e}b");
    assert_eq!(w, vec![97u16, 0xD834, 0xDD1E, 98, 0]);
}

#[test]
fn units_have_no_terminator() {
    assert_eq!(utf16_units("hi"), vec![104u16, 105]);
    assert_eq!(utf16_units(""), Vec::<u16>::new());
}

#[test]
fn units_keep_whitespace() {
    assert_eq!(utf16_units(" a b "), vec![32u16, 97, 32, 98, 32]);
}
