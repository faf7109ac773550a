use c20web::text::decode_text;

#[test]
fn decode_text_gives_the_text_of_well_formed_bytes() {
    assert_eq!(decode_text(b""), Ok(String::new()));
    assert_eq!(decode_text(b"GET"), Ok(String::from("GET")));
    assert_eq!(decode_text(b"caf\xc3\xa9 \xe2\x82\xac \xf0\x9f\x98\x80"), Ok(String::from("caf\u{e9} \u{20ac} \u{1f600}")));
    assert_eq!(decode_text(&[0x00, 0x7f]), Ok(String::from("\u{0}\u{7f}")));
}

#[test]
fn decode_text_complains_of_a_byte_that_cannot_stand() {
    assert_eq!(
        decode_text(b"\xff"),
        Err(String::from("invalid utf-8 sequence of 1 bytes from index 0"))
    );
    assert_eq!(
        decode_text(b"ab\x80"),
        Err(String::from("invalid utf-8 sequence of 1 bytes from index 2"))
    );
}

#[test]
fn decode_text_complains_of_an_overlong_or_surrogate_sequence() {
    assert_eq!(
        decode_text(b"\xc0\xaf"),
        Err(String::from("invalid utf-8 sequence of 1 bytes from index 0"))
    );
    assert_eq!(
        decode_text(b"a\xed\xa0\x80"),
        Err(String::from("invalid utf-8 sequence of 1 bytes from index 1"))
    );
    assert_eq!(
        decode_text(b"\xf4\x90\x80\x80"),
        Err(String::from("invalid utf-8 sequence of 1 bytes from index 0"))
    );
}

#[test]
fn decode_text_complains_of_a_sequence_that_breaks_off() {
    assert_eq!(
        decode_text(b"a\xe2\x82"),
        Err(String::from("incomplete utf-8 byte sequence from index 1"))
    );
    assert_eq!(
        decode_text(b"\xe2\x82 "),
        Err(String::from("invalid utf-8 sequence of 2 bytes from index 0"))
    );
}
