use dayrecord::base64::{base64_decode, base64_encode};

#[test]
fn encodes_with_padding() {
    assert_eq!(base64_encode(b""), "");
    assert_eq!(base64_encode(b"f"), "Zg==");
    assert_eq!(base64_encode(b"fo"), "Zm8=");
    assert_eq!(base64_encode(b"foo"), "Zm9v");
    assert_eq!(base64_encode(b"hello"), "aGVsbG8=");
    assert_eq!(base64_encode(&[0xfb, 0xff, 0xfe]), "+//+");
}

#[test]
fn decodes_standard_text() {
    assert_eq!(base64_decode("aGVsbG8=").unwrap(), b"hello".to_vec());
    assert_eq!(base64_decode("Zm9v").unwrap(), b"foo".to_vec());
    assert_eq!(base64_decode("").unwrap(), Vec::<u8>::new());
}

#[test]
fn decode_skips_whitespace_and_padding() {
    assert_eq!(base64_decode(" aGVs\nbG8 = ").unwrap(), b"hello".to_vec());
}

#[test]
fn decode_stops_at_short_tail() {
    assert_eq!(base64_decode("Zm9vY").unwrap(), b"foo".to_vec());
}

#[test]
fn roundtrip_on_all_lengths() {
    for n in 0..40usize {
        let data: Vec<u8> = (0..n).map(|i| (i * 37 + 11) as u8).collect();
        let text = base64_encode(&data);
        assert_eq!(base64_decode(&text).unwrap(), data);
    }
}

#[test]
fn decode_ignores_padding_and_ascii_whitespace() {
    assert_eq!(base64_decode("Zm9v\nYmFy\n").unwrap(), b"foobar".to_vec());
    for input in ["Zm9v\nYmFy\n", " a G V s\tbG8=\r\n", "Zg==", "=\u{c}Zm8="] {
        let stripped: String = input
            .chars()
            .filter(|c| *c != '=' && !c.is_ascii_whitespace())
            .collect();
        assert_eq!(base64_decode(input), base64_decode(&stripped), "input {input:?}");
    }
}
