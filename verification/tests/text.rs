use nation::text::read_header_number;
use nation::text::read_header_text;
use nation::text::to_decimal;

fn std_number(bytes: &[u8]) -> Option<u64> {
    if bytes.iter().any(|&b| !((32..127).contains(&b) || b == b'\t')) {
        return None;
    }
    std::str::from_utf8(bytes).ok()?.parse().ok()
}

#[test]
fn header_text_keeps_visible_bytes() {
    assert_eq!(read_header_text(&b"abc-DEF_123".to_vec()), Some("abc-DEF_123".to_string()));
    assert_eq!(read_header_text(&b" ~".to_vec()), Some(" ~".to_string()));
    assert_eq!(read_header_text(&b"a\tb".to_vec()), Some("a\tb".to_string()));
}

#[test]
fn header_text_of_nothing_is_empty() {
    assert_eq!(read_header_text(&Vec::new()), Some(String::new()));
}

#[test]
fn header_text_refuses_invisible_bytes() {
    assert_eq!(read_header_text(&vec![b'a', 127]), None);
    assert_eq!(read_header_text(&vec![b'a', 31, b'b']), None);
    assert_eq!(read_header_text(&vec![0x80]), None);
    assert_eq!(read_header_text(&vec![b'x', 0xff]), None);
    assert_eq!(read_header_text(&vec![b'\n']), None);
}

#[test]
fn header_number_reads_decimal() {
    assert_eq!(read_header_number(&b"0".to_vec()), Some(0));
    assert_eq!(read_header_number(&b"1234567890".to_vec()), Some(1234567890));
    assert_eq!(read_header_number(&b"0007".to_vec()), Some(7));
}

#[test]
fn header_number_takes_one_plus_sign() {
    assert_eq!(read_header_number(&b"+7".to_vec()), Some(7));
    assert_eq!(read_header_number(&b"++7".to_vec()), None);
    assert_eq!(read_header_number(&b"+".to_vec()), None);
    assert_eq!(read_header_number(&b"7+".to_vec()), None);
}

#[test]
fn header_number_refuses_what_is_no_number() {
    assert_eq!(read_header_number(&Vec::new()), None);
    assert_eq!(read_header_number(&b"-1".to_vec()), None);
    assert_eq!(read_header_number(&b"12a".to_vec()), None);
    assert_eq!(read_header_number(&b" 12".to_vec()), None);
    assert_eq!(read_header_number(&b"12 ".to_vec()), None);
    assert_eq!(read_header_number(&b"1.5".to_vec()), None);
    assert_eq!(read_header_number(&vec![b'1', 0xb2]), None);
}

#[test]
fn header_number_stops_at_the_largest_u64() {
    assert_eq!(read_header_number(&b"18446744073709551615".to_vec()), Some(u64::MAX));
    assert_eq!(read_header_number(&b"18446744073709551616".to_vec()), None);
    assert_eq!(read_header_number(&b"18446744073709551620".to_vec()), None);
    assert_eq!(read_header_number(&b"99999999999999999999".to_vec()), None);
    assert_eq!(read_header_number(&b"000018446744073709551615".to_vec()), Some(u64::MAX));
    assert_eq!(read_header_number(&b"184467440737095516150".to_vec()), None);
}

#[test]
fn header_number_agrees_with_std() {
    let samples: [&[u8]; 14] = [
        b"", b"+", b"-", b"0", b"+0", b"-0", b"42", b"+42", b"4 2", b"18446744073709551615",
        b"18446744073709551616", b"00000000000000000000000001", b"1e3", b"\t1",
    ];
    for sample in samples {
        assert_eq!(read_header_number(&sample.to_vec()), std_number(sample));
    }
}

#[test]
fn decimal_of_small_and_large_numbers() {
    assert_eq!(to_decimal(0), "0");
    assert_eq!(to_decimal(7), "7");
    assert_eq!(to_decimal(10), "10");
    assert_eq!(to_decimal(11), "11");
    assert_eq!(to_decimal(1234567890), "1234567890");
    assert_eq!(to_decimal(u64::MAX), "18446744073709551615");
}

#[test]
fn decimal_is_read_back() {
    for n in [0u64, 1, 9, 10, 99, 100, 65535, 4294967296, u64::MAX - 1, u64::MAX] {
        assert_eq!(to_decimal(n), n.to_string());
        assert_eq!(read_header_number(&to_decimal(n).into_bytes()), Some(n));
    }
}
