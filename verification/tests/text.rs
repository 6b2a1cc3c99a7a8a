use sdkwork_web::text::{eq_ignore_ascii_case, parse_u64, push_decimal, to_hex_lower};

#[test]
fn decimal_rendering_parses_back() {
    for n in [0u64, 7, 10, 12345, u64::MAX] {
        let mut s = String::new();
        push_decimal(&mut s, n);
        assert_eq!(n.to_string(), s);
        assert_eq!(Some(n), parse_u64(&s));
    }
}

#[test]
fn hex_is_lower_case_two_digits_per_byte() {
    assert_eq!("00ff10ab", to_hex_lower(&[0x00, 0xff, 0x10, 0xab]));
    assert_eq!("", to_hex_lower(&[]));
}

#[test]
fn ascii_case_insensitive_match() {
    assert!(eq_ignore_ascii_case("ChUnKeD", "chunked"));
    assert!(!eq_ignore_ascii_case("chunke", "chunked"));
    assert!(!eq_ignore_ascii_case("chünked", "chunked"));
}
