use calculator_service::decimal::{ASCII_NINE, ASCII_ZERO};
use calculator_service::port::ASCII_PLUS;
use calculator_service::{parse_port, resolve_port, PortError, DEFAULT_PORT, PORT_VARIABLE};

fn resolve(text: &str) -> Result<u16, PortError> {
    resolve_port(Some(text.as_bytes()))
}

#[test]
fn names_and_numbers() {
    assert_eq!(PORT_VARIABLE, "PORT");
    assert_eq!(DEFAULT_PORT, 50051);
    assert_eq!(ASCII_ZERO, b'0');
    assert_eq!(ASCII_NINE, b'9');
    assert_eq!(ASCII_PLUS, b'+');
}

#[test]
fn unset_port_is_the_default() {
    assert_eq!(resolve_port(None), Ok(50051));
}

#[test]
fn port_8080_is_resolved() {
    assert_eq!(resolve("8080"), Ok(8080));
    assert_eq!(parse_port(b"8080"), Ok(8080));
}

#[test]
fn port_50099_is_resolved() {
    assert_eq!(resolve("50099"), Ok(50099));
}

#[test]
fn text_that_is_no_number_fails() {
    assert_eq!(resolve("not-a-number"), Err(PortError::NotANumber));
}

#[test]
fn port_above_the_range_fails() {
    assert_eq!(resolve("70000"), Err(PortError::OutOfRange));
}

#[test]
fn ends_of_the_range() {
    assert_eq!(resolve("0"), Ok(0));
    assert_eq!(resolve("1"), Ok(1));
    assert_eq!(resolve("65535"), Ok(65535));
    assert_eq!(resolve("65536"), Err(PortError::OutOfRange));
    assert_eq!(resolve("65540"), Err(PortError::OutOfRange));
    assert_eq!(resolve("99999"), Err(PortError::OutOfRange));
    assert_eq!(resolve("100000"), Err(PortError::OutOfRange));
}

#[test]
fn a_set_value_never_falls_back_to_the_default() {
    for text in ["", " ", "port", "70000", "+"] {
        assert!(resolve(text).is_err());
    }
}

#[test]
fn empty_value_and_lone_sign_are_no_numbers() {
    assert_eq!(resolve(""), Err(PortError::NotANumber));
    assert_eq!(resolve("+"), Err(PortError::NotANumber));
    assert_eq!(resolve("-"), Err(PortError::NotANumber));
}

#[test]
fn one_plus_sign_may_lead() {
    assert_eq!(resolve("+8080"), Ok(8080));
    assert_eq!(resolve("+0"), Ok(0));
    assert_eq!(resolve("+65535"), Ok(65535));
    assert_eq!(resolve("+65536"), Err(PortError::OutOfRange));
    assert_eq!(resolve("++8080"), Err(PortError::NotANumber));
    assert_eq!(resolve("8080+"), Err(PortError::NotANumber));
    assert_eq!(resolve("80+80"), Err(PortError::NotANumber));
}

#[test]
fn minus_sign_is_no_digit() {
    assert_eq!(resolve("-1"), Err(PortError::NotANumber));
    assert_eq!(resolve("-0"), Err(PortError::NotANumber));
    assert_eq!(resolve("+-1"), Err(PortError::NotANumber));
}

#[test]
fn leading_zeros_do_not_count() {
    assert_eq!(resolve("00008080"), Ok(8080));
    assert_eq!(resolve("000000000000000000000000000000065535"), Ok(65535));
    assert_eq!(resolve("000000000000000000000000000000065536"), Err(PortError::OutOfRange));
    assert_eq!(resolve("0000"), Ok(0));
}

#[test]
fn long_numbers_are_out_of_range() {
    assert_eq!(resolve("4294967296"), Err(PortError::OutOfRange));
    assert_eq!(resolve("4294973376"), Err(PortError::OutOfRange));
    assert_eq!(resolve("18446744073709551616"), Err(PortError::OutOfRange));
    assert_eq!(
        resolve("99999999999999999999999999999999999999999999999999"),
        Err(PortError::OutOfRange)
    );
}

#[test]
fn anything_around_the_digits_is_refused() {
    for text in [" 8080", "8080 ", "8080\n", "\t8080", "80 80", "8_080", "8,080", "80.80", "0x50", "8080h", "1e3"] {
        assert_eq!(resolve(text), Err(PortError::NotANumber), "{:?}", text);
    }
}

#[test]
fn a_bad_byte_counts_before_the_range() {
    assert_eq!(resolve("70000x"), Err(PortError::NotANumber));
    assert_eq!(resolve("99999999999 "), Err(PortError::NotANumber));
    assert_eq!(resolve("x70000"), Err(PortError::NotANumber));
}

#[test]
fn digits_of_other_scripts_are_refused() {
    assert_eq!(resolve("８０８０"), Err(PortError::NotANumber));
    assert_eq!(resolve("٨٠٨٠"), Err(PortError::NotANumber));
}

#[test]
fn bytes_that_are_not_text_are_refused() {
    assert_eq!(resolve_port(Some(&[0xff, 0xfe])), Err(PortError::NotANumber));
    assert_eq!(resolve_port(Some(&[b'8', b'0', 0x80])), Err(PortError::NotANumber));
    assert_eq!(resolve_port(Some(&[0xc3, b'8', b'0'])), Err(PortError::NotANumber));
    assert_eq!(resolve_port(Some(&[b'8', 0])), Err(PortError::NotANumber));
}

#[test]
fn bytes_next_to_the_digits_are_refused() {
    assert_eq!(parse_port(b"/"), Err(PortError::NotANumber));
    assert_eq!(parse_port(b":"), Err(PortError::NotANumber));
    assert_eq!(parse_port(b"1/"), Err(PortError::NotANumber));
    assert_eq!(parse_port(b"1:"), Err(PortError::NotANumber));
    assert_eq!(parse_port(b"*1"), Err(PortError::NotANumber));
    assert_eq!(parse_port(b",1"), Err(PortError::NotANumber));
}

#[test]
fn every_port_is_read_from_its_notation() {
    for port in 0..=u16::MAX {
        assert_eq!(resolve(&format!("{}", port)), Ok(port));
        assert_eq!(resolve(&format!("+{}", port)), Ok(port));
        assert_eq!(resolve(&format!("{:07}", port)), Ok(port));
    }
}

#[test]
fn numbers_past_the_range_are_refused() {
    for number in 65536u32..=140000 {
        assert_eq!(resolve(&format!("{}", number)), Err(PortError::OutOfRange));
    }
}

#[test]
fn short_texts_are_read_as_the_standard_library_reads_them() {
    let alphabet: [u8; 8] = [b'+', b'-', b'0', b'1', b'6', b'9', b' ', b'x'];
    let mut text: Vec<u8> = Vec::new();
    let mut count: u32 = 0;
    for len in 0..=6usize {
        let mut index: Vec<usize> = vec![0; len];
        loop {
            text.clear();
            for &i in index.iter() {
                text.push(alphabet[i]);
            }
            let expected = std::str::from_utf8(&text).unwrap().parse::<u16>().ok();
            assert_eq!(parse_port(&text).ok(), expected, "{:?}", text);
            count += 1;
            let mut place = 0;
            while place < len && index[place] + 1 == alphabet.len() {
                index[place] = 0;
                place += 1;
            }
            if place == len {
                break;
            }
            index[place] += 1;
        }
    }
    assert_eq!(count, 1 + 8 + 64 + 512 + 4096 + 32768 + 262144);
}
