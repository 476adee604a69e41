use rustshyper_vmm::text::{parse_radix, push_byte, push_dec, push_hex, NumberError};

#[test]
fn numbers_are_formatted_like_the_standard_library_does() {
    for n in [0, 1, 9, 10, 15, 16, 99, 255, 256, 0x3f8, 65535, 1 << 32, u64::MAX - 1, u64::MAX] {
        let mut dec = String::from("d=");
        push_dec(&mut dec, n);
        assert_eq!(dec, format!("d={n}"));
        let mut hex = String::new();
        push_hex(&mut hex, n);
        assert_eq!(hex, format!("{n:#x}"));
    }
    for b in 0..=255u8 {
        let mut text = String::new();
        push_byte(&mut text, b);
        assert_eq!(text, format!("{b:02x}"));
    }
}

#[test]
fn numbers_are_parsed_like_the_standard_library_does() {
    let inputs = [
        "", "+", "-", "0", "007", "+12", "-1", "12a", "a", "f", "FF", "fF", "g", "0x10", "++1",
        "1+", " 1", "1 ", "18446744073709551615", "18446744073709551616", "184467440737095516150",
        "99999999999999999999x", "ffffffffffffffff", "10000000000000000", "é1", "1é", "１",
    ];
    for radix in [10u32, 16] {
        for input in inputs {
            let ours = parse_radix(input, 0, radix as u64);
            match u64::from_str_radix(input, radix) {
                Ok(n) => assert_eq!(ours, Ok(n), "{input:?}"),
                Err(e) => assert_eq!(ours.unwrap_err().message(), e.to_string(), "{input:?}"),
            }
        }
    }
}

#[test]
fn parsing_can_start_in_the_middle() {
    assert_eq!(parse_radix("0xff", 2, 16), Ok(255));
    assert_eq!(parse_radix("0x", 2, 16), Err(NumberError::Empty));
    assert_eq!(parse_radix("é7", 1, 10), Ok(7));
}

#[test]
fn formatted_numbers_are_parsed_back() {
    for n in [0, 7, 10, 0xdead_beef, u64::MAX] {
        let mut dec = String::new();
        push_dec(&mut dec, n);
        assert_eq!(parse_radix(&dec, 0, 10), Ok(n));
        let mut hex = String::new();
        push_hex(&mut hex, n);
        assert_eq!(parse_radix(&hex, 2, 16), Ok(n));
    }
}
