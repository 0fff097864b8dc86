use operator_node::hexcode::{hex_digit, validate_addr, validate_key};

const ADDR: &str = "0x0f65fe9276bc9a24ae7083ae28e2660ef72df99e";
const KEY: &str = "4c0883a69102937d6231471b5dbb6204fe5129617082792ae468d01a3f362318";

#[test]
fn hex_digit_accepts_both_cases() {
    for c in "0123456789abcdefABCDEF".chars() {
        assert!(hex_digit(c), "{}", c);
    }
}

#[test]
fn hex_digit_refuses_neighbours() {
    for c in "/:`gG@ xX-_\u{e9}".chars() {
        assert!(!hex_digit(c), "{}", c);
    }
}

#[test]
fn validate_addr_accepts_a_prefixed_address() {
    assert!(validate_addr(ADDR));
    assert!(validate_addr("0x0F65FE9276BC9A24AE7083AE28E2660EF72DF99E"));
    assert!(validate_addr("0x0000000000000000000000000000000000000000"));
}

#[test]
fn validate_addr_refuses_wrong_length() {
    assert!(!validate_addr(""));
    assert!(!validate_addr("0x"));
    assert!(!validate_addr(&ADDR[..41]));
    assert!(!validate_addr(&format!("{}0", ADDR)));
}

#[test]
fn validate_addr_refuses_missing_or_upper_case_prefix() {
    assert!(!validate_addr(&ADDR[2..]));
    assert!(!validate_addr(&format!("00{}", &ADDR[2..])));
    assert!(!validate_addr(&format!("0X{}", &ADDR[2..])));
    assert!(!validate_addr(&format!("1x{}", &ADDR[2..])));
}

#[test]
fn validate_addr_refuses_wrong_charset() {
    assert!(!validate_addr("0x0f65fe9276bc9a24ae7083ae28e2660ef72df99g"));
    assert!(!validate_addr("0x0f65fe9276bc9a24ae7083ae28e2660ef72df9 e"));
    // forty-two characters, one of them outside ASCII
    assert!(!validate_addr("0x0f65fe9276bc9a24ae7083ae28e2660ef72df99\u{e9}"));
}

#[test]
fn validate_key_accepts_with_and_without_prefix() {
    assert!(validate_key(KEY));
    assert!(validate_key(&format!("0x{}", KEY)));
    assert!(validate_key(&format!("0X{}", KEY)));
    assert!(validate_key(&KEY.to_uppercase()));
}

#[test]
fn validate_key_refuses_wrong_length() {
    assert!(!validate_key(""));
    assert!(!validate_key("0x"));
    assert!(!validate_key(&KEY[..63]));
    assert!(!validate_key(&format!("{}0", KEY)));
    assert!(!validate_key(&format!("0x{}", &KEY[..62])));
    // sixty-four characters of which the first two are the prefix
    assert!(!validate_key(&format!("0x{}", &KEY[2..])));
}

#[test]
fn validate_key_refuses_wrong_charset() {
    assert!(!validate_key(&format!("{}g", &KEY[..63])));
    assert!(!validate_key(&format!("0x{}z", &KEY[..63])));
    assert!(!validate_key(&format!("{}\u{e9}", &KEY[..63])));
}
