use hue_bridge::version::{is_supported, parse_version, push_decimal, MINIMUM_BRIDGE_VERSION};
use hue_bridge::{Bridge, BridgeError};

fn bridge_reporting(swversion: &str) -> Bridge {
    Bridge {
        name: "Philips hue".to_string(),
        datastoreversion: "126".to_string(),
        swversion: swversion.to_string(),
        apiversion: "1.50.0".to_string(),
        mac: "00:17:88:00:00:00".to_string(),
        bridgeid: "001788FFFE000000".to_string(),
        factorynew: false,
        modelid: "BSB002".to_string(),
    }
}

#[test]
fn parses_plain_number() {
    assert_eq!(parse_version("1948086000"), Some(1948086000));
    assert_eq!(parse_version("0"), Some(0));
    assert_eq!(parse_version("7"), Some(7));
}

#[test]
fn parses_leading_zeros_and_plus_sign() {
    assert_eq!(parse_version("007"), Some(7));
    assert_eq!(parse_version("+5"), Some(5));
    assert_eq!(parse_version("+0012"), Some(12));
}

#[test]
fn parses_up_to_the_largest_64_bit_number() {
    assert_eq!(parse_version("18446744073709551615"), Some(u64::MAX));
    assert_eq!(parse_version("18446744073709551616"), None);
    assert_eq!(parse_version("18446744073709551620"), None);
    assert_eq!(parse_version("99999999999999999999999"), None);
    assert_eq!(parse_version("000018446744073709551615"), Some(u64::MAX));
}

#[test]
fn rejects_what_is_not_a_number() {
    for text in ["", "+", "-1", "-", "++1", "1+", " 1", "1 ", "1.0", "0x10", "12a", "a12", "1_000", "٣", "1٣", "é"] {
        assert_eq!(parse_version(text), None, "{:?}", text);
    }
}

#[test]
fn parses_as_the_standard_library_does() {
    let texts = [
        "", "+", "-", "-0", "+0", "0", "00", "1", "+1", "-1", "42", "+42", "1948086000",
        "18446744073709551615", "18446744073709551616", "+18446744073709551615", " 7", "7 ",
        "7\n", "seven", "1e3", "٣", "１２", "12\u{0}",
    ];
    for text in texts {
        assert_eq!(parse_version(text), text.parse::<u64>().ok(), "{:?}", text);
    }
}

#[test]
fn is_supported_compares_numbers_not_text() {
    assert_eq!(is_supported("1948086000", 1948086000), Ok(true));
    assert_eq!(is_supported("1948086001", 1948086000), Ok(true));
    assert_eq!(is_supported("1948085999", 1948086000), Ok(false));
    // smaller as text, larger as a number
    assert_eq!(is_supported("10000000000", 1948086000), Ok(true));
    // larger as text, smaller as a number
    assert_eq!(is_supported("9", 1948086000), Ok(false));
    assert_eq!(is_supported("0", 0), Ok(true));
    assert_eq!(is_supported("18446744073709551615", u64::MAX), Ok(true));
}

#[test]
fn is_supported_rejects_non_numeric_versions() {
    assert_eq!(is_supported("abc", 5), Err(BridgeError::InvalidVersionFormat));
    assert_eq!(is_supported("", 0), Err(BridgeError::InvalidVersionFormat));
    assert_eq!(is_supported("1.67.0", 0), Err(BridgeError::InvalidVersionFormat));
    assert_eq!(is_supported("18446744073709551616", 0), Err(BridgeError::InvalidVersionFormat));
}

#[test]
fn minimum_version_is_fixed() {
    assert_eq!(MINIMUM_BRIDGE_VERSION, 1948086000);
}

#[test]
fn bridge_check_version_accepts_minimum_and_newer() {
    assert_eq!(bridge_reporting("1948086000").check_version(), Ok(()));
    assert_eq!(bridge_reporting("1962097030").check_version(), Ok(()));
}

#[test]
fn bridge_check_version_rejects_older() {
    assert_eq!(
        bridge_reporting("1948085999").check_version(),
        Err(BridgeError::UnsupportedBridgeVersion)
    );
    assert_eq!(bridge_reporting("0").check_version(), Err(BridgeError::UnsupportedBridgeVersion));
}

#[test]
fn bridge_check_version_rejects_non_numeric() {
    assert_eq!(
        bridge_reporting("1.48.0").check_version(),
        Err(BridgeError::InvalidVersionFormat)
    );
    assert_eq!(bridge_reporting("").check_version(), Err(BridgeError::InvalidVersionFormat));
}

#[test]
fn push_decimal_writes_shortest_form() {
    for n in [0u64, 1, 9, 10, 11, 99, 100, 1948086000, u64::MAX] {
        let mut text = String::from("v");
        push_decimal(&mut text, n);
        assert_eq!(text, format!("v{}", n));
    }
}

#[test]
fn written_number_reads_back() {
    for n in [0u64, 5, 10, 1234567890, 1948086000, u64::MAX - 1, u64::MAX] {
        let mut text = String::new();
        push_decimal(&mut text, n);
        assert_eq!(parse_version(&text), Some(n));
    }
}
