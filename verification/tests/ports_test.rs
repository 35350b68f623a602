use svc_template::ports::{parse_port, resolve_port, PortParseError, DEFAULT_SERVICE_PORT};

#[test]
fn parses_plain_ports() {
    assert_eq!(parse_port("8080"), Ok(8080));
    assert_eq!(parse_port("0"), Ok(0));
    assert_eq!(parse_port("65535"), Ok(65535));
    assert_eq!(parse_port("007"), Ok(7));
}

#[test]
fn accepts_a_leading_plus_sign() {
    assert_eq!(parse_port("+123"), Ok(123));
    assert_eq!(parse_port("+"), Err(PortParseError::InvalidDigit));
}

#[test]
fn rejects_an_empty_string() {
    assert_eq!(parse_port(""), Err(PortParseError::Empty));
}

#[test]
fn rejects_non_digits() {
    assert_eq!(parse_port("12a"), Err(PortParseError::InvalidDigit));
    assert_eq!(parse_port("-1"), Err(PortParseError::InvalidDigit));
    assert_eq!(parse_port(" 80"), Err(PortParseError::InvalidDigit));
    assert_eq!(parse_port("8080 "), Err(PortParseError::InvalidDigit));
}

#[test]
fn rejects_values_above_the_port_range() {
    assert_eq!(parse_port("65536"), Err(PortParseError::Overflow));
    assert_eq!(parse_port("99999999999999999999"), Err(PortParseError::Overflow));
}

#[test]
fn resolve_uses_the_default_when_unset() {
    assert_eq!(resolve_port(None), Ok(DEFAULT_SERVICE_PORT));
    assert_eq!(DEFAULT_SERVICE_PORT, 8080);
}

#[test]
fn resolve_parses_a_set_value() {
    assert_eq!(resolve_port(Some("9090".to_string())), Ok(9090));
    assert_eq!(
        resolve_port(Some("port".to_string())),
        Err(PortParseError::InvalidDigit)
    );
}
