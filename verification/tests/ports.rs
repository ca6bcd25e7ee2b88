use realtime_gateway::port::{parse_port, resolve_port, PortError, DEFAULT_PORT};

#[test]
fn default_port_is_5003() {
    assert_eq!(DEFAULT_PORT, 5003);
}

#[test]
fn resolve_primary_valid() {
    assert_eq!(resolve_port(Some("6000".to_string()), None), Ok(6000));
}

#[test]
fn resolve_primary_wins_over_fallback() {
    assert_eq!(resolve_port(Some("6000".to_string()), Some("7000".to_string())), Ok(6000));
}

#[test]
fn resolve_fallback_when_primary_absent() {
    assert_eq!(resolve_port(None, Some("8080".to_string())), Ok(8080));
}

#[test]
fn resolve_default_when_both_absent() {
    assert_eq!(resolve_port(None, None), Ok(5003));
}

#[test]
fn resolve_invalid_primary_fails() {
    assert_eq!(
        resolve_port(Some("notanumber".to_string()), None),
        Err(PortError::InvalidPort)
    );
}

#[test]
fn resolve_invalid_primary_fails_despite_valid_fallback() {
    assert_eq!(
        resolve_port(Some("notanumber".to_string()), Some("7000".to_string())),
        Err(PortError::InvalidPort)
    );
}

#[test]
fn resolve_invalid_fallback_fails() {
    assert_eq!(
        resolve_port(None, Some("oops".to_string())),
        Err(PortError::InvalidPort)
    );
}

#[test]
fn parse_port_accepts_plain_digits() {
    assert_eq!(parse_port("0"), Some(0));
    assert_eq!(parse_port("1"), Some(1));
    assert_eq!(parse_port("5003"), Some(5003));
    assert_eq!(parse_port("65535"), Some(65535));
    assert_eq!(parse_port("00080"), Some(80));
}

#[test]
fn parse_port_accepts_leading_plus() {
    assert_eq!(parse_port("+123"), Some(123));
    assert_eq!(parse_port("+0"), Some(0));
}

#[test]
fn parse_port_rejects_out_of_range() {
    assert_eq!(parse_port("65536"), None);
    assert_eq!(parse_port("99999999999999999999"), None);
}

#[test]
fn parse_port_rejects_malformed() {
    assert_eq!(parse_port(""), None);
    assert_eq!(parse_port("+"), None);
    assert_eq!(parse_port("-1"), None);
    assert_eq!(parse_port("-0"), None);
    assert_eq!(parse_port(" 5003"), None);
    assert_eq!(parse_port("5003 "), None);
    assert_eq!(parse_port("50a3"), None);
    assert_eq!(parse_port("5003\n"), None);
    assert_eq!(parse_port("++1"), None);
    assert_eq!(parse_port("0x50"), None);
}

#[test]
fn parse_port_agrees_with_std_parsing() {
    let cases = [
        "", "+", "-", "0", "+0", "-0", "1", "80", "5003", "6000", "65535", "65536", "070",
        "+65535", "+65536", "notanumber", " 1", "1 ", "1.0", "0x10",
        "99999999999999999999", "+00000000000000000001",
    ];
    for s in cases {
        assert_eq!(parse_port(s), s.parse::<u16>().ok(), "input {:?}", s);
    }
}
