use vpscheck::config::parse_port;

#[test]
fn env_port_overrides_default() {
    assert_eq!(parse_port(Some("5555")), 5555);
    assert_eq!(parse_port(None), 8080);
}

#[test]
fn unparsable_port_falls_back_to_default() {
    assert_eq!(parse_port(Some("abc")), 8080);
    assert_eq!(parse_port(Some("")), 8080);
    assert_eq!(parse_port(Some("80a")), 8080);
    assert_eq!(parse_port(Some("-1")), 8080);
    assert_eq!(parse_port(Some("8 0")), 8080);
}

#[test]
fn port_range_limits() {
    assert_eq!(parse_port(Some("65535")), 65535);
    assert_eq!(parse_port(Some("65536")), 8080);
    assert_eq!(parse_port(Some("99999999999999999999999")), 8080);
    assert_eq!(parse_port(Some("0")), 0);
}

#[test]
fn leading_plus_sign_is_accepted() {
    assert_eq!(parse_port(Some("+3000")), 3000);
    assert_eq!(parse_port(Some("+")), 8080);
}
