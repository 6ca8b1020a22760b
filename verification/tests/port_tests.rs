use sysinfo_report::port::parse_port;
use sysinfo_report::port::port_from_env;

#[test]
fn env_port_9999_is_used() {
    assert_eq!(port_from_env(Some("9999")), 9999);
}

#[test]
fn unset_port_defaults_to_8080() {
    assert_eq!(port_from_env(None), 8080);
}

#[test]
fn unparsable_port_defaults_to_8080() {
    assert_eq!(port_from_env(Some("abc")), 8080);
    assert_eq!(port_from_env(Some("80a")), 8080);
    assert_eq!(port_from_env(Some("")), 8080);
    assert_eq!(port_from_env(Some(" 9999")), 8080);
}

#[test]
fn out_of_range_port_defaults_to_8080() {
    assert_eq!(port_from_env(Some("65536")), 8080);
    assert_eq!(port_from_env(Some("99999")), 8080);
    assert_eq!(port_from_env(Some("999999999999999999999")), 8080);
}

#[test]
fn boundary_ports_parse_exactly() {
    assert_eq!(parse_port("0"), 0);
    assert_eq!(parse_port("8080"), 8080);
    assert_eq!(parse_port("65535"), 65535);
}

#[test]
fn leading_zeros_keep_the_value() {
    assert_eq!(parse_port("0080"), 80);
    assert_eq!(parse_port("000009999"), 9999);
}
