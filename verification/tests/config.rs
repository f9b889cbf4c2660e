use log_sink::config::bind_address;

#[test]
fn unset_port_binds_4000() {
    assert_eq!(bind_address(None), "0.0.0.0:4000");
}

#[test]
fn configured_port_is_substituted() {
    assert_eq!(bind_address(Some("8080")), "0.0.0.0:8080");
    assert_eq!(bind_address(Some("1")), "0.0.0.0:1");
}

#[test]
fn port_text_is_not_corrected() {
    assert_eq!(bind_address(Some("")), "0.0.0.0:");
    assert_eq!(bind_address(Some("not-a-port")), "0.0.0.0:not-a-port");
    assert_eq!(bind_address(Some(" 4000")), "0.0.0.0: 4000");
    assert_eq!(bind_address(Some("99999")), "0.0.0.0:99999");
}
