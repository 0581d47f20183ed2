use accumulator_server::config::{server_address, server_port, DEFAULT_PORT};

#[test]
fn port_defaults_when_unset() {
    assert_eq!(server_port(None), 8186);
    assert_eq!(DEFAULT_PORT, 8186);
}

#[test]
fn port_is_read_from_setting() {
    assert_eq!(server_port(Some("9000".to_string())), 9000);
    assert_eq!(server_port(Some("0".to_string())), 0);
    assert_eq!(server_port(Some("65535".to_string())), 65535);
    assert_eq!(server_port(Some("+80".to_string())), 80);
    assert_eq!(server_port(Some("0080".to_string())), 80);
}

#[test]
fn port_falls_back_on_bad_setting() {
    assert_eq!(server_port(Some("".to_string())), 8186);
    assert_eq!(server_port(Some("abc".to_string())), 8186);
    assert_eq!(server_port(Some("65536".to_string())), 8186);
    assert_eq!(server_port(Some("-1".to_string())), 8186);
    assert_eq!(server_port(Some(" 80".to_string())), 8186);
    assert_eq!(server_port(Some("80 ".to_string())), 8186);
    assert_eq!(server_port(Some("+".to_string())), 8186);
    assert_eq!(server_port(Some("8_0".to_string())), 8186);
}

#[test]
fn address_holds_host_and_port() {
    assert_eq!(server_address(8186), "127.0.0.1:8186");
    assert_eq!(server_address(0), "127.0.0.1:0");
    assert_eq!(server_address(10), "127.0.0.1:10");
    assert_eq!(server_address(65535), "127.0.0.1:65535");
}
