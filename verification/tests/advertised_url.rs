use lan_camera::advertise::{get_stream_url, is_ipv4_literal, stream_url};
use lan_camera::config::{ServerConfig, STREAM_PORT};
use lan_camera::text::{decimal_string, same_text};

#[test]
fn url_advertisement_with_lan_ip_present() {
    assert_eq!(stream_url(Some("192.168.1.42")), "https://192.168.1.42:4104");
}

#[test]
fn url_advertisement_without_discoverable_ip() {
    assert_eq!(stream_url(None), "https://localhost:4104");
}

#[test]
fn url_falls_back_when_the_address_is_not_ipv4() {
    for found in ["fe80::1", "::1", "", "localhost", "192.168.1", "1.2.3.4.5", "256.0.0.1"] {
        assert_eq!(stream_url(Some(found)), "https://localhost:4104");
    }
}

#[test]
fn url_for_edge_addresses() {
    assert_eq!(stream_url(Some("0.0.0.0")), "https://0.0.0.0:4104");
    assert_eq!(stream_url(Some("255.255.255.255")), "https://255.255.255.255:4104");
    assert_eq!(stream_url(Some("10.0.0.7")), "https://10.0.0.7:4104");
}

#[test]
fn live_url_has_the_advertised_form() {
    let url = get_stream_url();
    let rest = url.strip_prefix("https://").expect("scheme");
    let host = rest.strip_suffix(":4104").expect("port");
    if host == "localhost" {
        assert_eq!(url, stream_url(None));
    } else {
        assert!(is_ipv4_literal(host), "host {host:?}");
        assert_eq!(url, stream_url(Some(host)));
    }
}

#[test]
fn url_names_the_port_the_endpoint_binds() {
    assert_eq!(STREAM_PORT, 4104);
    let config = ServerConfig::standard();
    assert_eq!(config.port, STREAM_PORT);
    assert_eq!(config.bind_addr, [0, 0, 0, 0]);
    assert!(stream_url(None).ends_with(&format!(":{}", config.port)));
    let other = ServerConfig::on_port(8443);
    assert_eq!(other.port, 8443);
    assert_eq!(other.bind_addr, [0, 0, 0, 0]);
}

#[test]
fn well_formed_ipv4_literals() {
    for text in [
        "0.0.0.0",
        "127.0.0.1",
        "192.168.1.42",
        "255.255.255.255",
        "1.2.3.4",
        "10.20.30.40",
        "249.250.199.200",
        "9.99.100.0",
    ] {
        assert!(is_ipv4_literal(text), "{text}");
    }
}

#[test]
fn malformed_ipv4_literals() {
    for text in [
        "",
        ".",
        "...",
        "1.2.3",
        "1.2.3.",
        ".1.2.3",
        "1..2.3",
        "1.2.3.4.",
        "1.2.3.4.5",
        "256.1.1.1",
        "1.1.1.256",
        "1.1.1.300",
        "999.1.1.1",
        "01.2.3.4",
        "1.2.3.04",
        "1.2.3.00",
        "1.2.3.0000",
        "1234.1.1.1",
        "1.2.3.4 ",
        " 1.2.3.4",
        "1.2.3.a",
        "1.2.-3.4",
        "+1.2.3.4",
        "1,2,3,4",
        "1.2.3.4\n",
        "::ffff:1.2.3.4",
        "fe80::1",
        "localhost",
        "１.2.3.4",
        "1.2.3.٤",
        "1.2.3.4é",
    ] {
        assert!(!is_ipv4_literal(text), "{text:?}");
    }
}

#[test]
fn decimal_rendering() {
    assert_eq!(decimal_string(0), "0");
    assert_eq!(decimal_string(7), "7");
    assert_eq!(decimal_string(10), "10");
    assert_eq!(decimal_string(99), "99");
    assert_eq!(decimal_string(100), "100");
    assert_eq!(decimal_string(4104), "4104");
    assert_eq!(decimal_string(65535), "65535");
    for n in [1u16, 12, 123, 1230, 9009, 40000] {
        assert_eq!(decimal_string(n), n.to_string());
    }
}

#[test]
fn text_equality() {
    assert!(same_text("", ""));
    assert!(same_text("GET", "GET"));
    assert!(!same_text("GET", "get"));
    assert!(!same_text("GET", "GE"));
    assert!(!same_text("GE", "GET"));
    assert!(!same_text("", "x"));
    assert!(same_text("caf\u{e9}", "café"));
    assert!(!same_text("cafe\u{301}", "caf\u{e9}"));
}
