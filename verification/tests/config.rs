use sep2_bridge::config::{
    parse_metrics_url, parse_modbus_socket, parse_pen, parse_u32, pin_from_contents, server_url,
    persistence_path_choice, IpAddress, PathProblem, SocketChoice,
};
use sep2_bridge::Error;

#[test]
fn u32_read_as_rust_reads_it() {
    assert_eq!(parse_u32("0"), Some(0));
    assert_eq!(parse_u32("+42"), Some(42));
    assert_eq!(parse_u32("4294967295"), Some(u32::MAX));
    assert_eq!(parse_u32("4294967296"), None);
    assert_eq!(parse_u32("99999999999999999999"), None);
    assert_eq!(parse_u32(""), None);
    assert_eq!(parse_u32("+"), None);
    assert_eq!(parse_u32("-1"), None);
    assert_eq!(parse_u32("12a"), None);
    assert_eq!(parse_u32(" 12"), None);
}

#[test]
fn pin_ignores_surrounding_white_space() {
    assert!(matches!(pin_from_contents("123456\n"), Ok(123456)));
    assert!(matches!(pin_from_contents("  \t42 \r\n"), Ok(42)));
    assert!(matches!(pin_from_contents("\u{3000}7\u{A0}"), Ok(7)));
}

#[test]
fn pin_errors() {
    assert!(matches!(pin_from_contents("1000000"), Err(Error::InvalidInput(m)) if m == "PIN is a number but not of the right size"));
    assert!(matches!(pin_from_contents("abc"), Err(Error::InvalidInput(m)) if m == "Could not parse PIN"));
    assert!(matches!(pin_from_contents("   "), Err(Error::InvalidInput(m)) if m == "Could not parse PIN"));
    assert!(matches!(pin_from_contents("12 34"), Err(Error::InvalidInput(m)) if m == "Could not parse PIN"));
}

#[test]
fn pen_is_a_u32() {
    assert_eq!(parse_pen("0"), Ok(0));
    assert_eq!(parse_pen("37"), Ok(37));
    assert_eq!(parse_pen("x"), Err(String::from("PEN is not a valid u32")));
}

#[test]
fn server_address_gets_https() {
    assert_eq!(server_url("127.0.0.1:8080"), "https://127.0.0.1:8080");
    assert_eq!(server_url("https://csipaus.server"), "https://csipaus.server");
    assert_eq!(server_url("http://x"), "https://http://x");
    assert_eq!(server_url(""), "https://");
}

#[test]
fn modbus_sockets() {
    assert_eq!(parse_modbus_socket("unix:///tmp/modbus.sock"), Ok(SocketChoice::Unix { path: b"/tmp/modbus.sock".to_vec() }));
    assert_eq!(
        parse_modbus_socket("tcp://192.168.1.10:1502"),
        Ok(SocketChoice::Tcp { ip: IpAddress::V4 { octets: [192, 168, 1, 10] }, port: 1502 })
    );
    assert_eq!(
        parse_modbus_socket("tcp://192.168.1.10"),
        Ok(SocketChoice::Tcp { ip: IpAddress::V4 { octets: [192, 168, 1, 10] }, port: 502 })
    );
    assert_eq!(parse_modbus_socket("tcp://10.0.0.1/path"), Err(String::from("Unexpected parts of URL present.")));
    assert_eq!(parse_modbus_socket("unix://host/tmp/sock"), Err(String::from("Unexpected parts of URL present.")));
    assert_eq!(parse_modbus_socket("serial:///dev/tty"), Err(String::from("Unknown modbus socket scheme 'serial'")));
    assert_eq!(parse_modbus_socket("not a url"), Err(String::from("Unable to parse URL.")));
    assert_eq!(parse_modbus_socket("tcp://localhost:1502"), Err(String::from("Host is not an IP address")));
    assert_eq!(parse_modbus_socket("http://1.2.3.4"), Err(String::from("Unknown modbus socket scheme 'http'")));
}

#[test]
fn metrics_urls() {
    assert_eq!(parse_metrics_url("unix:///run/metrics.sock"), Ok(b"/run/metrics.sock".to_vec()));
    assert_eq!(parse_metrics_url("unix:///run/metrics.sock?x=1"), Err(String::from("Unexpected parts of URL present.")));
    assert_eq!(parse_metrics_url("http://localhost/"), Err(String::from("Metrics endpoint scheme http not supported.")));
}

#[test]
fn persistence_paths() {
    assert_eq!(persistence_path_choice("", false, None), Ok(false));
    assert_eq!(persistence_path_choice("/var/lib", true, Some((false, true))), Err(PathProblem::IsDirectory));
    assert_eq!(persistence_path_choice("/", false, None), Err(PathProblem::NoParent));
    assert_eq!(persistence_path_choice("/missing/state", false, Some((false, false))), Err(PathProblem::ParentMissing));
    assert_eq!(persistence_path_choice("state", false, Some((true, false))), Ok(true));
    assert_eq!(persistence_path_choice("/var/state", false, Some((false, true))), Ok(true));
}
