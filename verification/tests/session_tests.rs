use serial_link::config::clamp_baud;
use serial_link::config::MAX_BAUD;
use serial_link::config::MIN_BAUD;
use serial_link::config::READ_TIMEOUT_MS;
use serial_link::link::Link;
use serial_link::session::Session;

fn connected_session(port: &str, baud: u32) -> Session {
    let mut s = Session::new();
    s.select_port(port.to_string());
    s.set_baud(baud);
    let cfg = s.connect_request().expect("a selected port must yield a config");
    assert_eq!(cfg.port, port);
    assert_eq!(cfg.baud, baud);
    s.connect_succeeded();
    s
}

#[test]
fn new_session_is_idle() {
    let s = Session::new();
    assert!(s.ports().is_empty());
    assert!(s.selected_port().is_none());
    assert_eq!(s.baud(), 9600);
    assert_eq!(s.send_text().as_str(), "");
    assert!(!s.is_connected());
    assert_eq!(s.status().as_str(), "");
    assert!(!s.reader_attached());
    assert!(!s.writer_attached());
}

#[test]
fn connect_carries_each_valid_baud() {
    for baud in [300u32, 1200, 9600, 57600, 115200] {
        let mut s = Session::new();
        s.select_port("/dev/ttyUSB0".to_string());
        s.set_baud(baud);
        let cfg = s.connect_request().expect("valid baud must yield a config");
        assert_eq!(cfg.baud, baud);
        assert_eq!(cfg.port, "/dev/ttyUSB0");
        assert_eq!(cfg.timeout_ms, READ_TIMEOUT_MS);
    }
}

#[test]
fn baud_is_clamped_into_range() {
    assert_eq!(clamp_baud(299), MIN_BAUD);
    assert_eq!(clamp_baud(0), 300);
    assert_eq!(clamp_baud(300), 300);
    assert_eq!(clamp_baud(9600), 9600);
    assert_eq!(clamp_baud(115200), 115200);
    assert_eq!(clamp_baud(115201), MAX_BAUD);
    assert_eq!(clamp_baud(u32::MAX), 115200);

    let mut s = Session::new();
    s.set_baud(100);
    assert_eq!(s.baud(), 300);
    s.set_baud(200_000);
    assert_eq!(s.baud(), 115200);
}

#[test]
fn connect_without_port_is_a_noop() {
    let mut s = Session::new();
    s.set_baud(9600);
    assert!(s.connect_request().is_none());
    assert!(!s.is_connected());
    assert_eq!(s.status().as_str(), "");
    assert!(s.selected_port().is_none());
    assert!(!s.reader_attached());
}

#[test]
fn connect_while_connected_is_refused() {
    let s = connected_session("COM3", 9600);
    assert!(s.connect_request().is_none());
}

#[test]
fn successful_connect_reports_connected() {
    let s = connected_session("COM3", 9600);
    assert_eq!(s.status().as_str(), "Connected");
    assert!(s.is_connected());
    assert!(s.reader_attached());
    assert!(s.writer_attached());
}

#[test]
fn failed_open_reports_the_error() {
    let mut s = Session::new();
    s.select_port("COM3".to_string());
    assert!(s.connect_request().is_some());
    s.connect_failed("Access denied".to_string());
    assert_eq!(s.status().as_str(), "Connection error: Access denied");
    assert!(s.status().contains("Access denied"));
    assert!(!s.is_connected());
    assert!(!s.reader_attached());
    assert!(!s.writer_attached());
}

#[test]
fn send_appends_exactly_one_newline() {
    let mut s = connected_session("COM3", 9600);
    s.set_send_text("PING".to_string());
    let payload = s.send_request().expect("connected with text must send");
    assert_eq!(payload, "PING\n");
    assert_eq!(payload.as_bytes(), b"PING\n");
    s.send_succeeded();
    assert_eq!(s.send_text().as_str(), "");
}

#[test]
fn send_needs_a_connection_and_text() {
    let mut idle = Session::new();
    idle.set_send_text("PING".to_string());
    assert!(idle.send_request().is_none());

    let mut empty = connected_session("COM3", 9600);
    empty.set_send_text(String::new());
    assert!(empty.send_request().is_none());
}

#[test]
fn failed_send_keeps_the_input() {
    let mut s = connected_session("COM3", 9600);
    s.set_send_text("PING".to_string());
    let _payload = s.send_request().expect("connected with text must send");
    // The write failed: the caller does not report success, so the
    // field still holds the text for a retry.
    assert_eq!(s.send_text().as_str(), "PING");
    assert!(s.is_connected());
}

#[test]
fn disconnect_detaches_the_reader() {
    let mut s = connected_session("COM3", 9600);
    let mut link = Link::new();
    assert!(s.reader_attached());
    s.disconnect(&mut link);
    assert!(!s.reader_attached());
    assert!(!s.writer_attached());
    assert!(!s.is_connected());
    assert!(!link.is_running());
    assert_eq!(s.status().as_str(), "Disconnected");
}

#[test]
fn disconnect_twice_ends_in_the_same_state() {
    let mut s = connected_session("COM3", 9600);
    let mut link = Link::new();
    s.disconnect(&mut link);
    let once = (
        s.is_connected(),
        s.status().clone(),
        s.reader_attached(),
        s.writer_attached(),
        link.is_running(),
    );
    s.disconnect(&mut link);
    let twice = (
        s.is_connected(),
        s.status().clone(),
        s.reader_attached(),
        s.writer_attached(),
        link.is_running(),
    );
    assert_eq!(once, twice);
    assert!(!s.is_connected());
}

#[test]
fn disconnect_when_never_connected_is_safe() {
    let mut s = Session::new();
    let mut link = Link::new();
    s.disconnect(&mut link);
    assert!(!s.is_connected());
    assert_eq!(s.status().as_str(), "Disconnected");
}

#[test]
fn port_scan_replaces_only_the_list() {
    let mut s = Session::new();
    s.select_port("COM3".to_string());
    s.set_baud(4800);
    s.set_send_text("hello".to_string());
    s.apply_port_scan(Some(vec!["COM1".to_string(), "COM7".to_string()]));
    assert_eq!(s.ports(), &["COM1".to_string(), "COM7".to_string()]);
    assert_eq!(s.selected_port().as_deref(), Some("COM3"));
    assert_eq!(s.baud(), 4800);
    assert_eq!(s.send_text().as_str(), "hello");
    assert!(!s.is_connected());
    assert_eq!(s.status().as_str(), "");
}

#[test]
fn failed_port_scan_degrades_to_no_ports() {
    let mut s = Session::new();
    s.apply_port_scan(Some(vec!["/dev/ttyUSB0".to_string()]));
    assert_eq!(s.ports().len(), 1);
    s.apply_port_scan(None);
    assert!(s.ports().is_empty());
    assert_eq!(s.status().as_str(), "");
    assert!(!s.is_connected());
}
