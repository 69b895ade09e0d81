use layer_shell_io::wire::frame_written;
use layer_shell_io::network::{
    fmt, ConnectionEvent, Network, NetworkInput, NetworkRequest, NetworkSpeed, OneWaySpeed, SsidAndStrengthState,
    WirelessConnection, WirelessConnectionEvent, WirelessState,
};
use layer_shell_io::text::{i32_to_decimal, parse_i32, str_contains, str_eq, u64_to_decimal};

#[test]
fn decimal_notation() {
    assert_eq!(u64_to_decimal(0), "0");
    assert_eq!(u64_to_decimal(7), "7");
    assert_eq!(u64_to_decimal(1234), "1234");
    assert_eq!(u64_to_decimal(u64::MAX), "18446744073709551615");
    assert_eq!(i32_to_decimal(-42), "-42");
    assert_eq!(i32_to_decimal(i32::MIN), "-2147483648");
    assert_eq!(i32_to_decimal(i32::MAX), "2147483647");
}

#[test]
fn parsing_i32_like_std() {
    for s in ["0", "123", "-2147483648", "2147483647", "+5", "-0", "007", "", "-", "+", "1a", " 1", "2147483648", "-2147483649", "99999999999"] {
        assert_eq!(parse_i32(s), s.parse::<i32>().ok(), "input {s:?}");
    }
}

#[test]
fn decimal_round_trip() {
    for v in [0, 1, -1, 42, -42, i32::MIN, i32::MAX] {
        assert_eq!(parse_i32(&i32_to_decimal(v)), Some(v));
    }
}

#[test]
fn comparing_text() {
    assert!(str_eq("abc", "abc"));
    assert!(!str_eq("abc", "abd"));
    assert!(!str_eq("abc", "ab"));
    assert!(str_eq("", ""));
    assert!(str_contains("802-11-wireless", "wireless"));
    assert!(!str_contains("802-3-ethernet", "wireless"));
    assert!(str_contains("anything", ""));
    assert!(!str_contains("wire", "wireless"));
}

#[test]
fn speed_formatting() {
    assert_eq!(fmt(0), "0B/s");
    assert_eq!(fmt(1023), "1023B/s");
    assert_eq!(fmt(1024), "1KB/s");
    assert_eq!(fmt(2047), "1KB/s");
    assert_eq!(fmt(1024 * 1024 - 1), "1023KB/s");
    assert_eq!(fmt(1024 * 1024), "1MB/s");
    assert_eq!(fmt(5 * 1024 * 1024 + 5), "5MB/s");
}

#[test]
fn one_way_speed() {
    let mut s = OneWaySpeed::Uninitialized;
    assert_eq!(s.update(100_000), 0);
    assert_eq!(s, OneWaySpeed::Initialized(100_000));
    assert_eq!(s.update(104_999), 0);
    assert_eq!(s.update(110_000), 5_001);
    assert_eq!(s.update(110_000), 0);
}

#[test]
fn network_speed_update_and_reset() {
    let mut n = NetworkSpeed::new();
    let e = n.update(1_000, 2_000);
    assert_eq!(e.upload_speed, "0B/s");
    assert_eq!(e.download_speed, "0B/s");
    let e = n.update(1_000 + 2 * 1024 * 1024, 2_000 + 10_240);
    assert_eq!(e.upload_speed, "2MB/s");
    assert_eq!(e.download_speed, "10KB/s");
    n.reset();
    assert_eq!(n.tx, OneWaySpeed::Uninitialized);
    assert_eq!(n.rx, OneWaySpeed::Uninitialized);
    let e = n.update(5, 5);
    assert_eq!(e.upload_speed, "0B/s");
}

#[test]
fn object_paths() {
    assert!(matches!(ConnectionEvent::from_path("/"), ConnectionEvent::Disconnected));
    match ConnectionEvent::from_path("/org/freedesktop/NetworkManager/Devices/3") {
        ConnectionEvent::Connected(p) => assert_eq!(p, "/org/freedesktop/NetworkManager/Devices/3"),
        ConnectionEvent::Disconnected => panic!("expected a path"),
    }
}

#[test]
fn wireless_connection_tracking() {
    let mut w = WirelessConnection::new();
    assert!(w.on_active_connection_type_received("802-11-wireless").is_none());
    let (e, req) = w.on_primary_connection_event(ConnectionEvent::Connected("/ac/1".to_string()));
    assert!(e.is_none());
    assert!(matches!(req, NetworkRequest::WatchActiveConnectionType(p) if p == "/ac/1"));
    assert_eq!(w.state, WirelessState::ConnectedAndHavePath);
    match w.on_active_connection_type_received("802-11-wireless") {
        Some(WirelessConnectionEvent::Connected(p)) => assert_eq!(p, "/ac/1"),
        _ => panic!("expected a wireless connection"),
    }
    assert_eq!(w.state, WirelessState::ConnectedAndHavePathAndType);
    assert!(matches!(w.on_active_connection_type_received("802-3-ethernet"), Some(WirelessConnectionEvent::Disconnected)));
    assert_eq!(w.state, WirelessState::Disconnected);
    let (e, req) = w.on_primary_connection_event(ConnectionEvent::Disconnected);
    assert!(matches!(e, Some(WirelessConnectionEvent::Disconnected)));
    assert!(matches!(req, NetworkRequest::UnwatchActiveConnectionType));
    assert!(w.path.is_none());
}

#[test]
fn ssid_and_strength_are_told_on_change_only() {
    let mut s = SsidAndStrengthState::new();
    assert_eq!(s.on_ssid_and_strength_event(Some("home".to_string()), None), None);
    assert_eq!(s.on_ssid_and_strength_event(None, Some(70)), Some(("home".to_string(), 70)));
    assert_eq!(s.on_ssid_and_strength_event(Some("home".to_string()), Some(70)), None);
    assert_eq!(s.on_ssid_and_strength_event(None, Some(71)), Some(("home".to_string(), 71)));
    assert_eq!(s.on_ssid_and_strength_event(Some("work".to_string()), None), Some(("work".to_string(), 71)));
}

#[test]
fn network_requests() {
    let (mut n, reqs) = Network::new();
    assert!(matches!(reqs.as_slice(), [NetworkRequest::WatchPrimaryConnection]));
    let (reqs, told) = n.handle(NetworkInput::PrimaryConnection("/ac/7".to_string()));
    assert!(told.is_none());
    assert!(matches!(reqs.as_slice(), [NetworkRequest::WatchActiveConnectionType(p)] if p == "/ac/7"));
    let (reqs, _) = n.handle(NetworkInput::ActiveConnectionType("802-11-wireless".to_string()));
    assert!(matches!(reqs.as_slice(), [NetworkRequest::WatchPrimaryDevice(p)] if p == "/ac/7"));
    let (reqs, _) = n.handle(NetworkInput::PrimaryDevice("/dev/2".to_string()));
    assert!(matches!(reqs.as_slice(), [NetworkRequest::WatchActiveAccessPoint(a), NetworkRequest::WatchTxRx(b)] if a == "/dev/2" && b == "/dev/2"));
    let (reqs, _) = n.handle(NetworkInput::ActiveAccessPoint("/".to_string()));
    assert!(matches!(reqs.as_slice(), [NetworkRequest::UnwatchSsidAndStrength]));
    let (reqs, told) = n.handle(NetworkInput::SsidAndStrength { ssid: Some("cafe".to_string()), strength: Some(40) });
    assert!(reqs.is_empty());
    assert_eq!(told, Some(("cafe".to_string(), 40)));
    let (reqs, _) = n.handle(NetworkInput::PrimaryConnection("/".to_string()));
    assert!(matches!(reqs.as_slice(), [NetworkRequest::UnwatchActiveConnectionType, NetworkRequest::UnwatchPrimaryDevice]));
}

#[test]
fn network_state_follows_the_reports() {
    let (mut n, _) = Network::new();
    assert!(n.wireless_connection.path.is_none());
    let _ = n.handle(NetworkInput::PrimaryConnection("/ac/7".to_string()));
    assert_eq!(n.wireless_connection.path.as_deref(), Some("/ac/7"));
    assert_eq!(n.wireless_connection.state, WirelessState::ConnectedAndHavePath);
    let _ = n.handle(NetworkInput::ActiveConnectionType("802-3-ethernet".to_string()));
    assert_eq!(n.wireless_connection.state, WirelessState::Disconnected);
    assert_eq!(n.wireless_connection.path.as_deref(), Some("/ac/7"));
    let _ = n.handle(NetworkInput::ActiveConnectionType("802-11-wireless".to_string()));
    assert_eq!(n.wireless_connection.state, WirelessState::ConnectedAndHavePathAndType);
    n.speed.update(10_000, 20_000);
    let _ = n.handle(NetworkInput::ActiveAccessPoint("/ap/1".to_string()));
    assert_eq!(n.speed.tx, OneWaySpeed::Initialized(10_000));
    let _ = n.handle(NetworkInput::PrimaryDevice("/dev/3".to_string()));
    assert_eq!(n.speed.tx, OneWaySpeed::Uninitialized);
    assert_eq!(n.speed.rx, OneWaySpeed::Uninitialized);
    assert_eq!(n.wireless_connection.state, WirelessState::ConnectedAndHavePathAndType);
    let _ = n.handle(NetworkInput::PrimaryConnection("/".to_string()));
    assert_eq!(n.wireless_connection.state, WirelessState::Disconnected);
    assert!(n.wireless_connection.path.is_none());
}

#[test]
fn frames_fill_up() {
    assert_eq!(frame_written(0, 2, 32), (2, false));
    assert_eq!(frame_written(30, 2, 32), (0, true));
    assert_eq!(frame_written(0, 2, 2), (0, true));
    assert_eq!(frame_written(5, 0, 8), (5, false));
}
