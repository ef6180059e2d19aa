use wifi_manager::{
    ApRecordRaw, AuthMode, ConnectEvent, ConnectPoll, IpInfo, Ipv4Addr, Radio, ScanConfig,
    ScanType, Ssid, StaConfig, Wifi, WifiError, WifiMode,
};

fn sta_config(ssid: &str, password: &str) -> StaConfig {
    let mut builder = StaConfig::builder();
    builder.ssid(Ssid::from_bytes(ssid.as_bytes()).unwrap());
    builder.password(wifi_manager::Password::from_bytes(password.as_bytes()).unwrap());
    builder.build()
}

fn ip(a: u8, b: u8, c: u8, d: u8) -> IpInfo {
    IpInfo {
        ip: Ipv4Addr::new(a, b, c, d),
        netmask: Ipv4Addr::new(255, 255, 255, 0),
        gateway: Ipv4Addr::new(a, b, c, 1),
    }
}

#[test]
fn connect_end_to_end() {
    let mut radio = Radio::new();
    let mut wifi = Wifi::take(&mut radio).unwrap();

    let mut op = wifi.connect_sta(&mut radio, sta_config("Home", "secret123"));
    assert_eq!(radio.sta_count, 1);
    assert_eq!(radio.mode, WifiMode::Sta);
    assert_eq!(radio.sta_config.as_ref().unwrap().ssid().as_str(), "Home");
    assert_eq!(radio.sta_config.as_ref().unwrap().password().as_str(), "secret123");

    assert!(matches!(op.poll(&mut wifi, &mut radio), ConnectPoll::Pending));
    assert!(radio.started);
    assert!(radio.subs.sta_start && radio.subs.sta_connected);
    assert!(radio.subs.sta_disconnected && radio.subs.got_ip);

    assert!(!op.handle_event(&mut radio, ConnectEvent::StaStart));
    assert!(!op.handle_event(
        &mut radio,
        ConnectEvent::StaConnected {
            ssid: Ssid::from_bytes(b"Home").unwrap(),
            bssid: [2, 4, 6, 8, 10, 12],
            channel: 6,
            auth_mode: AuthMode::WpaPsk,
        },
    ));
    assert!(op.handle_event(&mut radio, ConnectEvent::GotIp { ip_info: ip(192, 168, 1, 50) }));

    match op.poll(&mut wifi, &mut radio) {
        ConnectPoll::Ready(Ok(info)) => {
            assert_eq!(info.ip_info().ip().a, 192);
            assert_eq!(info.ip_info().ip().b, 168);
            assert_eq!(info.ip_info().ip().c, 1);
            assert_eq!(info.ip_info().ip().d, 50);
            assert_eq!(info.ssid().as_str(), "Home");
            assert_eq!(info.channel(), 6);
            assert_eq!(info.bssid(), [2, 4, 6, 8, 10, 12]);
            assert!(matches!(info.auth_mode(), AuthMode::WpaPsk));
        },
        other => panic!("expected success, got {:?}", other),
    }

    // The station role stays reserved, merged into the handle.
    assert!(wifi.as_sta().is_some());
    assert_eq!(radio.sta_count, 1);
    assert_eq!(radio.mode, WifiMode::Sta);
    assert!(!radio.subs.sta_start && !radio.subs.got_ip);

    wifi.stop_sta(&mut radio);
    assert_eq!(radio.sta_count, 0);
    assert_eq!(radio.mode, WifiMode::Null);
    wifi.shutdown(&mut radio);
}

#[test]
fn disconnect_before_ip_fails_the_connect() {
    let mut radio = Radio::new();
    let mut wifi = Wifi::take(&mut radio).unwrap();

    let mut op = wifi.connect_sta(&mut radio, sta_config("Home", "secret123"));
    assert!(matches!(op.poll(&mut wifi, &mut radio), ConnectPoll::Pending));
    assert!(!op.handle_event(&mut radio, ConnectEvent::StaStart));
    assert!(op.handle_event(
        &mut radio,
        ConnectEvent::StaDisconnected {
            ssid: Ssid::from_bytes(b"Home").unwrap(),
            bssid: [2, 4, 6, 8, 10, 12],
            reason: 201,
        },
    ));

    // A late IP acquisition cannot resurrect the failed operation.
    assert!(!op.handle_event(&mut radio, ConnectEvent::GotIp { ip_info: ip(10, 0, 0, 2) }));

    match op.poll(&mut wifi, &mut radio) {
        ConnectPoll::Ready(Err(WifiError::ConnectionError(err))) => {
            assert_eq!(err.reason, 201);
            assert_eq!(err.ssid.as_str(), "Home");
            assert_eq!(err.bssid, [2, 4, 6, 8, 10, 12]);
        },
        other => panic!("expected a connection error, got {:?}", other),
    }

    // The handle survives the failure with the mode guards fully unwound.
    assert!(wifi.as_sta().is_none());
    assert_eq!(radio.sta_count, 0);
    assert_eq!(radio.mode, WifiMode::Null);
    assert!(!radio.subs.sta_disconnected);
    wifi.shutdown(&mut radio);
}

#[test]
fn connect_command_failure_fails_the_connect() {
    let mut radio = Radio::new();
    let mut wifi = Wifi::take(&mut radio).unwrap();

    let mut op = wifi.connect_sta(&mut radio, sta_config("Home", "pw"));
    assert!(matches!(op.poll(&mut wifi, &mut radio), ConnectPoll::Pending));

    radio.push_fault(-7);
    assert!(op.handle_event(&mut radio, ConnectEvent::StaStart));
    match op.poll(&mut wifi, &mut radio) {
        ConnectPoll::Ready(Err(WifiError::Internal(esp))) => assert_eq!(esp.code, -7),
        other => panic!("expected an internal error, got {:?}", other),
    }
    assert_eq!(radio.sta_count, 0);
    wifi.shutdown(&mut radio);
}

#[test]
fn cancel_mid_flight_releases_everything_once() {
    let mut radio = Radio::new();
    let mut wifi = Wifi::take(&mut radio).unwrap();

    let mut op = wifi.connect_sta(&mut radio, sta_config("Home", "secret123"));
    assert!(matches!(op.poll(&mut wifi, &mut radio), ConnectPoll::Pending));
    assert!(!op.handle_event(
        &mut radio,
        ConnectEvent::StaConnected {
            ssid: Ssid::from_bytes(b"Home").unwrap(),
            bssid: [1, 1, 1, 1, 1, 1],
            channel: 11,
            auth_mode: AuthMode::Wpa2Psk,
        },
    ));
    assert_eq!(radio.sta_count, 1);

    op.cancel(&mut radio);
    assert_eq!(radio.sta_count, 0);
    assert_eq!(radio.mode, WifiMode::Null);
    assert!(!radio.subs.sta_start && !radio.subs.sta_connected);
    assert!(!radio.subs.sta_disconnected && !radio.subs.got_ip);

    // A second cancellation must not release the reservation again.
    op.cancel(&mut radio);
    assert_eq!(radio.sta_count, 0);
    wifi.shutdown(&mut radio);
}

#[test]
fn setup_failure_reports_at_first_poll() {
    let mut radio = Radio::new();
    let mut wifi = Wifi::take(&mut radio).unwrap();

    // The station configuration call (third fallible call) fails.
    radio.push_fault(0);
    radio.push_fault(0);
    radio.push_fault(99);
    let mut op = wifi.connect_sta(&mut radio, sta_config("Home", "pw"));
    match op.poll(&mut wifi, &mut radio) {
        ConnectPoll::Ready(Err(WifiError::Internal(esp))) => assert_eq!(esp.code, 99),
        other => panic!("expected an internal error, got {:?}", other),
    }
    assert_eq!(radio.sta_count, 0);
    assert_eq!(radio.mode, WifiMode::Null);
    wifi.shutdown(&mut radio);
}

fn raw(name: &[u8], last: u8, auth: u32) -> ApRecordRaw {
    ApRecordRaw { ssid: name.to_vec(), bssid: [0, 0, 0, 0, 0, last], auth_code: auth }
}

#[test]
fn passive_scan_clamps_and_returns_all_records() {
    let mut radio = Radio::new();
    let mut wifi = Wifi::take(&mut radio).unwrap();

    // 100 ms expressed in nanoseconds.
    let config = ScanConfig::builder()
        .show_hidden(true)
        .scan_type(ScanType::Passive { max: 100_000_000 })
        .build();

    let mut op = wifi.scan(&mut radio, &config);
    assert_eq!(radio.sta_count, 1);
    assert!(matches!(op.poll(&mut radio), wifi_manager::ScanPoll::Pending));

    // Exactly one scan command, with the duration clamped to milliseconds.
    assert_eq!(radio.scan_starts, 1);
    let params = radio.last_scan.as_ref().unwrap();
    assert!(params.passive);
    assert_eq!(params.passive_ms, 100);
    assert!(params.show_hidden);

    // Re-polling before completion must not issue another command.
    assert!(matches!(op.poll(&mut radio), wifi_manager::ScanPoll::Pending));
    assert_eq!(radio.scan_starts, 1);

    assert!(op.handle_scan_done(&radio));

    // The hardware table holds duplicates and a hidden (empty) name; the
    // raw result keeps them all.
    radio.load_scan_records(vec![
        raw(b"Home", 1, 2),
        raw(b"Home\0\0\0", 2, 3),
        raw(b"", 3, 0),
        raw(b"Guest", 4, 0),
    ]);

    match op.poll(&mut radio) {
        wifi_manager::ScanPoll::Ready(Ok(records)) => {
            assert_eq!(records.len(), 4);
            assert_eq!(records[0].ssid().as_str(), "Home");
            assert_eq!(records[1].ssid().as_str(), "Home");
            assert_eq!(records[2].ssid().as_str(), "");
            assert_eq!(records[3].ssid().as_str(), "Guest");
            assert_eq!(records[0].bssid(), [0, 0, 0, 0, 0, 1]);
            assert!(matches!(records[0].auth_mode(), AuthMode::WpaPsk));
            assert!(matches!(records[1].auth_mode(), AuthMode::Wpa2Psk));
        },
        other => panic!("expected records, got {:?}", other),
    }

    // The reservation and the subscription are released exactly once.
    assert_eq!(radio.sta_count, 0);
    assert_eq!(radio.mode, WifiMode::Null);
    assert!(!radio.subs.scan_done);
    wifi.shutdown(&mut radio);
}

#[test]
fn scan_start_failure_releases_the_reservation() {
    let mut radio = Radio::new();
    let mut wifi = Wifi::take(&mut radio).unwrap();

    let config = ScanConfig::builder().build();
    let mut op = wifi.scan(&mut radio, &config);

    // The scan command itself (third fallible call of the poll) fails.
    radio.push_fault(0);
    radio.push_fault(0);
    radio.push_fault(-3);
    match op.poll(&mut radio) {
        wifi_manager::ScanPoll::Ready(Err(WifiError::Internal(esp))) => assert_eq!(esp.code, -3),
        other => panic!("expected an internal error, got {:?}", other),
    }
    assert_eq!(radio.sta_count, 0);
    assert_eq!(radio.scan_starts, 0);
    assert!(!radio.subs.scan_done);
    wifi.shutdown(&mut radio);
}

#[test]
fn duration_clamping_matches_the_millisecond_grid() {
    assert_eq!(wifi_manager::millis_clamped(0), 0);
    assert_eq!(wifi_manager::millis_clamped(1), 1);
    assert_eq!(wifi_manager::millis_clamped(999_999), 1);
    assert_eq!(wifi_manager::millis_clamped(1_000_000), 1);
    assert_eq!(wifi_manager::millis_clamped(1_000_001), 1);
    assert_eq!(wifi_manager::millis_clamped(2_500_000), 2);
    assert_eq!(wifi_manager::millis_clamped(u64::MAX), u32::MAX);
}
