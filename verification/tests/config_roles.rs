use wifi_manager::{
    ApConfig, AuthMode, ConnectEvent, ConnectPoll, IpInfo, Ipv4Addr, Password, Radio, ScanMethod,
    ScanThreshold, SortMethod, Ssid, StaConfig, Wifi, WifiMode,
};

#[test]
fn sta_builder_defaults_and_setters() {
    let mut builder = StaConfig::builder();
    assert!(builder.ssid.is_none());
    assert_eq!(builder.password.len(), 0);
    assert!(matches!(builder.scan_method, ScanMethod::Fast));
    assert!(matches!(builder.sort_method, SortMethod::BySignal));
    assert!(builder.bssid.is_none());
    assert!(builder.channel.is_none());
    assert!(builder.listen_interval.is_none());
    assert!(builder.threshold.is_none());

    builder.ssid(Ssid::from_bytes(b"net").unwrap()).password(
        Password::from_bytes(b"pw").unwrap(),
    );
    let config = builder.build();
    assert_eq!(config.ssid().as_str(), "net");
    assert_eq!(config.password().as_str(), "pw");
    assert!(matches!(config.scan_method(), ScanMethod::Fast));
    assert!(config.channel().is_none());
}

#[test]
fn ap_builder_defaults_and_setters() {
    let mut builder = ApConfig::builder();
    assert!(builder.ssid.is_none());
    assert!(matches!(builder.auth_mode, AuthMode::Open));
    assert_eq!(builder.max_connection, Some(4));
    assert_eq!(builder.beacon_interval, Some(100));
    assert!(!builder.ssid_hidden);

    builder.ssid(Ssid::from_bytes(b"portal").unwrap()).password(
        Password::from_bytes(b"hunter2hunter2").unwrap(),
    );
    let config = builder.build();
    assert_eq!(config.ssid().as_str(), "portal");
    assert_eq!(config.password().as_str(), "hunter2hunter2");
    assert!(!config.ssid_hidden());
    assert!(config.channel().is_none());
}

#[test]
fn scan_threshold_default_admits_everything() {
    let threshold = ScanThreshold::default();
    assert_eq!(threshold.rssi, -127);
    assert!(matches!(threshold.auth_mode, AuthMode::Open));
}

#[test]
fn combined_mode_keeps_both_roles() {
    let mut radio = Radio::new();
    let mut wifi = Wifi::take(&mut radio).unwrap();

    let mut ap_builder = ApConfig::builder();
    ap_builder.ssid(Ssid::from_bytes(b"portal").unwrap());
    wifi.start_ap(&mut radio, ap_builder.build()).unwrap();
    assert_eq!(radio.mode, WifiMode::Ap);

    let mut sta_builder = StaConfig::builder();
    sta_builder.ssid(Ssid::from_bytes(b"Home").unwrap());
    sta_builder.password(Password::from_bytes(b"secret123").unwrap());
    let mut op = wifi.connect_sta(&mut radio, sta_builder.build());
    assert_eq!(radio.mode, WifiMode::ApSta);

    assert!(matches!(op.poll(&mut wifi, &mut radio), ConnectPoll::Pending));
    op.handle_event(&mut radio, ConnectEvent::StaStart);
    op.handle_event(
        &mut radio,
        ConnectEvent::StaConnected {
            ssid: Ssid::from_bytes(b"Home").unwrap(),
            bssid: [9, 9, 9, 9, 9, 9],
            channel: 1,
            auth_mode: AuthMode::Wpa2Psk,
        },
    );
    op.handle_event(
        &mut radio,
        ConnectEvent::GotIp {
            ip_info: IpInfo {
                ip: Ipv4Addr::new(10, 0, 0, 7),
                netmask: Ipv4Addr::new(255, 0, 0, 0),
                gateway: Ipv4Addr::new(10, 0, 0, 1),
            },
        },
    );
    assert!(matches!(op.poll(&mut wifi, &mut radio), ConnectPoll::Ready(Ok(_))));

    // The station merged into the existing access point.
    assert!(wifi.as_ap().is_some());
    assert!(wifi.as_sta().is_some());
    assert_eq!(radio.mode, WifiMode::ApSta);

    // Stopping the station falls back to the lone access point.
    wifi.stop_sta(&mut radio);
    assert!(wifi.as_ap().is_some());
    assert!(wifi.as_sta().is_none());
    assert_eq!(radio.mode, WifiMode::Ap);

    wifi.shutdown(&mut radio);
    assert_eq!(radio.mode, WifiMode::Null);
    assert_eq!(radio.ap_count, 0);
}
