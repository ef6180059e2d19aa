use wifi_manager::{
    ApConfig, AuthMode, Cipher, EspError, Radio, Ssid, Wifi, WifiError, WifiMode,
};

#[test]
fn mode_transition_table() {
    assert_eq!(WifiMode::Null.with_ap(), WifiMode::Ap);
    assert_eq!(WifiMode::Sta.with_ap(), WifiMode::ApSta);
    assert_eq!(WifiMode::Ap.with_ap(), WifiMode::Ap);
    assert_eq!(WifiMode::ApSta.with_ap(), WifiMode::ApSta);

    assert_eq!(WifiMode::Null.with_sta(), WifiMode::Sta);
    assert_eq!(WifiMode::Ap.with_sta(), WifiMode::ApSta);

    assert_eq!(WifiMode::ApSta.without_ap(), WifiMode::Sta);
    assert_eq!(WifiMode::Ap.without_ap(), WifiMode::Null);
    assert_eq!(WifiMode::ApSta.without_sta(), WifiMode::Ap);
    assert_eq!(WifiMode::Sta.without_sta(), WifiMode::Null);
}

#[test]
fn balanced_enters_and_leaves_restore_the_mode() {
    let mut radio = Radio::new();
    assert_eq!(radio.mode, WifiMode::Null);

    // An interleaving of three reservations per role, released in a
    // different order than they were taken.
    radio.enter_ap().unwrap();
    radio.enter_sta().unwrap();
    assert_eq!(radio.mode, WifiMode::ApSta);
    radio.enter_ap().unwrap();
    radio.leave_sta();
    radio.enter_sta().unwrap();
    radio.enter_sta().unwrap();
    radio.leave_ap();
    radio.leave_sta();
    radio.leave_sta();
    radio.leave_ap();
    assert_eq!(radio.mode, WifiMode::Null);
    assert_eq!(radio.ap_count, 0);
    assert_eq!(radio.sta_count, 0);
}

#[test]
fn entering_twice_calls_hardware_once() {
    let mut radio = Radio::new();
    radio.enter_ap().unwrap();
    assert_eq!(radio.mode, WifiMode::Ap);

    // A scripted failure would surface if the second reservation touched
    // the hardware again.
    radio.push_fault(-1);
    radio.enter_ap().unwrap();
    assert_eq!(radio.ap_count, 2);
    assert_eq!(radio.mode, WifiMode::Ap);
    radio.faults.clear();
    radio.leave_ap();
    radio.leave_ap();
    assert_eq!(radio.mode, WifiMode::Null);
}

#[test]
fn failed_reservation_rolls_back() {
    let mut radio = Radio::new();
    radio.push_fault(257);
    let err = radio.enter_sta().unwrap_err();
    assert_eq!(err, EspError { code: 257 });
    assert_eq!(radio.sta_count, 0);
    assert_eq!(radio.mode, WifiMode::Null);
}

#[test]
fn take_is_exclusive() {
    let mut radio = Radio::new();
    let wifi = Wifi::take(&mut radio).unwrap();
    assert!(Wifi::take(&mut radio).is_none());
    wifi.shutdown(&mut radio);
    assert!(!radio.active);
    let wifi = Wifi::take(&mut radio).unwrap();
    wifi.shutdown(&mut radio);
}

fn home_ap_config() -> ApConfig {
    let mut builder = ApConfig::builder();
    builder.ssid(Ssid::from_bytes(b"portal").unwrap());
    builder.build()
}

#[test]
fn start_ap_reserves_and_configures() {
    let mut radio = Radio::new();
    let mut wifi = Wifi::take(&mut radio).unwrap();

    wifi.start_ap(&mut radio, home_ap_config()).unwrap();
    assert_eq!(radio.mode, WifiMode::Ap);
    assert_eq!(radio.ap_count, 1);
    assert!(radio.started);
    assert!(wifi.as_ap().is_some());
    assert!(wifi.as_sta().is_none());

    let stored = radio.ap_config.as_ref().unwrap();
    assert_eq!(stored.ssid().as_str(), "portal");
    assert_eq!(stored.auth_mode(), AuthMode::Open);
    assert_eq!(stored.max_connection(), Some(4));
    assert_eq!(stored.beacon_interval(), Some(100));
    assert_eq!(stored.pairwise_cipher(), Cipher::NoCipher);

    wifi.stop_ap(&mut radio);
    assert_eq!(radio.mode, WifiMode::Null);
    assert_eq!(radio.ap_count, 0);
    assert!(!radio.started);
    wifi.shutdown(&mut radio);
}

#[test]
fn start_ap_failure_unwinds_the_reservation() {
    let mut radio = Radio::new();
    let mut wifi = Wifi::take(&mut radio).unwrap();

    // The third SDK call (set configuration) fails.
    radio.push_fault(0);
    radio.push_fault(0);
    radio.push_fault(-42);
    match wifi.start_ap(&mut radio, home_ap_config()) {
        Err(WifiError::Internal(esp)) => assert_eq!(esp.code, -42),
        other => panic!("expected an internal error, got {:?}", other),
    }
    assert_eq!(radio.ap_count, 0);
    assert_eq!(radio.mode, WifiMode::Null);
    assert!(wifi.as_ap().is_none());
    wifi.shutdown(&mut radio);
}

#[test]
fn shutdown_releases_all_roles() {
    let mut radio = Radio::new();
    let mut wifi = Wifi::take(&mut radio).unwrap();
    wifi.start_ap(&mut radio, home_ap_config()).unwrap();
    wifi.shutdown(&mut radio);
    assert_eq!(radio.ap_count, 0);
    assert_eq!(radio.mode, WifiMode::Null);
    assert!(!radio.active);
    assert!(!radio.started);
}

#[test]
fn auth_mode_codes_round_trip() {
    let modes = [
        AuthMode::Open,
        AuthMode::Wep,
        AuthMode::WpaPsk,
        AuthMode::Wpa2Psk,
        AuthMode::WpaWpa2Psk,
        AuthMode::Wpa2Enterprise,
        AuthMode::Wpa3Psk,
        AuthMode::Wpa2Wpa3Psk,
        AuthMode::WapiPsk,
    ];
    for mode in modes {
        assert_eq!(AuthMode::from_code(mode.code()), Some(mode));
    }
    assert_eq!(AuthMode::from_code(9), None);
    assert_eq!(AuthMode::from_code(2), Some(AuthMode::WpaPsk));
}

#[test]
fn cipher_codes_round_trip() {
    let ciphers = [
        Cipher::NoCipher,
        Cipher::Wep40,
        Cipher::Wep104,
        Cipher::Tkip,
        Cipher::Ccmp,
        Cipher::TkipCcmp,
        Cipher::AesCmac128,
        Cipher::Sms4,
        Cipher::Unknown,
    ];
    for cipher in ciphers {
        assert_eq!(Cipher::from_code(cipher.code()), cipher);
    }
    assert_eq!(Cipher::from_code(1000), Cipher::Unknown);
}
