use wifi_manager::{Password, Ssid, WifiConfigError};

#[test]
fn ssid_round_trips_through_display() {
    let ssid = Ssid::from_bytes(b"Home").unwrap();
    assert_eq!(ssid.as_str(), "Home");
    assert_eq!(ssid.as_bytes().as_slice(), b"Home");
    assert_eq!(ssid.len(), 4);

    let re = Ssid::from_bytes(ssid.as_str().as_bytes()).unwrap();
    assert!(re == ssid);
}

#[test]
fn ssid_accepts_up_to_capacity() {
    let bytes = [b'a'; 32];
    let ssid = Ssid::from_bytes(&bytes).unwrap();
    assert_eq!(ssid.len(), 32);

    let utf8 = "caf\u{e9}-\u{1f4f6}";
    let ssid = Ssid::from_bytes(utf8.as_bytes()).unwrap();
    assert_eq!(ssid.as_str(), utf8);
}

#[test]
fn ssid_rejects_oversized_with_lengths() {
    let bytes = [b'a'; 33];
    match Ssid::from_bytes(&bytes) {
        Err(WifiConfigError::TooLong(max, actual)) => {
            assert_eq!(max, 32);
            assert_eq!(actual, 33);
        },
        other => panic!("expected a length error, got {:?}", other),
    }
}

#[test]
fn ssid_rejects_interior_nul_at_position() {
    match Ssid::from_bytes(b"ab\0cd") {
        Err(WifiConfigError::InteriorNul(pos)) => assert_eq!(pos, 2),
        other => panic!("expected an interior NUL error, got {:?}", other),
    }
}

#[test]
fn ssid_rejects_invalid_utf8_with_valid_prefix_length() {
    match Ssid::from_bytes(&[b'o', b'k', 0xFF, b'x']) {
        Err(WifiConfigError::Utf8Error(valid_up_to)) => assert_eq!(valid_up_to, 2),
        other => panic!("expected a UTF-8 error, got {:?}", other),
    }
    match Ssid::from_bytes(&[0xC3]) {
        Err(WifiConfigError::Utf8Error(valid_up_to)) => assert_eq!(valid_up_to, 0),
        other => panic!("expected a UTF-8 error, got {:?}", other),
    }
}

#[test]
fn ssid_checks_length_before_encoding() {
    let mut bytes = [0xFFu8; 40];
    bytes[0] = b'a';
    match Ssid::from_bytes(&bytes) {
        Err(WifiConfigError::TooLong(max, actual)) => {
            assert_eq!(max, 32);
            assert_eq!(actual, 40);
        },
        other => panic!("expected a length error, got {:?}", other),
    }
}

#[test]
fn password_round_trips_and_validates() {
    let password = Password::from_bytes(b"secret123").unwrap();
    assert_eq!(password.as_str(), "secret123");
    assert_eq!(password.len(), 9);

    let bytes = [b'p'; 64];
    assert!(Password::from_bytes(&bytes).is_ok());

    let bytes = [b'p'; 65];
    match Password::from_bytes(&bytes) {
        Err(WifiConfigError::TooLong(max, actual)) => {
            assert_eq!(max, 64);
            assert_eq!(actual, 65);
        },
        other => panic!("expected a length error, got {:?}", other),
    }

    match Password::from_bytes(b"\0") {
        Err(WifiConfigError::InteriorNul(pos)) => assert_eq!(pos, 0),
        other => panic!("expected an interior NUL error, got {:?}", other),
    }
}

#[test]
fn empty_credentials_are_valid() {
    let ssid = Ssid::from_bytes(b"").unwrap();
    assert_eq!(ssid.len(), 0);
    assert_eq!(ssid.as_str(), "");

    let password = Password::default();
    assert_eq!(password.len(), 0);
    assert_eq!(password.as_str(), "");
}
