use wifi_manager::{form_decode_bytes, ssid_and_password, Questions, ResponseCode};

#[test]
fn form_decoding_handles_plus_and_percent() {
    assert_eq!(form_decode_bytes(b"a+b").as_slice(), b"a b");
    assert_eq!(form_decode_bytes(b"a%20b").as_slice(), b"a b");
    assert_eq!(form_decode_bytes(b"%41%6fk").as_slice(), b"Aok");
    assert_eq!(form_decode_bytes(b"%2B").as_slice(), b"+");
    // Malformed escapes stay as they are.
    assert_eq!(form_decode_bytes(b"%zz%4").as_slice(), b"%zz%4");
    assert_eq!(form_decode_bytes(b"%").as_slice(), b"%");
}

#[test]
fn credentials_are_extracted_from_form_bytes() {
    let (ssid, password) = ssid_and_password(b"ssid=Home&password=secret123");
    assert_eq!(ssid.unwrap().as_str(), "Home");
    assert_eq!(password.unwrap().as_str(), "secret123");
}

#[test]
fn credential_values_are_decoded_before_validation() {
    let (ssid, password) = ssid_and_password(b"ssid=My+Home%21&password=p%40ss+word");
    assert_eq!(ssid.unwrap().as_str(), "My Home!");
    assert_eq!(password.unwrap().as_str(), "p@ss word");
}

#[test]
fn oversized_or_malformed_credentials_are_rejected() {
    let long = [b'a'; 33];
    let mut params = b"ssid=".to_vec();
    params.extend_from_slice(&long);
    let (ssid, _) = ssid_and_password(&params);
    assert!(ssid.is_none());

    // An invalid percent-decoded byte sequence is not valid UTF-8.
    let (ssid, _) = ssid_and_password(b"ssid=%FF%FE");
    assert!(ssid.is_none());
}

#[test]
fn later_fields_override_earlier_ones() {
    let (ssid, _) = ssid_and_password(b"ssid=first&ssid=second");
    assert_eq!(ssid.unwrap().as_str(), "second");

    // An invalid later value clears the earlier candidate.
    let (ssid, _) = ssid_and_password(b"ssid=first&ssid=%FF");
    assert!(ssid.is_none());
}

#[test]
fn unrelated_fields_and_empty_segments_are_tolerated() {
    let (ssid, password) = ssid_and_password(b"&lang=en&&ssid=Home&&password=pw&theme=dark");
    assert_eq!(ssid.unwrap().as_str(), "Home");
    assert_eq!(password.unwrap().as_str(), "pw");

    let (ssid, password) = ssid_and_password(b"");
    assert!(ssid.is_none());
    assert!(password.is_none());

    let (ssid, password) = ssid_and_password(b"ssid&password");
    assert_eq!(ssid.unwrap().as_str(), "");
    assert_eq!(password.unwrap().as_str(), "");
}

#[test]
fn extraction_agrees_with_the_reference_parser() {
    // The same walk, written over url's form_urlencoded parser.
    fn reference(params: &[u8]) -> (Option<String>, Option<String>) {
        let mut ssid: Option<String> = None;
        let mut password: Option<String> = None;
        for (name, value) in url::form_urlencoded::parse(params) {
            match name.as_ref() {
                "ssid" => {
                    ssid = wifi_manager::Ssid::from_bytes(value.as_bytes())
                        .ok()
                        .map(|s| s.as_str())
                },
                "password" => {
                    password = wifi_manager::Password::from_bytes(value.as_bytes())
                        .ok()
                        .map(|p| p.as_str())
                },
                _ => {
                    if ssid.is_some() && password.is_some() {
                        break;
                    }
                },
            }
        }
        (ssid, password)
    }

    let inputs: [&[u8]; 6] = [
        b"ssid=Home&password=secret123",
        b"ssid=My+Home%21&password=p%40ss+word",
        b"password=only",
        b"a=1&ssid=X&b=2&password=Y&c=3",
        b"ssid=%41%42%43",
        b"ssid=&password=",
    ];
    for input in inputs {
        let (ssid, password) = ssid_and_password(input);
        let (ref_ssid, ref_password) = reference(input);
        assert_eq!(ssid.map(|s| s.as_str()), ref_ssid);
        assert_eq!(password.map(|p| p.as_str()), ref_password);
    }
}

fn question_bytes() -> Vec<u8> {
    let mut buf = Vec::new();
    buf.push(3u8);
    buf.extend_from_slice(b"www");
    buf.push(7);
    buf.extend_from_slice(b"example");
    buf.push(3);
    buf.extend_from_slice(b"com");
    buf.push(0);
    buf.extend_from_slice(&[0, 1, 0, 1]);
    buf
}

#[test]
fn questions_parse_names_types_and_classes() {
    let mut questions = Questions::new(question_bytes(), 1, 0);
    let question = questions.next().unwrap().unwrap();

    assert_eq!(question.as_bytes().len(), 21);
    assert_eq!(question.kind().code, 1);
    assert_eq!(question.class().code, 1);

    let name = question.name();
    assert_eq!(name.to_bytes().as_slice(), b"www.example.com");
    assert!(name.eq_str("www.example.com"));
    assert!(!name.eq_str("www.example.co"));
    assert!(!name.eq_str("www.example.com."));

    assert!(questions.next().is_none());
}

#[test]
fn questions_walk_multiple_questions() {
    let mut buf = question_bytes();
    buf.push(4);
    buf.extend_from_slice(b"test");
    buf.push(0);
    buf.extend_from_slice(&[0, 12, 0, 1]);

    let mut questions = Questions::new(buf, 2, 0);
    let first = questions.next().unwrap().unwrap();
    assert!(first.name().eq_str("www.example.com"));
    let second = questions.next().unwrap().unwrap();
    assert!(second.name().eq_str("test"));
    assert_eq!(second.kind().code, 12);
    assert!(questions.next().is_none());
}

#[test]
fn truncated_questions_are_format_errors() {
    // The label runs past the end of the bytes.
    let mut questions = Questions::new(vec![5, b'a', b'b'], 1, 0);
    assert_eq!(questions.next().unwrap().unwrap_err(), ResponseCode::FormatError);

    // The type and class bytes are missing after the terminator.
    let mut questions = Questions::new(vec![1, b'a', 0, 0, 1], 1, 0);
    assert_eq!(questions.next().unwrap().unwrap_err(), ResponseCode::FormatError);

    // An announced count of zero yields nothing.
    let mut questions = Questions::new(question_bytes(), 0, 0);
    assert!(questions.next().is_none());
}
