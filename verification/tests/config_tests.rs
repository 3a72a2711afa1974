use mmitm::config::{parse_port, Config};

#[test]
fn port_defaults_to_3000() {
    let c = Config::from_values(Some("key".to_string()), None).unwrap();
    assert_eq!(c.port, 3000);
    assert_eq!(c.google_maps_api_key, "key");
}

#[test]
fn api_key_is_required() {
    let e = Config::from_values(None, Some("8080".to_string())).unwrap_err();
    assert_eq!(e, "GOOGLE_MAPS_API_KEY environment variable is required");
}

#[test]
fn invalid_port_is_rejected() {
    for bad in ["", "+", "-1", "65536", "80a", " 80", "8080 ", "١٢"] {
        let e = Config::from_values(Some("k".to_string()), Some(bad.to_string())).unwrap_err();
        assert_eq!(e, "Invalid PORT value", "{:?}", bad);
    }
}

#[test]
fn port_parsing_agrees_with_std() {
    for text in ["0", "80", "+80", "00080", "65535", "65536", "99999999999", "+", "", "-0", "1_0", "+-1"] {
        assert_eq!(parse_port(text), text.parse::<u16>().ok(), "{:?}", text);
    }
    let c = Config::from_values(Some("k".to_string()), Some("+8080".to_string())).unwrap();
    assert_eq!(c.port, 8080);
}
