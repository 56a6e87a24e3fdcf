use color_operators::error::ColorError;
use color_operators::rgb::RGB;

#[test]
fn to_hex() {
    let color = RGB::new(171, 205, 239);
    assert_eq!(color.to_hex_string(), "ABCDEF".to_string());
}

#[test]
fn to_hex_pads_small_channels() {
    let color = RGB::new(255, 42, 90);
    assert_eq!(color.to_hex_string(), "FF2A5A".to_string());
    assert_eq!(RGB::new(0, 0, 0).to_hex_string(), "000000".to_string());
    assert_eq!(RGB::new(1, 2, 3).to_hex_string(), "010203".to_string());
}

#[test]
fn from_hex_accepts_lower_case() {
    assert_eq!(RGB::from_hex_string("abcdef"), Ok(RGB::new(171, 205, 239)));
}

#[test]
fn from_hex_rejects_malformed_text() {
    assert_eq!(RGB::from_hex_string("ABCDE"), Err(ColorError::DecodeError));
    assert_eq!(RGB::from_hex_string("ABCDEF01"), Err(ColorError::DecodeError));
    assert_eq!(RGB::from_hex_string("GGGGGG"), Err(ColorError::DecodeError));
    assert_eq!(RGB::from_hex_string(""), Err(ColorError::DecodeError));
}

#[test]
fn hex_normalizes_to_upper_case() {
    let color = RGB::from_hex_string("abcdef").unwrap();
    assert_eq!(color.to_hex_string(), "ABCDEF".to_string());
}

#[test]
fn hex_round_trip() {
    let colors = [
        RGB::new(0, 0, 0),
        RGB::new(255, 255, 255),
        RGB::new(171, 205, 239),
        RGB::new(16, 1, 100),
    ];
    for color in colors {
        let hex = color.to_hex_string();
        assert_eq!(RGB::from_hex_string(hex.as_str()), Ok(color));
    }
}

#[test]
fn from_json() {
    let rgb = RGB::from_json_string(r#"{ "red": 255, "green": 42, "blue": 90 }"#);
    assert_eq!(rgb, RGB::new(255, 42, 90));
}

#[test]
fn from_json_defaults_missing_members() {
    assert_eq!(RGB::from_json_string(r#"{ "red": 10 }"#), RGB::new(10, 0, 0));
    assert_eq!(RGB::from_json_string(r#"{}"#), RGB::new(0, 0, 0));
}

#[test]
fn from_json_ignores_unusable_members() {
    let rgb = RGB::from_json_string(r#"{ "red": "much", "green": 300, "blue": 7, "extra": 1 }"#);
    assert_eq!(rgb, RGB::new(0, 0, 7));
}

#[test]
fn from_json_falls_back_to_black() {
    assert_eq!(RGB::from_json_string("not an object at all"), RGB::new(0, 0, 0));
}

#[test]
fn to_json() {
    let rgb = RGB::new(255, 42, 90);
    let expected = "{\"red\":255,\"green\":42,\"blue\":90}".to_string();
    assert_eq!(rgb.to_json_string(), expected);
}

#[test]
fn json_round_trip() {
    let color = RGB::new(12, 0, 201);
    assert_eq!(RGB::from_json_string(color.to_json_string().as_str()), color);
}
