use home_light::light::{
    byte_from_percent, percent_from_byte, HSVColor, LightInfo, PayloadError,
};

#[test]
fn solid_payload_scenario() {
    let info = LightInfo::from_raw_data(&[0x41, 0x00, 0x01, 0x00, 0xFF, 0x66, 0x19]).unwrap();
    assert_eq!(info.name, "A");
    assert!(info.is_on);
    assert_eq!(info.color, HSVColor { h: 0xFF, s: 0x66, v: 0x19 });
    let h = info.color.h as f64 / 255.0 * 360.0;
    let s = info.color.s as f64 / 255.0;
    let v = info.color.v as f64 / 255.0;
    assert!((h - 360.0).abs() < 1e-9);
    assert!((s - 0.4).abs() < 1e-9);
    assert!((v - 0.098).abs() < 1e-3);
}

#[test]
fn empty_payload_gives_defaults() {
    let info = LightInfo::from_raw_data(&[]).unwrap();
    assert_eq!(info.name, "");
    assert!(!info.is_on);
    assert_eq!(info.color, HSVColor { h: 0, s: 0, v: 0 });
}

#[test]
fn invalid_utf8_name_fails() {
    let r = LightInfo::from_raw_data(&[0xC3, 0x28, 0x00, 0x01]);
    assert_eq!(r.unwrap_err(), PayloadError::NameNotUtf8);
}

#[test]
fn utf8_name_is_decoded() {
    let info = LightInfo::from_raw_data(&[0x4C, 0xC3, 0xA9, 0x00, 0x00]).unwrap();
    assert_eq!(info.name, "L\u{e9}");
    assert!(!info.is_on);
}

#[test]
fn name_without_terminator() {
    let info = LightInfo::from_raw_data(b"Lamp").unwrap();
    assert_eq!(info.name, "Lamp");
    assert!(!info.is_on);
    assert_eq!(info.color, HSVColor { h: 0, s: 0, v: 0 });
}

#[test]
fn animating_keeps_default_color() {
    let info = LightInfo::from_raw_data(&[0x42, 0x00, 0x07, 0x01, 0x10, 0x20, 0x30]).unwrap();
    assert!(info.is_on);
    assert_eq!(info.color, HSVColor { h: 0, s: 0, v: 0 });
}

#[test]
fn unknown_color_state_keeps_default_color() {
    let info = LightInfo::from_raw_data(&[0x00, 0x01, 0x05, 0x10, 0x20, 0x30]).unwrap();
    assert_eq!(info.name, "");
    assert_eq!(info.color, HSVColor { h: 0, s: 0, v: 0 });
}

#[test]
fn solid_with_missing_bytes_keeps_default_color() {
    let info = LightInfo::from_raw_data(&[0x42, 0x00, 0x01, 0x00, 0x10, 0x20]).unwrap();
    assert!(info.is_on);
    assert_eq!(info.color, HSVColor { h: 0, s: 0, v: 0 });
}

#[test]
fn trailing_bytes_are_ignored() {
    let info =
        LightInfo::from_raw_data(&[0x42, 0x00, 0x00, 0x00, 0x10, 0x20, 0x30, 0xAA, 0xBB, 0x00])
            .unwrap();
    assert!(!info.is_on);
    assert_eq!(info.color, HSVColor { h: 0x10, s: 0x20, v: 0x30 });
}

#[test]
fn from_name_and_payload_uses_given_name() {
    let info = LightInfo::from_name_and_payload(
        String::from("desk"),
        &[0x41, 0x00, 0x01, 0x00, 0x01, 0x02, 0x03],
    );
    assert_eq!(info.name, "desk");
    assert!(info.is_on);
    assert_eq!(info.color, HSVColor { h: 1, s: 2, v: 3 });
    let copy = info.duplicate();
    assert_eq!(copy.name, "desk");
    assert_eq!(copy.color, info.color);
}

#[test]
fn percent_conversions() {
    assert_eq!(byte_from_percent(0), 0);
    assert_eq!(byte_from_percent(10), 26);
    assert_eq!(byte_from_percent(50), 128);
    assert_eq!(byte_from_percent(100), 255);
    assert_eq!(byte_from_percent(250), 255);
    assert_eq!(percent_from_byte(0), 0);
    assert_eq!(percent_from_byte(25), 10);
    assert_eq!(percent_from_byte(128), 50);
    assert_eq!(percent_from_byte(255), 100);
    for p in 0u8..=100 {
        assert_eq!(percent_from_byte(byte_from_percent(p)), p);
    }
}

#[test]
fn percent_matches_float_rounding() {
    for p in 0u8..=100 {
        let expected = ((p as f64 / 100.0) * 255.0).round() as u8;
        assert_eq!(byte_from_percent(p), expected);
    }
    for b in 0u8..=255 {
        let expected = ((b as f64 / 255.0) * 100.0).round() as u8;
        assert_eq!(percent_from_byte(b), expected);
    }
}

#[test]
fn color_accessors() {
    let c = HSVColor { h: 128, s: 230, v: 255 };
    assert_eq!(c.hue_degrees(), 181);
    assert_eq!(HSVColor { h: 255, s: 0, v: 0 }.hue_degrees(), 360);
    assert_eq!(c.saturation_percent(), 90);
    assert_eq!(c.brightness_percent(), 100);
    assert_eq!(c.with_brightness_percent(10), HSVColor { h: 128, s: 230, v: 26 });
    assert_eq!(c.with_saturation_percent(200), HSVColor { h: 128, s: 255, v: 255 });
    assert_eq!(HSVColor::off(), HSVColor { h: 0, s: 0, v: 0 });
}
