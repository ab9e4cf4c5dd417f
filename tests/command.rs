use home_light::command::{generate_get_device_info_command, Command};
use home_light::decoder::{HomeLightDecoder, HomeLightMessageType};
use home_light::light::{HSVColor, LightInfo};

#[test]
fn get_device_info_frame() {
    assert_eq!(Command::GetDeviceInfo.get_raw_data(), vec![0xFE, 0x04, 0x00, 0xFF]);
    assert_eq!(generate_get_device_info_command(), vec![0xFE, 0x04, 0x00, 0xFF]);
}

#[test]
fn command_codes_and_data() {
    let color = Command::SetLEDColor(HSVColor { h: 1, s: 2, v: 3 });
    assert_eq!(color.get_command_code(), 0x02);
    assert_eq!(color.get_command_data(), vec![1, 2, 3]);
    assert_eq!(color.get_raw_data(), vec![0xFE, 0x02, 0x03, 1, 2, 3, 0xFF]);
    let brightness = Command::SetBrightness(0x80);
    assert_eq!(brightness.get_command_code(), 0x03);
    assert_eq!(brightness.get_raw_data(), vec![0xFE, 0x03, 0x01, 0x80, 0xFF]);
    assert_eq!(Command::GetDeviceInfo.get_command_code(), 0x04);
    assert!(Command::GetDeviceInfo.get_command_data().is_empty());
}

#[test]
fn power_commands() {
    assert_eq!(Command::power(true), Command::SetBrightness(255));
    assert_eq!(Command::power(false), Command::SetBrightness(0));
    assert_eq!(Command::power(true).get_raw_data(), vec![0xFE, 0x03, 0x01, 0xFF, 0xFF]);
}

fn quantize(x: f64, scale: f64) -> u8 {
    (x * scale).round().clamp(0.0, 255.0) as u8
}

#[test]
fn color_round_trip_within_quantization() {
    let (h, s, v) = (180.0f64, 0.9f64, 1.0f64);
    let color = HSVColor { h: quantize(h, 255.0 / 360.0), s: quantize(s, 255.0), v: quantize(v, 255.0) };
    let frame = Command::SetLEDColor(color).get_raw_data();
    assert_eq!(frame, vec![0xFE, 0x02, 0x03, 128, 230, 255, 0xFF]);

    let mut payload = vec![0x41, 0x00, 0x01, 0x00];
    payload.extend_from_slice(&frame[3..6]);
    let info = LightInfo::from_raw_data(&payload).unwrap();
    let dh = info.color.h as f64 / 255.0 * 360.0;
    let ds = info.color.s as f64 / 255.0;
    let dv = info.color.v as f64 / 255.0;
    assert!((dh - h).abs() <= 360.0 / 255.0);
    assert!((ds - s).abs() <= 1.0 / 255.0);
    assert!((dv - v).abs() <= 1.0 / 255.0);
}

#[test]
fn color_command_is_a_color_frame() {
    let frame = Command::SetLEDColor(HSVColor { h: 9, s: 8, v: 7 }).get_raw_data();
    let mut d = HomeLightDecoder::new();
    let messages = d.consume_data_packet(&frame);
    assert_eq!(messages.len(), 1);
    assert_eq!(messages[0].message_type, HomeLightMessageType::DeviceColor);
    assert_eq!(messages[0].data, vec![9, 8, 7]);
}
