use home_light::cache::{RunState, LIGHT_INFO_TTL};
use home_light::decoder::{HomeLightMessage, HomeLightMessageType};
use home_light::light::{HSVColor, LightInfo, PayloadError};

fn lamp() -> LightInfo {
    LightInfo { name: String::from("lamp"), is_on: true, color: HSVColor { h: 10, s: 20, v: 30 } }
}

#[test]
fn new_entry_is_empty() {
    let st = RunState::new();
    assert!(st.light_info.is_none());
    assert!(!st.request_in_flight);
    assert!(st.fresh_info(0).is_none());
    assert!(st.begin_read(false, 0).is_none());
}

#[test]
fn concurrent_stale_readers_send_one_query() {
    let mut st = RunState::new();
    let readers = 8;
    let mut sent = 0;
    for _ in 0..readers {
        assert!(st.begin_read(false, 1_000).is_none());
        if st.try_claim() {
            sent += 1;
        }
    }
    assert_eq!(sent, 1);
    st.record_device_info(lamp(), 1_050);
    assert!(!st.request_in_flight);
    let answers: Vec<LightInfo> = (0..readers).map(|_| st.fresh_info(1_100).unwrap()).collect();
    for a in &answers {
        assert_eq!(a.name, "lamp");
        assert_eq!(a.color, HSVColor { h: 10, s: 20, v: 30 });
    }
}

#[test]
fn freshness_expires_after_ttl() {
    let mut st = RunState::new();
    st.record_device_info(lamp(), 5_000);
    assert!(st.fresh_info(5_000).is_some());
    assert!(st.fresh_info(5_000 + LIGHT_INFO_TTL - 1).is_some());
    assert!(st.fresh_info(5_000 + LIGHT_INFO_TTL).is_none());
    assert!(st.begin_read(false, 6_000).is_some());
    assert!(st.begin_read(true, 6_000).is_none());
}

#[test]
fn forced_read_during_flight_sends_nothing_more() {
    let mut st = RunState::new();
    st.record_device_info(lamp(), 0);
    assert!(st.begin_read(true, 10).is_none());
    assert!(st.try_claim());
    assert!(st.begin_read(true, 20).is_none());
    assert!(!st.try_claim());
    st.release_claim();
    assert!(st.try_claim());
}

#[test]
fn device_info_message_is_recorded() {
    let mut st = RunState::new();
    assert!(st.try_claim());
    let msg = HomeLightMessage {
        message_type: HomeLightMessageType::DeviceInfo,
        data: vec![0x41, 0x00, 0x01, 0x00, 0xFF, 0x66, 0x19],
    };
    assert_eq!(st.consume_message(&msg, 42), Ok(true));
    assert!(!st.request_in_flight);
    let (info, at) = st.light_info.as_ref().unwrap();
    assert_eq!(*at, 42);
    assert_eq!(info.name, "A");
    assert_eq!(info.color, HSVColor { h: 255, s: 102, v: 25 });
}

#[test]
fn other_messages_leave_entry_alone() {
    let mut st = RunState::new();
    assert!(st.try_claim());
    let color = HomeLightMessage { message_type: HomeLightMessageType::DeviceColor, data: vec![1, 2, 3] };
    assert_eq!(st.consume_message(&color, 1), Ok(false));
    let bad = HomeLightMessage { message_type: HomeLightMessageType::DeviceInfo, data: vec![0xFF, 0x00] };
    assert_eq!(st.consume_message(&bad, 1), Err(PayloadError::NameNotUtf8));
    assert!(st.light_info.is_none());
    assert!(st.request_in_flight);
}

#[test]
fn patches_change_one_field_and_keep_time() {
    let mut st = RunState::new();
    st.patch_power(false);
    assert!(st.light_info.is_none());
    st.record_device_info(lamp(), 7);
    st.patch_power(false);
    st.patch_hue(100);
    st.patch_saturation(101);
    st.patch_value(102);
    let (info, at) = st.light_info.as_ref().unwrap();
    assert_eq!(*at, 7);
    assert!(!info.is_on);
    assert_eq!(info.name, "lamp");
    assert_eq!(info.color, HSVColor { h: 100, s: 101, v: 102 });
}
