use klcool::adapter::{convert_raw_at, decode_key_char, execution_time_us, RawActionEvent};
use klcool::errors::ConversionError;
use klcool::event::{EventDetail, EventType};

fn raw(type_code: u32) -> RawActionEvent {
    RawActionEvent {
        type_code,
        time_down_ms: 5,
        key_code: 53,
        key_char: b"q".to_vec(),
        keyboard_layout: b"en-GB".to_vec(),
        process_name: b"Terminal".to_vec(),
        process_path: b"/Applications/Utilities/Terminal.app".to_vec(),
        click_x: 500_000,
        click_y: 250_000,
        dragged_distance_px: 0,
        dragged_distance_mm: 0,
        drag_angle: 1570,
        drag_speed_kph: 12_000,
        mouse_distance_px: 40,
        mouse_distance_mm: 11,
        mouse_angle: 90,
        mouse_speed_kph: 7_000,
        scroll_delta_x: 0,
        scroll_delta_y: 0,
        scroll_angle: 780,
        scroll_speed_kph: 3_000,
        is_builtin_display: true,
        is_main_display: true,
        start_sec: 100,
        start_nsec: 0,
    }
}

#[test]
fn unknown_code_is_unhandled() {
    let r = convert_raw_at(&raw(999), 101, 0);
    assert_eq!(r.unwrap_err(), ConversionError::UnhandledType);
}

#[test]
fn sentinel_codes_are_unhandled() {
    for code in [0, 12, 23, 24, 0xFFFF_FFFE, 0xFFFF_FFFF] {
        let r = convert_raw_at(&raw(code), 101, 0);
        assert_eq!(r.unwrap_err(), ConversionError::UnhandledType, "code {code}");
    }
}

#[test]
fn other_button_codes_are_clicks() {
    for code in [25, 26, 27] {
        let e = convert_raw_at(&raw(code), 101, 0).unwrap();
        assert!(
            matches!(e.detail, EventDetail::MouseClick { .. }),
            "code {code} should carry a mouse-click payload"
        );
    }
}

#[test]
fn clock_behind_start_is_skew() {
    let r = convert_raw_at(&raw(10), 99, 999_999_999);
    assert_eq!(r.unwrap_err(), ConversionError::ClockSkew);
}

#[test]
fn malformed_timespec_is_out_of_range() {
    let mut e = raw(10);
    e.start_nsec = 2_000_000_000;
    let r = convert_raw_at(&e, 101, 0);
    assert_eq!(r.unwrap_err(), ConversionError::OutOfRange);
}

#[test]
fn negative_time_down_is_out_of_range() {
    let mut e = raw(10);
    e.time_down_ms = -1;
    let r = convert_raw_at(&e, 101, 0);
    assert_eq!(r.unwrap_err(), ConversionError::OutOfRange);
}

#[test]
fn click_point_outside_unit_square_is_out_of_range() {
    let mut e = raw(1);
    e.click_x = 1_000_001;
    let r = convert_raw_at(&e, 101, 0);
    assert_eq!(r.unwrap_err(), ConversionError::OutOfRange);
}

#[test]
fn execution_time_is_exact_microseconds() {
    assert_eq!(execution_time_us(100, 250_000, 103, 750_000).unwrap(), 3_000_500);
    assert_eq!(
        execution_time_us(100, 0, 99, 999_999_999).unwrap_err(),
        ConversionError::ClockSkew
    );
    // A delta beyond the unsigned 32-bit range is out of range, not truncated.
    assert_eq!(
        execution_time_us(0, 0, 5_000, 0).unwrap_err(),
        ConversionError::OutOfRange
    );
}

#[test]
fn keyboard_record_converts_exactly() {
    let e = convert_raw_at(&raw(10), 103, 500_000).unwrap();
    assert_eq!(e.base.event_type, EventType::KeyDown);
    assert!(e.base.is_builtin_display);
    assert!(e.base.is_main_display);
    assert_eq!(e.base.process_name, "Terminal");
    assert_eq!(e.base.process_path, "/Applications/Utilities/Terminal.app");
    assert_eq!(e.base.execution_time_us, 3_000_500);
    assert_eq!(e.base.aggregate_count, None);
    match e.detail {
        EventDetail::Keyboard { time_down_ms, key_code, key_char, keyboard_layout } => {
            assert_eq!(time_down_ms, 5);
            assert_eq!(key_code, 53);
            assert_eq!(key_char, "q");
            assert_eq!(keyboard_layout, "en-GB");
        }
        other => panic!("expected a keyboard payload, got {other:?}"),
    }
}

#[test]
fn drag_angle_absent_exactly_when_undragged() {
    let still = convert_raw_at(&raw(1), 101, 0).unwrap();
    match still.detail {
        EventDetail::MouseClick { drag_angle, normalised_click_point_x, normalised_click_point_y, .. } => {
            assert_eq!(drag_angle, None);
            assert_eq!(normalised_click_point_x, 500_000);
            assert_eq!(normalised_click_point_y, 250_000);
        }
        other => panic!("expected a mouse-click payload, got {other:?}"),
    }
    let mut dragged = raw(6);
    dragged.dragged_distance_px = 17;
    let moved = convert_raw_at(&dragged, 101, 0).unwrap();
    match moved.detail {
        EventDetail::MouseClick { drag_angle, dragged_distance_px, .. } => {
            assert_eq!(drag_angle, Some(1570));
            assert_eq!(dragged_distance_px, 17);
        }
        other => panic!("expected a mouse-click payload, got {other:?}"),
    }
}

#[test]
fn scroll_angle_absent_exactly_when_delta_zero() {
    let none = convert_raw_at(&raw(22), 101, 0).unwrap();
    match none.detail {
        EventDetail::Scroll { scroll_angle, .. } => assert_eq!(scroll_angle, None),
        other => panic!("expected a scroll payload, got {other:?}"),
    }
    let mut e = raw(22);
    e.scroll_delta_y = -3;
    let some = convert_raw_at(&e, 101, 0).unwrap();
    match some.detail {
        EventDetail::Scroll { scroll_angle, scroll_delta_x, scroll_delta_y, .. } => {
            assert_eq!(scroll_angle, Some(780));
            assert_eq!(scroll_delta_x, 0);
            assert_eq!(scroll_delta_y, -3);
        }
        other => panic!("expected a scroll payload, got {other:?}"),
    }
}

#[test]
fn mouse_move_record_converts_exactly() {
    let e = convert_raw_at(&raw(5), 101, 0).unwrap();
    match e.detail {
        EventDetail::MouseMove { distance_px, distance_mm, angle, velocity_kph } => {
            assert_eq!(distance_px, 40);
            assert_eq!(distance_mm, 11);
            assert_eq!(angle, 90);
            assert_eq!(velocity_kph, 7_000);
        }
        other => panic!("expected a mouse-move payload, got {other:?}"),
    }
}

#[test]
fn key_char_valid_utf8_decodes_directly() {
    assert_eq!(decode_key_char(b"q").unwrap(), "q");
    assert_eq!(decode_key_char("é".as_bytes()).unwrap(), "é");
    assert_eq!(decode_key_char(b"").unwrap(), "");
}

#[test]
fn key_char_invalid_two_bytes_falls_back_to_utf16() {
    // 0xE9 opens a three-byte UTF-8 sequence, so [0xE9, 0x00] is invalid
    // UTF-8; read as one little-endian UTF-16 code unit it is U+00E9.
    let s = decode_key_char(&[0xE9, 0x00]).unwrap();
    assert_eq!(s.chars().count(), 1);
    assert_eq!(s, "é");
}

#[test]
fn key_char_surrogate_unit_becomes_replacement() {
    // 0xD841 is an unpaired surrogate: the fallback still yields one
    // character, the replacement character.
    let s = decode_key_char(&[0x41, 0xD8]).unwrap();
    assert_eq!(s, "\u{FFFD}");
}

#[test]
fn key_char_other_invalid_buffers_are_encoding_fallback() {
    assert_eq!(
        decode_key_char(&[0xFF]).unwrap_err(),
        ConversionError::EncodingFallback
    );
    assert_eq!(
        decode_key_char(&[0xFF, 0xFF, 0xFF]).unwrap_err(),
        ConversionError::EncodingFallback
    );
}

#[test]
fn display_strings_decode_leniently() {
    let mut e = raw(10);
    e.process_name = vec![b'a', 0xFF, b'b'];
    let converted = convert_raw_at(&e, 101, 0).unwrap();
    assert_eq!(converted.base.process_name, "a\u{FFFD}b");
}

#[test]
fn conversion_against_the_real_clock() {
    // A capture-time start a moment ago gives a small positive
    // execution time against the real clock.
    let now = std::time::SystemTime::now()
        .duration_since(std::time::UNIX_EPOCH)
        .unwrap()
        .as_secs() as i64;
    let mut recent = raw(10);
    recent.start_sec = now - 1;
    let e = klcool::adapter::convert_raw(&recent).unwrap();
    assert!(e.base.execution_time_us >= 1_000_000);
    assert!(e.base.execution_time_us < 120_000_000);

    // A capture-time start far in the future reads as clock skew.
    let mut future = raw(10);
    future.start_sec = i64::MAX / 2;
    assert_eq!(
        klcool::adapter::convert_raw(&future).unwrap_err(),
        ConversionError::ClockSkew
    );
}
