//! The boundary adapter: turns one raw, fixed-layout capture record into
//! a validated domain event or a typed error.
//!
//! The capture shim copies every foreign buffer before this module sees
//! it, hands numeric readings over as plain integers (angles and speeds
//! in fixed point, already sanitised of non-finite values), and owns
//! nothing here afterwards: a `RawActionEvent` is a self-contained value.
use vstd::prelude::*;

use crate::errors::ConversionError;
use crate::event::BaseEvent;
use crate::event::CLICK_POINT_SCALE;
use crate::event::Event;
use crate::event::EventDetail;
use crate::event::EventType;
use crate::event::has_payload;
use crate::event::is_keyboard;
use crate::event::is_mouse_click;
use crate::event::is_mouse_move;
use crate::event::is_scroll;
use crate::event::type_of_code;
use vstd::utf8::decode_utf8;
use vstd::utf8::is_scalar;
use vstd::utf8::valid_utf8;

verus! {

/// One raw event record as the capture source delivers it, copied out of
/// foreign memory into owned plain values.
///
/// Angles in milliradians, speeds in thousandths of a kilometre per
/// hour, click coordinates in millionths of the display size; the
/// capture shim fixes that scale when it converts the foreign readings.
#[derive(Clone, Debug)]
pub struct RawActionEvent {
    pub type_code: u32,
    /// How long the key or button was held, in milliseconds; valid when
    /// it fits an unsigned 32-bit value.
    pub time_down_ms: i64,
    pub key_code: u16,
    /// The key-character buffer: UTF-8, or a single UTF-16 code unit.
    pub key_char: Vec<u8>,
    pub keyboard_layout: Vec<u8>,
    pub process_name: Vec<u8>,
    pub process_path: Vec<u8>,
    /// Click position in millionths of the display width; valid in
    /// `0 ..= 1_000_000`.
    pub click_x: i64,
    /// Click position in millionths of the display height; valid in
    /// `0 ..= 1_000_000`.
    pub click_y: i64,
    pub dragged_distance_px: u32,
    pub dragged_distance_mm: u32,
    pub drag_angle: i32,
    pub drag_speed_kph: u32,
    pub mouse_distance_px: u32,
    pub mouse_distance_mm: u32,
    /// Direction of motion in whole degrees.
    pub mouse_angle: u16,
    pub mouse_speed_kph: u32,
    pub scroll_delta_x: i32,
    pub scroll_delta_y: i32,
    pub scroll_angle: i32,
    pub scroll_speed_kph: u32,
    pub is_builtin_display: bool,
    pub is_main_display: bool,
    /// Capture-time start instant: whole seconds since the epoch.
    pub start_sec: i64,
    /// Capture-time start instant: nanoseconds into the second; valid in
    /// `0 .. 1_000_000_000`.
    pub start_nsec: i64,
}

/// What `String::from_utf8_lossy` returns for the given bytes; a
/// function of the bytes alone.
pub uninterp spec fn lossy_utf8(b: Seq<u8>) -> Seq<char>;

/// Relies on `String::from_utf8_lossy`: the result depends on the bytes
/// alone, and valid UTF-8 comes back decoded, without replacement.
#[verifier::external_body]
fn lossy_to_string(b: &[u8]) -> (r: String)
    ensures
        r@ == lossy_utf8(b@),
        valid_utf8(b@) ==> r@ == decode_utf8(b@),
{
    String::from_utf8_lossy(b).into_owned()
}

/// Relies on `str::from_utf8`: succeeds exactly on valid UTF-8 and
/// returns the characters those bytes encode.
#[verifier::external_body]
pub(crate) fn utf8_from(b: &[u8]) -> (r: Option<&str>)
    ensures
        r is Some <==> valid_utf8(b@),
        r matches Some(s) ==> s@ == decode_utf8(b@),
{
    std::str::from_utf8(b).ok()
}

/// Relies on `char::from_u32`: `Some` exactly on Unicode scalar values,
/// and then the character with that value.
#[verifier::external_body]
fn char_from_u32(v: u32) -> (r: Option<char>)
    ensures
        r is Some <==> is_scalar(v),
        r matches Some(c) ==> c == v as char,
{
    char::from_u32(v)
}

/// Relies on `char`'s `ToString`: a string of exactly that one character.
#[verifier::external_body]
fn char_to_string(c: char) -> (r: String)
    ensures
        r@ == seq![c],
{
    c.to_string()
}

/// Relies on `SystemTime::now` and `duration_since(UNIX_EPOCH)`: the
/// wall clock as whole seconds and nanoseconds into the second, the
/// nanoseconds below one second's worth; `(0, 0)` if the clock reads
/// before the epoch.
#[verifier::external_body]
fn now_unix() -> (r: (u64, u32))
    ensures
        r.1 < 1_000_000_000,
{
    match std::time::SystemTime::now().duration_since(std::time::UNIX_EPOCH) {
        Ok(d) => (d.as_secs(), d.subsec_nanos()),
        Err(_) => (0, 0),
    }
}

/// The UTF-16 code unit held in a two-byte buffer, read little-endian.
pub open spec fn utf16_unit_val(b: Seq<u8>) -> u32
    recommends
        b.len() == 2,
{
    (b[0] + 256 * b[1]) as u32
}

/// The one character a single UTF-16 code unit decodes to: itself as a
/// scalar value, or the replacement character for an unpaired surrogate.
pub open spec fn utf16_unit_char(b: Seq<u8>) -> char {
    if is_scalar(utf16_unit_val(b)) {
        utf16_unit_val(b) as char
    } else {
        '\u{FFFD}'
    }
}

/// What the key-character buffer decodes to: UTF-8 when valid, else the
/// one-code-unit UTF-16 reading of a two-byte buffer, else the
/// replacement character.
pub open spec fn key_char_seq(b: Seq<u8>) -> Seq<char> {
    if valid_utf8(b) {
        decode_utf8(b)
    } else if b.len() == 2 {
        seq![utf16_unit_char(b)]
    } else {
        seq!['\u{FFFD}']
    }
}

/// Decodes the key-character buffer: UTF-8 first, then, for a buffer of
/// exactly one UTF-16 code unit, the UTF-16 fallback. Any other invalid
/// buffer is the non-fatal `EncodingFallback` error.
pub fn decode_key_char(bytes: &[u8]) -> (r: Result<String, ConversionError>)
    ensures
        valid_utf8(bytes@) || bytes@.len() == 2 ==> (r matches Ok(s) && s@ == key_char_seq(
            bytes@,
        )),
        !valid_utf8(bytes@) && bytes@.len() == 2 ==> (r matches Ok(s) && s@.len() == 1),
        !(valid_utf8(bytes@) || bytes@.len() == 2) ==> r == Err::<String, ConversionError>(
            ConversionError::EncodingFallback,
        ),
{
    match utf8_from(bytes) {
        Some(s) => Ok(s.to_owned()),
        None => {
            if bytes.len() == 2 {
                let unit: u32 = bytes[0] as u32 + 256 * (bytes[1] as u32);
                match char_from_u32(unit) {
                    Some(c) => Ok(char_to_string(c)),
                    None => Ok(char_to_string('\u{FFFD}')),
                }
            } else {
                Err(ConversionError::EncodingFallback)
            }
        },
    }
}

/// The key-character buffer decoded as the domain event carries it: the
/// fallback error itself is non-fatal and yields the replacement
/// character.
fn key_char_or_replacement(bytes: &[u8]) -> (r: String)
    ensures
        r@ == key_char_seq(bytes@),
{
    match decode_key_char(bytes) {
        Ok(s) => s,
        Err(_) => char_to_string('\u{FFFD}'),
    }
}

/// True when the record's type code names a kind that carries an event
/// payload; any other record is rejected as unhandled.
pub open spec fn payload_ok(raw: RawActionEvent) -> bool {
    type_of_code(raw.type_code) matches Some(t) && has_payload(t)
}

/// True when the capture-time start instant is a well-formed timespec.
pub open spec fn timespec_ok(raw: RawActionEvent) -> bool {
    0 <= raw.start_nsec < 1_000_000_000
}

/// Microseconds from the capture-time start instant to the given wall
/// clock; negative when the clock reads earlier than the start.
pub open spec fn delta_us(raw: RawActionEvent, now_s: u64, now_ns: u32) -> int {
    (now_s * 1_000_000 + now_ns / 1000) - (raw.start_sec * 1_000_000 + raw.start_nsec / 1000)
}

/// True when every integer field the record's kind reads lies in its
/// defined valid range.
pub open spec fn fields_ok(raw: RawActionEvent) -> bool {
    match type_of_code(raw.type_code) {
        Some(t) => {
            &&& (is_keyboard(t) || is_mouse_click(t)) ==> 0 <= raw.time_down_ms <= u32::MAX
            &&& is_mouse_click(t) ==> 0 <= raw.click_x <= CLICK_POINT_SCALE && 0 <= raw.click_y
                <= CLICK_POINT_SCALE
        },
        None => true,
    }
}

/// How the base of a converted event reflects the raw record, apart
/// from the derived execution time.
pub open spec fn base_matches(e: Event, raw: RawActionEvent) -> bool {
    &&& type_of_code(raw.type_code) == Some(e.base.event_type)
    &&& e.base.is_builtin_display == raw.is_builtin_display
    &&& e.base.is_main_display == raw.is_main_display
    &&& e.base.process_name@ == lossy_utf8(raw.process_name@)
    &&& e.base.process_path@ == lossy_utf8(raw.process_path@)
    &&& valid_utf8(raw.process_name@) ==> e.base.process_name@ == decode_utf8(raw.process_name@)
    &&& valid_utf8(raw.process_path@) ==> e.base.process_path@ == decode_utf8(raw.process_path@)
    &&& e.base.aggregate_count is None
}

/// How the payload of a converted event reflects the raw record: the
/// variant of the base kind's category, fields copied or decoded, and an
/// angle absent exactly when the motion it would describe is absent.
pub open spec fn detail_matches(e: Event, raw: RawActionEvent) -> bool {
    match e.detail {
        EventDetail::Keyboard { time_down_ms, key_code, key_char, keyboard_layout } => {
            &&& is_keyboard(e.base.event_type)
            &&& time_down_ms == raw.time_down_ms
            &&& key_code == raw.key_code
            &&& key_char@ == key_char_seq(raw.key_char@)
            &&& keyboard_layout@ == lossy_utf8(raw.keyboard_layout@)
            &&& valid_utf8(raw.keyboard_layout@) ==> keyboard_layout@ == decode_utf8(
                raw.keyboard_layout@,
            )
        },
        EventDetail::MouseClick {
            time_down_ms,
            normalised_click_point_x,
            normalised_click_point_y,
            dragged_distance_px,
            dragged_distance_mm,
            drag_angle,
            drag_speed_kph,
        } => {
            &&& is_mouse_click(e.base.event_type)
            &&& time_down_ms == raw.time_down_ms
            &&& normalised_click_point_x == raw.click_x
            &&& normalised_click_point_y == raw.click_y
            &&& dragged_distance_px == raw.dragged_distance_px
            &&& dragged_distance_mm == raw.dragged_distance_mm
            &&& drag_angle == (if raw.dragged_distance_px == 0 {
                Option::<i32>::None
            } else {
                Some(raw.drag_angle)
            })
            &&& drag_speed_kph == raw.drag_speed_kph
        },
        EventDetail::MouseMove { distance_px, distance_mm, angle, velocity_kph } => {
            &&& is_mouse_move(e.base.event_type)
            &&& distance_px == raw.mouse_distance_px
            &&& distance_mm == raw.mouse_distance_mm
            &&& angle == raw.mouse_angle
            &&& velocity_kph == raw.mouse_speed_kph
        },
        EventDetail::Scroll { scroll_delta_x, scroll_delta_y, scroll_angle, scroll_speed_kph } => {
            &&& is_scroll(e.base.event_type)
            &&& scroll_delta_x == raw.scroll_delta_x
            &&& scroll_delta_y == raw.scroll_delta_y
            &&& scroll_angle == (if raw.scroll_delta_x == 0 && raw.scroll_delta_y == 0 {
                Option::<i32>::None
            } else {
                Some(raw.scroll_angle)
            })
            &&& scroll_speed_kph == raw.scroll_speed_kph
        },
    }
}

/// The derived execution time: wall clock minus capture-time start, in
/// microseconds. A malformed timespec or a result too large for an
/// unsigned 32-bit value is out of range; a clock reading earlier than
/// the start is clock skew, never a negative value.
pub fn execution_time_us(start_sec: i64, start_nsec: i64, now_s: u64, now_ns: u32) -> (r: Result<
    u32,
    ConversionError,
>)
    ensures
        !(0 <= start_nsec < 1_000_000_000) ==> r == Err::<u32, ConversionError>(
            ConversionError::OutOfRange,
        ),
        0 <= start_nsec < 1_000_000_000 ==> {
            let d = (now_s * 1_000_000 + now_ns / 1000) - (start_sec * 1_000_000 + start_nsec
                / 1000);
            if d < 0 {
                r == Err::<u32, ConversionError>(ConversionError::ClockSkew)
            } else if d > u32::MAX {
                r == Err::<u32, ConversionError>(ConversionError::OutOfRange)
            } else {
                r == Ok::<u32, ConversionError>(d as u32)
            }
        },
{
    if !(0 <= start_nsec && start_nsec < 1_000_000_000) {
        return Err(ConversionError::OutOfRange);
    }
    let now_us: i128 = (now_s as i128) * 1_000_000 + (now_ns / 1000) as i128;
    let start_us: i128 = (start_sec as i128) * 1_000_000 + (start_nsec / 1000) as i128;
    let d: i128 = now_us - start_us;
    if d < 0 {
        Err(ConversionError::ClockSkew)
    } else if d > u32::MAX as i128 {
        Err(ConversionError::OutOfRange)
    } else {
        Ok(d as u32)
    }
}

/// Converts one raw record against the given wall-clock reading.
///
/// Exactly one of: an unhandled kind is `UnhandledType`; a malformed
/// timespec, an oversized execution time or an integer field outside its
/// range is `OutOfRange`; a wall clock behind the capture-time start is
/// `ClockSkew`; otherwise the one well-formed event the record describes.
pub fn convert_raw_at(raw: &RawActionEvent, now_s: u64, now_ns: u32) -> (r: Result<
    Event,
    ConversionError,
>)
    ensures
        !payload_ok(*raw) ==> r == Err::<Event, ConversionError>(ConversionError::UnhandledType),
        payload_ok(*raw) && !timespec_ok(*raw) ==> r == Err::<Event, ConversionError>(
            ConversionError::OutOfRange,
        ),
        payload_ok(*raw) && timespec_ok(*raw) && delta_us(*raw, now_s, now_ns) < 0 ==> r
            == Err::<Event, ConversionError>(ConversionError::ClockSkew),
        payload_ok(*raw) && timespec_ok(*raw) && delta_us(*raw, now_s, now_ns) > u32::MAX ==> r
            == Err::<Event, ConversionError>(ConversionError::OutOfRange),
        payload_ok(*raw) && timespec_ok(*raw) && 0 <= delta_us(*raw, now_s, now_ns) <= u32::MAX
            && !fields_ok(*raw) ==> r == Err::<Event, ConversionError>(ConversionError::OutOfRange),
        payload_ok(*raw) && timespec_ok(*raw) && 0 <= delta_us(*raw, now_s, now_ns) <= u32::MAX
            && fields_ok(*raw) ==> r is Ok,
        r matches Ok(e) ==> {
            &&& e.wf()
            &&& base_matches(e, *raw)
            &&& e.base.execution_time_us == delta_us(*raw, now_s, now_ns)
            &&& detail_matches(e, *raw)
        },
{
    let t = match EventType::from_u32(raw.type_code) {
        Ok(t) => t,
        Err(e) => {
            return Err(e);
        },
    };
    if !(t.is_keyboard_event() || t.is_mouse_click_event() || t.is_mouse_move_event()
        || t.is_scroll_event()) {
        return Err(ConversionError::UnhandledType);
    }
    let execution_time = match execution_time_us(raw.start_sec, raw.start_nsec, now_s, now_ns) {
        Ok(v) => v,
        Err(e) => {
            return Err(e);
        },
    };
    let base = BaseEvent {
        event_type: t,
        is_builtin_display: raw.is_builtin_display,
        is_main_display: raw.is_main_display,
        process_name: lossy_to_string(raw.process_name.as_slice()),
        process_path: lossy_to_string(raw.process_path.as_slice()),
        execution_time_us: execution_time,
        aggregate_count: None,
    };
    let detail = if t.is_keyboard_event() {
        if raw.time_down_ms < 0 || raw.time_down_ms > u32::MAX as i64 {
            return Err(ConversionError::OutOfRange);
        }
        EventDetail::Keyboard {
            time_down_ms: raw.time_down_ms as u32,
            key_code: raw.key_code,
            key_char: key_char_or_replacement(raw.key_char.as_slice()),
            keyboard_layout: lossy_to_string(raw.keyboard_layout.as_slice()),
        }
    } else if t.is_mouse_click_event() {
        if raw.time_down_ms < 0 || raw.time_down_ms > u32::MAX as i64 {
            return Err(ConversionError::OutOfRange);
        }
        if raw.click_x < 0 || raw.click_x > CLICK_POINT_SCALE as i64 || raw.click_y < 0
            || raw.click_y > CLICK_POINT_SCALE as i64 {
            return Err(ConversionError::OutOfRange);
        }
        EventDetail::MouseClick {
            time_down_ms: raw.time_down_ms as u32,
            normalised_click_point_x: raw.click_x as u32,
            normalised_click_point_y: raw.click_y as u32,
            dragged_distance_px: raw.dragged_distance_px,
            dragged_distance_mm: raw.dragged_distance_mm,
            drag_angle: if raw.dragged_distance_px == 0 {
                None
            } else {
                Some(raw.drag_angle)
            },
            drag_speed_kph: raw.drag_speed_kph,
        }
    } else if t.is_mouse_move_event() {
        EventDetail::MouseMove {
            distance_px: raw.mouse_distance_px as u64,
            distance_mm: raw.mouse_distance_mm as u64,
            angle: raw.mouse_angle,
            velocity_kph: raw.mouse_speed_kph,
        }
    } else {
        EventDetail::Scroll {
            scroll_delta_x: raw.scroll_delta_x,
            scroll_delta_y: raw.scroll_delta_y,
            scroll_angle: if raw.scroll_delta_x == 0 && raw.scroll_delta_y == 0 {
                None
            } else {
                Some(raw.scroll_angle)
            },
            scroll_speed_kph: raw.scroll_speed_kph,
        }
    };
    Ok(Event { base, detail })
}

/// Converts one raw record against the wall clock now. The clock only
/// moves the derived execution time and the skew check; everything else
/// holds whatever it read.
pub fn convert_raw(raw: &RawActionEvent) -> (r: Result<Event, ConversionError>)
    ensures
        !payload_ok(*raw) ==> r == Err::<Event, ConversionError>(ConversionError::UnhandledType),
        payload_ok(*raw) && !timespec_ok(*raw) ==> r == Err::<Event, ConversionError>(
            ConversionError::OutOfRange,
        ),
        payload_ok(*raw) && timespec_ok(*raw) ==> r is Ok || r == Err::<Event, ConversionError>(
            ConversionError::ClockSkew,
        ) || r == Err::<Event, ConversionError>(ConversionError::OutOfRange),
        payload_ok(*raw) && timespec_ok(*raw) && !fields_ok(*raw) ==> !(r is Ok),
        r matches Ok(e) ==> {
            &&& e.wf()
            &&& base_matches(e, *raw)
            &&& detail_matches(e, *raw)
        },
{
    let (now_s, now_ns) = now_unix();
    convert_raw_at(raw, now_s, now_ns)
}

} // verus!
