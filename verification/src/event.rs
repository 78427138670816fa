//! The event domain model: the closed taxonomy of event kinds, the
//! classification predicates that partition them, and the validated
//! event value that the boundary adapter produces.
use vstd::prelude::*;

use crate::errors::ConversionError;

verus! {

/// The kind of a captured input event, as reported by the capture source.
///
/// The two `TapDisabled` members are out-of-band sentinels: the capture
/// source delivers them to say that it was itself disabled; they never
/// carry an input event.
#[derive(Clone, Copy, Debug, PartialEq, Eq, Structural)]
pub enum EventType {
    Null,
    LeftMouseDown,
    LeftMouseUp,
    RightMouseDown,
    RightMouseUp,
    MouseMoved,
    LeftMouseDragged,
    RightMouseDragged,
    KeyDown,
    KeyUp,
    FlagsChanged,
    ScrollWheel,
    TabletPointer,
    TabletProximity,
    OtherMouseDown,
    OtherMouseUp,
    OtherMouseDragged,
    TapDisabledByTimeout,
    TapDisabledByUserInput,
}

/// The numeric code under which the capture source reports each kind.
pub open spec fn event_code(t: EventType) -> u32 {
    match t {
        EventType::Null => 0,
        EventType::LeftMouseDown => 1,
        EventType::LeftMouseUp => 2,
        EventType::RightMouseDown => 3,
        EventType::RightMouseUp => 4,
        EventType::MouseMoved => 5,
        EventType::LeftMouseDragged => 6,
        EventType::RightMouseDragged => 7,
        EventType::KeyDown => 10,
        EventType::KeyUp => 11,
        EventType::FlagsChanged => 12,
        EventType::ScrollWheel => 22,
        EventType::TabletPointer => 23,
        EventType::TabletProximity => 24,
        EventType::OtherMouseDown => 25,
        EventType::OtherMouseUp => 26,
        EventType::OtherMouseDragged => 27,
        EventType::TapDisabledByTimeout => 0xFFFF_FFFE,
        EventType::TapDisabledByUserInput => 0xFFFF_FFFF,
    }
}

/// The kind a numeric code stands for, or `None` for a code outside the
/// enumeration.
pub open spec fn type_of_code(value: u32) -> Option<EventType> {
    if value == 0 {
        Some(EventType::Null)
    } else if value == 1 {
        Some(EventType::LeftMouseDown)
    } else if value == 2 {
        Some(EventType::LeftMouseUp)
    } else if value == 3 {
        Some(EventType::RightMouseDown)
    } else if value == 4 {
        Some(EventType::RightMouseUp)
    } else if value == 5 {
        Some(EventType::MouseMoved)
    } else if value == 6 {
        Some(EventType::LeftMouseDragged)
    } else if value == 7 {
        Some(EventType::RightMouseDragged)
    } else if value == 10 {
        Some(EventType::KeyDown)
    } else if value == 11 {
        Some(EventType::KeyUp)
    } else if value == 12 {
        Some(EventType::FlagsChanged)
    } else if value == 22 {
        Some(EventType::ScrollWheel)
    } else if value == 23 {
        Some(EventType::TabletPointer)
    } else if value == 24 {
        Some(EventType::TabletProximity)
    } else if value == 25 {
        Some(EventType::OtherMouseDown)
    } else if value == 26 {
        Some(EventType::OtherMouseUp)
    } else if value == 27 {
        Some(EventType::OtherMouseDragged)
    } else if value == 0xFFFF_FFFE {
        Some(EventType::TapDisabledByTimeout)
    } else if value == 0xFFFF_FFFF {
        Some(EventType::TapDisabledByUserInput)
    } else {
        None
    }
}

/// True of the two keyboard kinds.
pub open spec fn is_keyboard(t: EventType) -> bool {
    t == EventType::KeyDown || t == EventType::KeyUp
}

/// True of the nine button-click kinds: the left, right and other
/// buttons, each down, up or dragged.
pub open spec fn is_mouse_click(t: EventType) -> bool {
    ||| t == EventType::LeftMouseDown
    ||| t == EventType::LeftMouseUp
    ||| t == EventType::RightMouseDown
    ||| t == EventType::RightMouseUp
    ||| t == EventType::LeftMouseDragged
    ||| t == EventType::RightMouseDragged
    ||| t == EventType::OtherMouseDown
    ||| t == EventType::OtherMouseUp
    ||| t == EventType::OtherMouseDragged
}

/// True of the pointer-motion kind.
pub open spec fn is_mouse_move(t: EventType) -> bool {
    t == EventType::MouseMoved
}

/// True of the scroll kind.
pub open spec fn is_scroll(t: EventType) -> bool {
    t == EventType::ScrollWheel
}

/// True of the two sentinel kinds that report the capture source itself
/// being disabled.
pub open spec fn is_out_of_band(t: EventType) -> bool {
    t == EventType::TapDisabledByTimeout || t == EventType::TapDisabledByUserInput
}

/// True of the kinds that carry an event payload the adapter can build;
/// a record of any other kind is rejected as unhandled.
pub open spec fn has_payload(t: EventType) -> bool {
    is_keyboard(t) || is_mouse_click(t) || is_mouse_move(t) || is_scroll(t)
}

impl EventType {
    /// Maps a raw numeric code to its kind; a code outside the enumeration
    /// is a typed error, never a reinterpretation.
    pub fn from_u32(value: u32) -> (r: Result<EventType, ConversionError>)
        ensures
            r == match type_of_code(value) {
                Some(t) => Result::<EventType, ConversionError>::Ok(t),
                None => Result::<EventType, ConversionError>::Err(
                    ConversionError::UnhandledType,
                ),
            },
    {
        match value {
            0 => Ok(EventType::Null),
            1 => Ok(EventType::LeftMouseDown),
            2 => Ok(EventType::LeftMouseUp),
            3 => Ok(EventType::RightMouseDown),
            4 => Ok(EventType::RightMouseUp),
            5 => Ok(EventType::MouseMoved),
            6 => Ok(EventType::LeftMouseDragged),
            7 => Ok(EventType::RightMouseDragged),
            10 => Ok(EventType::KeyDown),
            11 => Ok(EventType::KeyUp),
            12 => Ok(EventType::FlagsChanged),
            22 => Ok(EventType::ScrollWheel),
            23 => Ok(EventType::TabletPointer),
            24 => Ok(EventType::TabletProximity),
            25 => Ok(EventType::OtherMouseDown),
            26 => Ok(EventType::OtherMouseUp),
            27 => Ok(EventType::OtherMouseDragged),
            0xFFFF_FFFE => Ok(EventType::TapDisabledByTimeout),
            0xFFFF_FFFF => Ok(EventType::TapDisabledByUserInput),
            _ => Err(ConversionError::UnhandledType),
        }
    }

    /// The numeric code of this kind.
    pub fn code(&self) -> (r: u32)
        ensures
            r == event_code(*self),
    {
        match *self {
            EventType::Null => 0,
            EventType::LeftMouseDown => 1,
            EventType::LeftMouseUp => 2,
            EventType::RightMouseDown => 3,
            EventType::RightMouseUp => 4,
            EventType::MouseMoved => 5,
            EventType::LeftMouseDragged => 6,
            EventType::RightMouseDragged => 7,
            EventType::KeyDown => 10,
            EventType::KeyUp => 11,
            EventType::FlagsChanged => 12,
            EventType::ScrollWheel => 22,
            EventType::TabletPointer => 23,
            EventType::TabletProximity => 24,
            EventType::OtherMouseDown => 25,
            EventType::OtherMouseUp => 26,
            EventType::OtherMouseDragged => 27,
            EventType::TapDisabledByTimeout => 0xFFFF_FFFE,
            EventType::TapDisabledByUserInput => 0xFFFF_FFFF,
        }
    }

    /// True exactly of `KeyDown` and `KeyUp`.
    pub fn is_keyboard_event(&self) -> (r: bool)
        ensures
            r == is_keyboard(*self),
    {
        matches!(*self, EventType::KeyDown | EventType::KeyUp)
    }

    /// True exactly of the left-, right- and other-button down, up and
    /// dragged kinds.
    pub fn is_mouse_click_event(&self) -> (r: bool)
        ensures
            r == is_mouse_click(*self),
    {
        matches!(
            *self,
            EventType::LeftMouseDown
                | EventType::LeftMouseUp
                | EventType::RightMouseDown
                | EventType::RightMouseUp
                | EventType::LeftMouseDragged
                | EventType::RightMouseDragged
                | EventType::OtherMouseDown
                | EventType::OtherMouseUp
                | EventType::OtherMouseDragged
        )
    }

    /// True exactly of `MouseMoved`.
    pub fn is_mouse_move_event(&self) -> (r: bool)
        ensures
            r == is_mouse_move(*self),
    {
        matches!(*self, EventType::MouseMoved)
    }

    /// True exactly of `ScrollWheel`.
    pub fn is_scroll_event(&self) -> (r: bool)
        ensures
            r == is_scroll(*self),
    {
        matches!(*self, EventType::ScrollWheel)
    }
}

/// The classification predicates are mutually exclusive: no kind is in
/// two of the categories keyboard, mouse-click, mouse-move, scroll and
/// out-of-band.
pub proof fn lemma_categories_disjoint(t: EventType)
    ensures
        is_keyboard(t) ==> !(is_mouse_click(t) || is_mouse_move(t) || is_scroll(t)
            || is_out_of_band(t)),
        is_mouse_click(t) ==> !(is_keyboard(t) || is_mouse_move(t) || is_scroll(t)
            || is_out_of_band(t)),
        is_mouse_move(t) ==> !(is_keyboard(t) || is_mouse_click(t) || is_scroll(t)
            || is_out_of_band(t)),
        is_scroll(t) ==> !(is_keyboard(t) || is_mouse_click(t) || is_mouse_move(t)
            || is_out_of_band(t)),
        is_out_of_band(t) ==> !(is_keyboard(t) || is_mouse_click(t) || is_mouse_move(t)
            || is_scroll(t)),
{
}

/// What every captured event carries, whatever its kind.
#[derive(Clone, Debug, PartialEq)]
pub struct BaseEvent {
    pub event_type: EventType,
    pub is_builtin_display: bool,
    pub is_main_display: bool,
    pub process_name: String,
    pub process_path: String,
    /// Microseconds between the capture-time start instant and the moment
    /// the adapter saw the record; never negative by construction.
    pub execution_time_us: u32,
    /// `Some(n)` when this event stands for an aggregate of `n` raw
    /// samples, `None` for a single raw event.
    pub aggregate_count: Option<u8>,
}

/// The kind-specific payload of an event.
///
/// Angles and speeds cross the capture boundary as fixed-point integers
/// (the capture shim converts and sanitises any floating-point readings):
/// angles in milliradians where radians are named, speeds in thousandths
/// of a kilometre per hour.
#[derive(Clone, Debug)]
pub enum EventDetail {
    Keyboard {
        time_down_ms: u32,
        key_code: u16,
        key_char: String,
        keyboard_layout: String,
    },
    MouseClick {
        time_down_ms: u32,
        /// Click position normalised to the display, in millionths:
        /// each coordinate lies in `0 ..= 1_000_000`.
        normalised_click_point_x: u32,
        normalised_click_point_y: u32,
        dragged_distance_px: u32,
        dragged_distance_mm: u32,
        /// `None` exactly when the dragged distance is zero.
        drag_angle: Option<i32>,
        drag_speed_kph: u32,
    },
    MouseMove {
        distance_px: u64,
        distance_mm: u64,
        /// Direction of motion in whole degrees.
        angle: u16,
        velocity_kph: u32,
    },
    Scroll {
        scroll_delta_x: i32,
        scroll_delta_y: i32,
        /// `None` exactly when both delta components are zero.
        scroll_angle: Option<i32>,
        scroll_speed_kph: u32,
    },
}

/// The scale of a normalised click coordinate: one unit of display width
/// or height, in millionths.
pub const CLICK_POINT_SCALE: u32 = 1_000_000;

impl EventDetail {
    /// The payload invariant of each kind: click coordinates stay inside
    /// the unit square, an angle is absent exactly when the motion it
    /// would describe is absent, and an aggregate distance stays within
    /// what at most 255 raw samples can sum to.
    pub open spec fn wf(self) -> bool {
        match self {
            EventDetail::Keyboard { .. } => true,
            EventDetail::MouseClick {
                normalised_click_point_x,
                normalised_click_point_y,
                dragged_distance_px,
                drag_angle,
                ..
            } => {
                &&& normalised_click_point_x <= CLICK_POINT_SCALE
                &&& normalised_click_point_y <= CLICK_POINT_SCALE
                &&& (drag_angle is None <==> dragged_distance_px == 0)
            },
            EventDetail::MouseMove { distance_px, distance_mm, .. } => {
                &&& distance_px <= 255 * (u32::MAX as u64)
                &&& distance_mm <= 255 * (u32::MAX as u64)
            },
            EventDetail::Scroll { scroll_delta_x, scroll_delta_y, scroll_angle, .. } => {
                scroll_angle is None <==> (scroll_delta_x == 0 && scroll_delta_y == 0)
            },
        }
    }

    /// The category of kinds this payload belongs with.
    pub open spec fn fits(self, t: EventType) -> bool {
        match self {
            EventDetail::Keyboard { .. } => is_keyboard(t),
            EventDetail::MouseClick { .. } => is_mouse_click(t),
            EventDetail::MouseMove { .. } => is_mouse_move(t),
            EventDetail::Scroll { .. } => is_scroll(t),
        }
    }
}

/// A validated domain event: a base plus the payload of its category.
#[derive(Clone, Debug)]
pub struct Event {
    pub base: BaseEvent,
    pub detail: EventDetail,
}

impl Event {
    /// A well-formed event pairs a base with a payload of the base kind's
    /// own category, and the payload satisfies its invariant.
    pub open spec fn wf(self) -> bool {
        self.detail.fits(self.base.event_type) && self.detail.wf()
    }

    /// The validated construction path: pairs a base with a payload only
    /// when the payload is of the base kind's own category and satisfies
    /// its invariant; anything else is refused, never represented.
    pub fn new(base: BaseEvent, detail: EventDetail) -> (r: Option<Event>)
        ensures
            r is Some <==> detail.fits(base.event_type) && detail.wf(),
            r matches Some(e) ==> e.base == base && e.detail == detail && e.wf(),
    {
        let fits = match &detail {
            EventDetail::Keyboard { .. } => base.event_type.is_keyboard_event(),
            EventDetail::MouseClick { .. } => base.event_type.is_mouse_click_event(),
            EventDetail::MouseMove { .. } => base.event_type.is_mouse_move_event(),
            EventDetail::Scroll { .. } => base.event_type.is_scroll_event(),
        };
        if !fits {
            return None;
        }
        let sound = match &detail {
            EventDetail::Keyboard { .. } => true,
            EventDetail::MouseClick {
                normalised_click_point_x,
                normalised_click_point_y,
                dragged_distance_px,
                drag_angle,
                ..
            } => {
                *normalised_click_point_x <= CLICK_POINT_SCALE && *normalised_click_point_y
                    <= CLICK_POINT_SCALE && (drag_angle.is_none() == (*dragged_distance_px == 0))
            },
            EventDetail::MouseMove { distance_px, distance_mm, .. } => {
                *distance_px <= 255 * (u32::MAX as u64) && *distance_mm <= 255 * (u32::MAX as u64)
            },
            EventDetail::Scroll { scroll_delta_x, scroll_delta_y, scroll_angle, .. } => {
                scroll_angle.is_none() == (*scroll_delta_x == 0 && *scroll_delta_y == 0)
            },
        };
        if !sound {
            return None;
        }
        Some(Event { base, detail })
    }
}

/// A pointer-motion event, either one raw sample or the reduction of a
/// whole batch; `base.aggregate_count` tells the two apart.
#[derive(Clone, Debug)]
pub struct MouseMoveEvent {
    pub base: BaseEvent,
    pub distance_px: u64,
    pub distance_mm: u64,
    /// Direction of motion in whole degrees.
    pub angle: u16,
    pub velocity_kph: u32,
}

} // verus!
