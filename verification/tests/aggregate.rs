use klcool::aggregate::{aggregate_motion, RawMotionSample};
use klcool::errors::AggregationError;
use klcool::event::{BaseEvent, EventType};

fn base() -> BaseEvent {
    BaseEvent {
        event_type: EventType::MouseMoved,
        is_builtin_display: false,
        is_main_display: true,
        process_name: String::from("Finder"),
        process_path: String::from("/System/Library/CoreServices/Finder.app"),
        execution_time_us: 42,
        aggregate_count: None,
    }
}

fn sample(distance_px: u32, angle: u16, velocity_kph: u32) -> RawMotionSample {
    RawMotionSample { distance_px, distance_mm: distance_px / 4, angle, velocity_kph }
}

#[test]
fn batch_of_three_reduces_to_weighted_summary() {
    let samples = vec![sample(10, 0, 5), sample(20, 90, 8), sample(30, 180, 3)];
    let e = aggregate_motion(base(), &samples).unwrap();
    assert_eq!(e.distance_px, 60);
    assert_eq!(e.distance_mm, 2 + 5 + 7);
    // (0*10 + 90*20 + 180*30) / 60 = 120
    assert_eq!(e.angle, 120);
    assert_eq!(e.velocity_kph, 8);
    assert_eq!(e.base.aggregate_count, Some(3));
    // The rest of the base is the batch's own.
    assert_eq!(e.base.event_type, EventType::MouseMoved);
    assert_eq!(e.base.process_name, "Finder");
    assert_eq!(e.base.execution_time_us, 42);
}

#[test]
fn one_sample_batch_is_itself() {
    let samples = vec![sample(12, 45, 9)];
    let e = aggregate_motion(base(), &samples).unwrap();
    assert_eq!(e.distance_px, 12);
    assert_eq!(e.angle, 45);
    assert_eq!(e.velocity_kph, 9);
    assert_eq!(e.base.aggregate_count, Some(1));
}

#[test]
fn zero_total_distance_defines_angle_zero() {
    let samples = vec![sample(0, 90, 2), sample(0, 270, 4)];
    let e = aggregate_motion(base(), &samples).unwrap();
    assert_eq!(e.distance_px, 0);
    assert_eq!(e.angle, 0);
    assert_eq!(e.velocity_kph, 4);
}

#[test]
fn velocity_is_maximum_not_sum() {
    let samples = vec![sample(1, 10, 30), sample(1, 10, 29), sample(1, 10, 31)];
    let e = aggregate_motion(base(), &samples).unwrap();
    assert_eq!(e.velocity_kph, 31);
}

#[test]
fn full_batch_of_saturated_samples_cannot_overflow() {
    let samples: Vec<RawMotionSample> = (0..255)
        .map(|_| RawMotionSample {
            distance_px: u32::MAX,
            distance_mm: u32::MAX,
            angle: u16::MAX,
            velocity_kph: u32::MAX,
        })
        .collect();
    let e = aggregate_motion(base(), &samples).unwrap();
    assert_eq!(e.distance_px, 255 * u32::MAX as u64);
    assert_eq!(e.distance_mm, 255 * u32::MAX as u64);
    assert_eq!(e.angle, u16::MAX);
    assert_eq!(e.velocity_kph, u32::MAX);
    assert_eq!(e.base.aggregate_count, Some(255));
}

#[test]
fn empty_batch_is_refused() {
    let samples: Vec<RawMotionSample> = Vec::new();
    assert_eq!(
        aggregate_motion(base(), &samples).unwrap_err(),
        AggregationError::EmptyBatch
    );
}
