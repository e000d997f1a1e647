//! Tests for the orientation adapter.

use wio_terminal::display::DisplayOrientation;
use wio_terminal::orientation::{convert_orientation, run_adapter, OrientationTracker};
use wio_terminal::sensors::SensorOrientation;
use wio_terminal::Error;

#[test]
fn mapping_table_is_exact() {
    assert_eq!(
        convert_orientation(SensorOrientation::LandscapeUp),
        Some(DisplayOrientation::LandscapeFlipped)
    );
    assert_eq!(
        convert_orientation(SensorOrientation::LandscapeDown),
        Some(DisplayOrientation::Landscape)
    );
    assert_eq!(
        convert_orientation(SensorOrientation::PortraitUp),
        Some(DisplayOrientation::Portrait)
    );
    assert_eq!(
        convert_orientation(SensorOrientation::PortraitDown),
        Some(DisplayOrientation::PortraitFlipped)
    );
    assert_eq!(convert_orientation(SensorOrientation::Unknown), None);
}

#[test]
fn baseline_then_samples_redraw_only_on_mapped_change() {
    // Baseline LandscapeUp (no redraw), then four samples: redraw
    // events come exactly for the third sample (to Portrait) and the
    // fifth (to PortraitFlipped).
    let samples = vec![
        SensorOrientation::LandscapeUp,
        SensorOrientation::PortraitUp,
        SensorOrientation::Unknown,
        SensorOrientation::PortraitDown,
    ];
    let events = run_adapter(SensorOrientation::LandscapeUp, &samples);
    assert_eq!(
        events,
        vec![
            None,
            Some(DisplayOrientation::Portrait),
            None,
            Some(DisplayOrientation::PortraitFlipped),
        ]
    );
}

#[test]
fn unknown_samples_never_change_state_or_redraw() {
    let mut tracker = OrientationTracker::new(SensorOrientation::PortraitUp);
    assert_eq!(tracker.current_orientation(), DisplayOrientation::Portrait);
    assert_eq!(tracker.step(SensorOrientation::Unknown), None);
    assert_eq!(tracker.current_orientation(), DisplayOrientation::Portrait);
    assert_eq!(tracker.step(SensorOrientation::Unknown), None);
    assert_eq!(tracker.current_orientation(), DisplayOrientation::Portrait);
}

#[test]
fn repeated_orientation_does_not_redraw() {
    let mut tracker = OrientationTracker::new(SensorOrientation::LandscapeDown);
    assert_eq!(tracker.step(SensorOrientation::LandscapeDown), None);
    assert_eq!(
        tracker.step(SensorOrientation::LandscapeUp),
        Some(DisplayOrientation::LandscapeFlipped)
    );
    assert_eq!(tracker.step(SensorOrientation::LandscapeUp), None);
}

#[test]
fn unmapped_baseline_starts_from_panel_default() {
    let tracker = OrientationTracker::new(SensorOrientation::Unknown);
    assert_eq!(tracker.current_orientation(), DisplayOrientation::LandscapeFlipped);
}

#[test]
fn failed_sensor_read_is_propagated_not_masked() {
    let mut tracker = OrientationTracker::new(SensorOrientation::LandscapeUp);
    let r = tracker.step_read(Err(Error::RuntimeTransferFailure));
    match r {
        Err(e) => assert_eq!(e, Error::RuntimeTransferFailure),
        Ok(_) => panic!("a failed read must surface"),
    }
    assert_eq!(tracker.current_orientation(), DisplayOrientation::LandscapeFlipped);
    let r2 = tracker.step_read(Ok(SensorOrientation::PortraitUp));
    assert_eq!(r2, Ok(Some(DisplayOrientation::Portrait)));
}
