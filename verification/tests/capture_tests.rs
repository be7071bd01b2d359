//! Tests for the capture controller, capture buffer and device
//! selection.

use super_mouse_ai::capture::{
    choose_input_device, CaptureBuffer, CaptureController, DeviceSelection,
};
use super_mouse_ai::model::ModelError;

// Starting twice in a row without an intervening stop leaves exactly
// one live stream, and chunks from the first session are no longer
// appended after the second session starts.
#[test]
fn start_twice_keeps_single_live_session() {
    let mut c = CaptureController::new(true);
    let mut buf = CaptureBuffer::new();

    let first = c.start_capture();
    assert!(!first.was_recording);
    assert_eq!(first.stopped, None);
    assert!(c.is_recording());
    assert!(c.accept_chunk(&mut buf, &vec![1, 2, 3], first.started));
    assert_eq!(buf.samples, vec![1, 2, 3]);

    let second = c.start_capture();
    assert!(second.was_recording);
    assert_eq!(second.stopped, Some(first.started));
    assert_ne!(second.started, first.started);
    assert!(c.is_recording());

    // A late chunk from the first session's callback is dropped.
    assert!(!c.accept_chunk(&mut buf, &vec![9, 9], first.started));
    assert_eq!(buf.samples, vec![1, 2, 3]);

    // The second session's chunks flow normally.
    assert!(c.accept_chunk(&mut buf, &vec![4], second.started));
    assert_eq!(buf.samples, vec![1, 2, 3, 4]);
}

#[test]
fn stop_capture_returns_live_session_and_goes_idle() {
    let mut c = CaptureController::new(true);
    assert_eq!(c.stop_capture(), None);
    let s = c.start_capture();
    assert_eq!(c.stop_capture(), Some(s.started));
    assert!(!c.is_recording());
}

#[test]
fn controller_tracks_device_selection() {
    let mut c = CaptureController::new(false);
    assert_eq!(c.current_device(), None);
    c.set_device(DeviceSelection::Indexed(3));
    assert_eq!(c.current_device(), Some(DeviceSelection::Indexed(3)));

    let with_default = CaptureController::new(true);
    assert_eq!(
        with_default.current_device(),
        Some(DeviceSelection::DefaultInput)
    );
}

// Selecting an index far beyond the enumerated count falls back to
// the default device (reported, not an error) when one exists, and
// fails only when there is no default either.
#[test]
fn device_selection_falls_back_to_default() {
    assert!(matches!(
        choose_input_device(200, 3, true),
        Ok((false, DeviceSelection::DefaultInput))
    ));
    assert!(matches!(
        choose_input_device(1, 3, false),
        Ok((true, DeviceSelection::Indexed(1)))
    ));
    assert!(matches!(
        choose_input_device(200, 3, false),
        Err(ModelError::Device(_))
    ));
}

#[test]
fn buffer_drain_takes_and_replaces() {
    let mut buf = CaptureBuffer::new();
    assert_eq!(buf.channels, 1);
    assert_eq!(buf.sample_rate, 48000);

    buf.update_from_config(2, 44100);
    let c = CaptureController::new(true);
    let mut c2 = c;
    let s = c2.start_capture();
    assert!(c2.accept_chunk(&mut buf, &vec![7, 8], s.started));

    let (samples, channels, rate) = buf.drain();
    assert_eq!(samples, vec![7, 8]);
    assert_eq!(channels, 2);
    assert_eq!(rate, 44100);
    assert!(buf.samples.is_empty());
    assert_eq!(buf.channels, 2);
    assert_eq!(buf.sample_rate, 44100);
}

#[test]
fn buffer_replace_with_config_clears_samples() {
    let mut buf = CaptureBuffer::new();
    let mut c = CaptureController::new(true);
    let s = c.start_capture();
    assert!(c.accept_chunk(&mut buf, &vec![1], s.started));
    buf.replace_with_config(2, 96000);
    assert!(buf.samples.is_empty());
    assert_eq!(buf.channels, 2);
    assert_eq!(buf.sample_rate, 96000);
}

#[test]
fn stop_retry_bound() {
    assert!(!super_mouse_ai::capture::stop_retry_exhausted(0));
    assert!(!super_mouse_ai::capture::stop_retry_exhausted(99));
    assert!(super_mouse_ai::capture::stop_retry_exhausted(100));
}
