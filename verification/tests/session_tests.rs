use audioscribe::errors::CaptureError;
use audioscribe::session::{recording_result, CaptureSession, SampleFormat};

#[test]
fn start_while_recording_fails_and_keeps_buffer() {
    let mut s = CaptureSession::new();
    assert!(s.start(SampleFormat::Float32).is_ok());
    s.append(&vec![1, 2, 3]);
    let second = s.start(SampleFormat::Float32);
    assert!(matches!(second, Err(CaptureError::AlreadyRecording)));
    // the active session's buffer is unaffected by the rejected start
    let drained = s.stop().unwrap();
    assert_eq!(drained, vec![1, 2, 3]);
}

#[test]
fn stop_without_session_fails() {
    let mut s = CaptureSession::new();
    assert!(!s.recording());
    assert!(matches!(s.stop(), Err(CaptureError::NotRecording)));
}

#[test]
fn recording_flag_follows_the_session() {
    let mut s = CaptureSession::new();
    s.start(SampleFormat::Float32).unwrap();
    assert!(s.recording());
    s.stop().unwrap();
    assert!(!s.recording());
}

#[test]
fn stop_after_stop_fails() {
    let mut s = CaptureSession::new();
    s.start(SampleFormat::Float32).unwrap();
    s.stop().unwrap();
    assert!(matches!(s.stop(), Err(CaptureError::NotRecording)));
}

#[test]
fn start_then_stop_with_no_samples_is_empty_success() {
    let mut s = CaptureSession::new();
    s.start(SampleFormat::Float32).unwrap();
    let drained = s.stop().expect("empty capture is a success, not an error");
    assert!(drained.is_empty());
    let result = recording_result(drained);
    assert!(result.success);
    assert_eq!(result.audio_data, Some(Vec::new()));
    assert!(result.error.is_none());
}

#[test]
fn frames_come_back_whole_and_in_order() {
    let mut s = CaptureSession::new();
    s.start(SampleFormat::Float32).unwrap();
    s.append(&vec![10, 20]);
    s.append(&vec![30]);
    s.append(&Vec::new());
    s.append(&vec![40, 50]);
    let drained = s.stop().unwrap();
    assert_eq!(drained, vec![10, 20, 30, 40, 50]);
}

#[test]
fn frames_outside_a_session_are_dropped() {
    let mut s = CaptureSession::new();
    s.append(&vec![7, 8]);
    s.start(SampleFormat::Float32).unwrap();
    s.stop().unwrap();
    s.append(&vec![9]);
    s.start(SampleFormat::Float32).unwrap();
    let drained = s.stop().unwrap();
    assert!(drained.is_empty());
}

#[test]
fn restart_clears_previous_buffer() {
    let mut s = CaptureSession::new();
    s.start(SampleFormat::Float32).unwrap();
    s.append(&vec![1]);
    s.stop().unwrap();
    s.start(SampleFormat::Float32).unwrap();
    s.append(&vec![2]);
    let drained = s.stop().unwrap();
    assert_eq!(drained, vec![2]);
}

#[test]
fn non_float_format_is_rejected() {
    let mut s = CaptureSession::new();
    let r = s.start(SampleFormat::Other);
    assert!(matches!(r, Err(CaptureError::UnsupportedSampleFormat)));
    // the rejected start did not open a session
    assert!(matches!(s.stop(), Err(CaptureError::NotRecording)));
}
