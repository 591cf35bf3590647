use cosmic_connect_plugins::capture::{chunk_range, CaptureError, FrameWait, WaylandCapture};
use cosmic_connect_plugins::frame::{CaptureState, PixelFormat, RawFrame};

#[test]
fn test_capture_creation() {
    let capture = WaylandCapture::new();
    assert_eq!(capture.state(), CaptureState::Idle);
    assert!(!capture.is_capturing());
}

#[test]
fn test_monitor_enumeration() {
    let capture = WaylandCapture::new();
    let monitors = capture.enumerate_monitors();

    assert!(!monitors.is_empty());
    assert_eq!(monitors[0].id, "0");
}

#[test]
fn test_monitor_selection() {
    let mut capture = WaylandCapture::new();
    capture.select_monitors(vec!["0".to_string()]);

    assert_eq!(capture.selected_monitors().len(), 1);
    assert_eq!(capture.selected_monitors()[0], "0");
}

#[test]
fn test_invalid_state_transitions() {
    let mut capture = WaylandCapture::new();

    let result = capture.start_capture();
    assert!(result.is_err());

    let result = capture.capture_frame(FrameWait::TimedOut);
    assert!(result.is_err());
}

#[test]
fn capture_session_cycle() {
    let mut capture = WaylandCapture::new();
    assert_eq!(capture.request_permission(), Ok(()));
    assert_eq!(capture.state(), CaptureState::PermissionRequested);
    assert_eq!(capture.request_permission(), Err(CaptureError::AlreadyActive));
    assert_eq!(capture.start_capture(), Err(CaptureError::PermissionNotGranted));

    capture.permission_granted(42, Some((8, 2)), "session".to_string());
    assert_eq!(capture.state(), CaptureState::PermissionGranted);
    assert_eq!(capture.stream_size(), (8, 2));
    assert_eq!(capture.start_capture(), Ok(42));
    assert!(capture.is_capturing());

    let frame = RawFrame::new(1, 1, PixelFormat::RGB, vec![1, 2, 3]);
    let got = capture.capture_frame(FrameWait::Received(frame)).unwrap();
    assert_eq!(got.data, vec![1, 2, 3]);
    let black = capture.capture_frame(FrameWait::TimedOut).unwrap();
    assert_eq!((black.width, black.height), (8, 2));
    assert_eq!(black.data, vec![0u8; 64]);
    assert_eq!(capture.capture_frame(FrameWait::Closed).err(), Some(CaptureError::ChannelClosed));
    assert_eq!(capture.capture_frame(FrameWait::NoChannel).err(), Some(CaptureError::ChannelNotInitialized));

    assert!(capture.stop_capture());
    assert_eq!(capture.state(), CaptureState::Idle);
    assert!(!capture.stop_capture());
    assert_eq!(capture.request_permission(), Ok(()));
}

#[test]
fn buffer_chunk_ranges() {
    assert_eq!(chunk_range(4, 8, 12), Some((4, 12)));
    assert_eq!(chunk_range(4, 9, 12), None);
    assert_eq!(chunk_range(0, 0, 12), None);
}
