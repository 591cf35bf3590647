use cosmic_connect_plugins::encoding::{EncodeStep, FrameEncoder};
use mouse_keyboard_input as mki;
use cosmic_connect_plugins::frame::{CaptureState, EncodingType, PixelFormat, QualityPreset, RawFrame};
use cosmic_connect_plugins::input::{
    char_to_keycode, special_key_to_keycode, InputAction, InputRequest, PointerTracker, SpecialKey, BTN_LEFT, BTN_RIGHT,
};
use cosmic_connect_plugins::rfb::{ClientMessage, RfbEncoding, ServerInit};
use cosmic_connect_plugins::vnc::{
    client_version_supported, decode_encodings, frame_interval_ms, security_types, stream_pause, stream_resume,
    stream_start, FrameTimes, RemoteDesktopPacket, RemoteDesktopPlugin, RemoteDesktopPluginFactory, RemoteDesktopStep,
    ServerState, StreamConfig, StreamState,
};

#[test]
fn test_pixel_format_bytes() {
    assert_eq!(PixelFormat::RGBA.bytes_per_pixel(), 4);
    assert_eq!(PixelFormat::BGRA.bytes_per_pixel(), 4);
    assert_eq!(PixelFormat::RGB.bytes_per_pixel(), 3);
    assert_eq!(PixelFormat::BGR.bytes_per_pixel(), 3);
}

#[test]
fn test_quality_preset_bitrate() {
    let width = 1920;
    let height = 1080;
    let fps = 30;

    let low = QualityPreset::Low.target_bitrate(width, height, fps);
    let medium = QualityPreset::Medium.target_bitrate(width, height, fps);
    let high = QualityPreset::High.target_bitrate(width, height, fps);

    assert!(low < medium);
    assert!(medium < high);
}

#[test]
fn test_quality_preset_from_str() {
    assert_eq!(QualityPreset::from_str("low"), Some(QualityPreset::Low));
    assert_eq!(QualityPreset::from_str("LOW"), Some(QualityPreset::Low));
    assert_eq!(QualityPreset::from_str("medium"), Some(QualityPreset::Medium));
    assert_eq!(QualityPreset::from_str("high"), Some(QualityPreset::High));
    assert_eq!(QualityPreset::from_str("invalid"), None);
}

#[test]
fn test_raw_frame_creation() {
    let width = 640;
    let height = 480;
    let format = PixelFormat::RGBA;
    let data = vec![0u8; (width * height * 4) as usize];

    let frame = RawFrame::new(width, height, format, data);

    assert_eq!(frame.width, width);
    assert_eq!(frame.height, height);
    assert_eq!(frame.format, format);
    assert_eq!(frame.stride, width * 4);
}

#[test]
fn test_capture_state() {
    let states = [
        CaptureState::Idle,
        CaptureState::PermissionRequested,
        CaptureState::PermissionGranted,
        CaptureState::Capturing,
        CaptureState::Paused,
        CaptureState::Error,
    ];

    for state in states {
        assert_eq!(state, state);
    }
}

#[test]
fn mod_test_plugin_creation() {
    let plugin = RemoteDesktopPlugin::new();
    assert_eq!(plugin.name(), "remotedesktop");
    assert!(!plugin.enabled());
    assert!(!plugin.is_attached());
}

#[test]
fn mod_test_capabilities() {
    let plugin = RemoteDesktopPlugin::new();

    let incoming = plugin.incoming_capabilities();
    assert_eq!(incoming.len(), 2);
    assert!(incoming.contains(&"cconnect.remotedesktop.request".to_string()));
    assert!(incoming.contains(&"cconnect.remotedesktop.control".to_string()));

    let outgoing = plugin.outgoing_capabilities();
    assert_eq!(outgoing.len(), 2);
    assert!(outgoing.contains(&"cconnect.remotedesktop.response".to_string()));
    assert!(outgoing.contains(&"cconnect.remotedesktop.event".to_string()));
}

#[test]
fn mod_test_factory() {
    let factory = RemoteDesktopPluginFactory;
    assert_eq!(factory.name(), "remotedesktop");

    let plugin = factory.create();
    assert_eq!(plugin.name(), "remotedesktop");
}

#[test]
fn test_factory_capabilities() {
    let factory = RemoteDesktopPluginFactory;

    let incoming = factory.incoming_capabilities();
    assert_eq!(incoming.len(), 2);

    let outgoing = factory.outgoing_capabilities();
    assert_eq!(outgoing.len(), 2);
}

#[test]
fn remotedesktop_request_decisions() {
    let mut plugin = RemoteDesktopPlugin::new();
    let request = || RemoteDesktopPacket::Request { mode: None, quality: None, fps: None };
    assert!(matches!(plugin.handle_packet(request(), true), RemoteDesktopStep::Nothing));
    plugin.start();
    assert!(matches!(plugin.handle_packet(request(), false), RemoteDesktopStep::Busy));
    match plugin.handle_packet(request(), true) {
        RemoteDesktopStep::StartSession { port, mode, quality, fps } => {
            assert_eq!(port, 5900);
            assert_eq!(mode, "control");
            assert_eq!(quality, "medium");
            assert_eq!(fps, 30);
        }
        other => panic!("unexpected {:?}", other),
    }
    assert!(matches!(
        plugin.handle_packet(RemoteDesktopPacket::Control { action: Some("dance".to_string()) }, true),
        RemoteDesktopStep::UnknownControl { .. }
    ));
    assert!(matches!(plugin.handle_packet(RemoteDesktopPacket::Control { action: None }, true), RemoteDesktopStep::Nothing));
}

#[test]
fn test_encoder_creation() {
    let encoder = FrameEncoder::new(QualityPreset::Medium);
    assert_eq!(encoder.quality_preset(), QualityPreset::Medium);
    assert_eq!(encoder.preferred_encoding(), EncodingType::LZ4);
}

#[test]
fn test_quality_presets() {
    let mut encoder = FrameEncoder::new(QualityPreset::Low);
    assert_eq!(encoder.preferred_encoding(), EncodingType::H264);

    encoder.set_quality(QualityPreset::Medium);
    assert_eq!(encoder.preferred_encoding(), EncodingType::LZ4);

    encoder.set_quality(QualityPreset::High);
    assert_eq!(encoder.preferred_encoding(), EncodingType::Raw);
}

#[test]
fn encoder_lz4_compresses_frame() {
    let encoder = FrameEncoder::new(QualityPreset::Medium);
    let frame = RawFrame::new(16, 16, PixelFormat::RGBA, vec![7u8; 16 * 16 * 4]);
    let encoded = encoder.encode_lz4(&frame).unwrap();
    assert_eq!(encoded.encoding, EncodingType::LZ4);
    assert_ne!(encoded.data, frame.data);
    assert_eq!(&encoded.data[..4], &(1024u32).to_le_bytes());
    match encoder.encode_step(&frame) {
        EncodeStep::Done(Ok(e)) => assert_eq!(e.encoding, EncodingType::LZ4),
        other => panic!("unexpected {:?}", other),
    }
}

#[test]
fn test_pixel_format_serialization() {
    let pf = cosmic_connect_plugins::rfb::PixelFormat::rgba32();
    let bytes = pf.to_bytes();
    let parsed = cosmic_connect_plugins::rfb::PixelFormat::from_bytes(&bytes);

    assert_eq!(pf.bits_per_pixel, parsed.bits_per_pixel);
    assert_eq!(pf.depth, parsed.depth);
    assert_eq!(pf.red_shift, parsed.red_shift);
    assert_eq!(pf.green_shift, parsed.green_shift);
    assert_eq!(pf.blue_shift, parsed.blue_shift);
}

#[test]
fn test_server_init_serialization() {
    let init = ServerInit::new(1920, 1080, "COSMIC Desktop".to_string());
    let bytes = init.to_bytes();

    assert_eq!(u16::from_be_bytes([bytes[0], bytes[1]]), 1920);
    assert_eq!(u16::from_be_bytes([bytes[2], bytes[3]]), 1080);

    let name_len_offset = 4 + 16;
    let name_len = u32::from_be_bytes([
        bytes[name_len_offset],
        bytes[name_len_offset + 1],
        bytes[name_len_offset + 2],
        bytes[name_len_offset + 3],
    ]);
    assert_eq!(name_len, 14);
}

#[test]
fn test_client_message_parsing() {
    assert_eq!(ClientMessage::from_u8(0), Some(ClientMessage::SetPixelFormat));
    assert_eq!(ClientMessage::from_u8(3), Some(ClientMessage::FramebufferUpdateRequest));
    assert_eq!(ClientMessage::from_u8(4), Some(ClientMessage::KeyEvent));
    assert_eq!(ClientMessage::from_u8(5), Some(ClientMessage::PointerEvent));
    assert_eq!(ClientMessage::from_u8(99), None);
}

#[test]
fn test_rfb_encoding_parsing() {
    assert_eq!(RfbEncoding::from_i32(0), Some(RfbEncoding::Raw));
    assert_eq!(RfbEncoding::from_i32(5), Some(RfbEncoding::Hextile));
    assert_eq!(RfbEncoding::from_i32(-223), Some(RfbEncoding::DesktopSize));
    assert_eq!(RfbEncoding::from_i32(999), None);
}

#[test]
fn vnc_handshake_decisions() {
    assert!(client_version_supported(b"RFB 003.008\n"));
    assert!(client_version_supported(b"RFB 003.003\n"));
    assert!(!client_version_supported(b"RFB 003.007\n"));
    assert_eq!(security_types(true), [1, 1]);
    assert_eq!(security_types(false), [1, 2]);
    let mut codes = Vec::new();
    for c in [5i32, 999, -223, 0] {
        codes.extend_from_slice(&c.to_be_bytes());
    }
    assert_eq!(decode_encodings(&codes, 4), vec![RfbEncoding::Hextile, RfbEncoding::DesktopSize, RfbEncoding::Raw]);
    assert_eq!(ServerState::Idle, ServerState::Idle);
}

#[test]
fn test_stream_config_default() {
    let config = StreamConfig::default();
    assert_eq!(config.target_fps, 30);
    assert_eq!(config.quality, QualityPreset::Medium);
    assert!(config.allow_frame_skip);
}

#[test]
fn test_stream_state() {
    let states = [StreamState::Idle, StreamState::Streaming, StreamState::Paused, StreamState::Stopped];

    for state in states {
        assert_eq!(state, state);
    }
}

#[test]
fn stream_transitions() {
    assert_eq!(stream_start(StreamState::Idle), Ok(StreamState::Streaming));
    assert!(stream_start(StreamState::Streaming).is_err());
    assert_eq!(stream_pause(StreamState::Streaming), Ok(StreamState::Paused));
    assert!(stream_pause(StreamState::Paused).is_err());
    assert_eq!(stream_resume(StreamState::Paused), Ok(StreamState::Streaming));
    assert!(stream_resume(StreamState::Idle).is_err());
    assert_eq!(frame_interval_ms(30), 33);
    let mut times = FrameTimes::new();
    assert_eq!(times.average(), 0);
    for t in [10u64, 20, 30] {
        times.record(t);
    }
    assert_eq!(times.average(), 20);
    for _ in 0..40 {
        times.record(5);
    }
    assert_eq!(times.average(), 5);
}

#[test]
fn input_key_codes_match_the_linux_codes() {
    assert_eq!(char_to_keycode('a'), Some(mki::KEY_A));
    assert_eq!(char_to_keycode('Z'), Some(mki::KEY_Z));
    assert_eq!(char_to_keycode('0'), Some(11));
    assert_eq!(char_to_keycode('7'), Some(mki::KEY_7));
    assert_eq!(char_to_keycode(' '), Some(mki::KEY_SPACE));
    assert_eq!(char_to_keycode('\\'), Some(mki::KEY_BACKSLASH));
    assert_eq!(char_to_keycode('é'), None);
    assert_eq!(special_key_to_keycode(1), Some(mki::KEY_BACKSPACE));
    assert_eq!(special_key_to_keycode(27), Some(mki::KEY_ESC));
    assert_eq!(special_key_to_keycode(35), Some(mki::KEY_F5));
    assert_eq!(special_key_to_keycode(42), Some(mki::KEY_F12));
    assert_eq!(special_key_to_keycode(3), None);
    assert_eq!(SpecialKey::Delete.number(), 30);
    assert_eq!(BTN_LEFT, mki::BTN_LEFT);
    assert_eq!(BTN_RIGHT, mki::BTN_RIGHT);
}

#[test]
fn input_request_actions_in_order() {
    let request = InputRequest {
        key: Some("hi!".to_string()),
        special_key: Some(12),
        alt: None,
        ctrl: Some(true),
        shift: None,
        super_key: None,
        singleclick: Some(true),
        doubleclick: Some(true),
        middleclick: None,
        rightclick: None,
        singlehold: None,
        singlerelease: None,
        dx: Some(5),
        dy: None,
        scroll: Some(true),
        send_ack: None,
    };
    assert_eq!(
        request.actions(),
        vec![
            InputAction::SmoothScroll { dx: 5, dy: 0 },
            InputAction::Click(BTN_LEFT),
            InputAction::DoubleClick(BTN_LEFT),
            InputAction::Click(35),
            InputAction::Click(23),
            InputAction::Click(28),
        ]
    );
}

#[test]
fn pointer_events_diff_the_buttons() {
    let mut tracker = PointerTracker::new();
    assert_eq!(
        tracker.pointer_event(100, 50, 0x01),
        vec![InputAction::Move { dx: 100, dy: 50 }, InputAction::Press(BTN_LEFT)]
    );
    assert_eq!(tracker.pointer_event(100, 50, 0x01), vec![]);
    assert_eq!(
        tracker.pointer_event(90, 50, 0x04),
        vec![InputAction::Move { dx: -10, dy: 0 }, InputAction::Release(BTN_LEFT), InputAction::Press(BTN_RIGHT)]
    );
    assert_eq!(tracker.pointer_event(90, 50, 0x0C).len(), 3);
}
