use cosmic_connect_plugins::bitrate::{BitrateController, ViewerNetworkReports};
use cosmic_connect_plugins::screenshare::{bitrate_check_due, frame_pacing_wait_nanos, share_capture_tick, ShareCaptureTick};
use cosmic_connect_plugins::screenshare::{
    adaptive_bitrate_step, capture_plan, Annotation, CursorPosition, PendingSessions, ScreenShareAction,
    ScreenShareError, ScreenShareEvent, ScreenSharePlugin, ScreenSharePluginFactory, ShareConfig, ShareConfigError,
    ShareMode, VideoCodec,
};
use cosmic_connect_plugins::stream_frame::{
    cursor_payload, encode_frame, extract_cursor_position, parse_frame_header, CursorMeta, CursorUpdate,
    FrameHeaderError, FrameType, MetaRecord, SPA_META_CURSOR,
};

fn make_reports() -> ViewerNetworkReports {
    ViewerNetworkReports::new()
}

fn make_controller() -> BitrateController {
    BitrateController::new(2000, 200, 4000)
}

#[test]
fn test_aimd_decrease_on_congestion() {
    let mut ctrl = make_controller();
    let mut reports = make_reports();
    reports.update("v1", 1000, 0);

    let result = ctrl.update(&reports, 2000, 1);
    assert_eq!(result, Some(1000));
}

#[test]
fn test_aimd_increase_on_good_network() {
    let mut ctrl = make_controller();
    let mut reports = make_reports();
    reports.update("v1", 2500, 0);

    let result = ctrl.update(&reports, 2000, 1);
    assert_eq!(result, Some(2100));
}

#[test]
fn test_hysteresis_cooldown() {
    let mut ctrl = make_controller();
    let mut reports = make_reports();

    reports.update("v1", 500, 0);
    let _ = ctrl.update(&reports, 2000, 1);

    reports.update("v1", 3000, 0);
    let result = ctrl.update(&reports, 1000, 1);
    assert_eq!(result, None);
}

#[test]
fn test_min_bitrate_floor() {
    let mut ctrl = make_controller();
    let mut reports = make_reports();
    reports.update("v1", 50, 0);

    let result = ctrl.update(&reports, 200, 1);
    assert_eq!(result, None);
}

#[test]
fn test_max_bitrate_ceiling() {
    let mut ctrl = make_controller();
    let mut reports = make_reports();
    reports.update("v1", 5000, 0);

    let result = ctrl.update(&reports, 4000, 1);
    assert_eq!(result, None);
}

#[test]
fn test_no_viewers_drops_to_min() {
    let mut ctrl = make_controller();
    let reports = make_reports();

    let result = ctrl.update(&reports, 2000, 0);
    assert_eq!(result, Some(200));
}

#[test]
fn test_worst_viewer_governs() {
    let mut ctrl = make_controller();
    let mut reports = make_reports();
    reports.update("v1", 3000, 0);
    reports.update("v2", 800, 0);

    let result = ctrl.update(&reports, 2000, 2);
    assert_eq!(result, Some(1000));
}

#[test]
fn test_lag_triggers_decrease() {
    let mut ctrl = make_controller();
    let mut reports = make_reports();
    reports.update("v1", 3000, 5);

    let result = ctrl.update(&reports, 2000, 1);
    assert_eq!(result, Some(1000));
}

#[test]
fn test_stale_report_ignored() {
    let mut ctrl = make_controller();
    let mut reports = make_reports();
    let now: u64 = 100_000;
    reports.update_at("v1", 100, 10, now - 15_000);

    let result = ctrl.update_at(&reports, 2000, 1, now, now);
    assert_eq!(result, Some(2100));
}

#[test]
fn test_viewer_report_lifecycle() {
    let mut reports = make_reports();
    assert_eq!(reports.viewer_count(), 0);
    assert_eq!(reports.worst_throughput_kbps(), None);

    reports.update("v1", 1500, 0);
    assert_eq!(reports.viewer_count(), 1);
    assert_eq!(reports.worst_throughput_kbps(), Some(1500));

    reports.update("v2", 800, 0);
    assert_eq!(reports.viewer_count(), 2);
    assert_eq!(reports.worst_throughput_kbps(), Some(800));

    reports.remove("v2");
    assert_eq!(reports.viewer_count(), 1);
    assert_eq!(reports.worst_throughput_kbps(), Some(1500));

    reports.remove("v1");
    assert_eq!(reports.viewer_count(), 0);
    assert_eq!(reports.worst_throughput_kbps(), None);
}

#[test]
fn test_cursor_update_creation() {
    let update = CursorUpdate { x: 100, y: 200, visible: true };
    assert_eq!(update.x, 100);
    assert_eq!(update.y, 200);
    assert!(update.visible);
}

#[test]
fn test_spa_meta_cursor_constant() {
    assert_eq!(SPA_META_CURSOR, 5);
}

#[test]
fn cursor_metadata_extraction() {
    assert_eq!(extract_cursor_position(&[]), None);
    let header = MetaRecord { meta_type: 1, size: 64, cursor: None };
    assert_eq!(extract_cursor_position(&[header]), None);
    let visible = MetaRecord { meta_type: SPA_META_CURSOR, size: 28, cursor: Some(CursorMeta { id: 1, x: 500, y: 300 }) };
    assert_eq!(extract_cursor_position(&[header, visible]), Some(CursorUpdate { x: 500, y: 300, visible: true }));
    let hidden = MetaRecord { meta_type: SPA_META_CURSOR, size: 28, cursor: Some(CursorMeta { id: 0, x: 100, y: 200 }) };
    assert_eq!(extract_cursor_position(&[hidden]), Some(CursorUpdate { x: 100, y: 200, visible: false }));
    let short = MetaRecord { meta_type: SPA_META_CURSOR, size: 8, cursor: Some(CursorMeta { id: 1, x: 1, y: 1 }) };
    assert_eq!(extract_cursor_position(&[short, visible]), None);
}

#[test]
fn test_frame_type_conversion() {
    assert_eq!(FrameType::from(0x01), FrameType::Video);
    assert_eq!(FrameType::from(0x02), FrameType::Cursor);
    assert_eq!(FrameType::from(0xFF), FrameType::EndOfStream);
}

#[test]
fn stream_frame_roundtrip() {
    let bytes = encode_frame(FrameType::Video, 123_456_789, &[1, 2, 3]);
    assert_eq!(&bytes[..4], b"CSMR");
    assert_eq!(bytes.len(), 20);
    let mut header = [0u8; 17];
    header.copy_from_slice(&bytes[..17]);
    let parsed = parse_frame_header(&header).unwrap();
    assert_eq!(parsed.frame_type, 0x01);
    assert_eq!(parsed.timestamp_ns, 123_456_789);
    assert_eq!(parsed.payload_size, 3);
    header[0] = b'X';
    assert_eq!(parse_frame_header(&header), Err(FrameHeaderError::InvalidMagic));
    let mut big = [0u8; 17];
    big.copy_from_slice(&encode_frame(FrameType::Cursor, 0, &[])[..17]);
    big[13..17].copy_from_slice(&(11 * 1024 * 1024u32).to_be_bytes());
    assert_eq!(parse_frame_header(&big), Err(FrameHeaderError::PayloadTooLarge(11 * 1024 * 1024)));
    assert_eq!(cursor_payload(-1, 2, true), vec![0xFF, 0xFF, 0xFF, 0xFF, 0, 0, 0, 2, 1]);
}

#[test]
fn screenshare_config_validation() {
    let config = ShareConfig::default();
    assert!(config.validate().is_ok());

    let mut invalid_fps = config.duplicate();
    invalid_fps.fps = 100;
    assert!(matches!(invalid_fps.validate(), Err(ShareConfigError::InvalidFps(100))));

    let mut invalid_bitrate = config.duplicate();
    invalid_bitrate.bitrate_kbps = 100000;
    assert!(matches!(invalid_bitrate.validate(), Err(ShareConfigError::InvalidBitrate(100000))));

    let mut invalid_quality = config.duplicate();
    invalid_quality.quality = "invalid".to_string();
    assert!(matches!(invalid_quality.validate(), Err(ShareConfigError::InvalidQuality(_))));

    let mut window_without_title = config;
    window_without_title.mode = ShareMode::Window;
    assert!(matches!(window_without_title.validate(), Err(ShareConfigError::WindowTitleRequired)));
    assert_eq!(ShareMode::Window.as_str(), "window");
    assert_eq!(VideoCodec::Vp9.as_str(), "vp9");
}

#[test]
fn screenshare_start_stop_and_viewers() {
    let mut plugin = ScreenSharePlugin::new();
    assert_eq!(plugin.name(), "screenshare");
    assert!(!plugin.is_sharing());
    assert!(!plugin.is_receiving());
    assert!(plugin.start_sharing(ShareConfig::default()).is_ok());
    assert!(plugin.is_sharing());
    assert!(plugin.add_viewer("viewer1").is_ok());
    assert!(plugin.add_viewer("viewer2").is_ok());
    plugin.remove_viewer("viewer1");
    assert_eq!(plugin.get_stats().unwrap().viewer_count, 1);
    for i in 0..20 {
        let _ = plugin.add_viewer(&format!("v{}", i));
    }
    assert_eq!(plugin.get_stats().unwrap().viewer_count, 10);
    assert!(matches!(plugin.add_viewer("one-more"), Err(ScreenShareError::MaxViewersReached)));
    for i in 0..150 {
        plugin.add_annotation(Annotation {
            annotation_type: "line".to_string(),
            x1: i,
            y1: 0,
            x2: None,
            y2: None,
            color: "#FF0000".to_string(),
            width: 3,
        });
    }
    plugin.update_cursor(CursorPosition { x: 1, y: 2, visible: true });
    assert!(plugin.pause_sharing().is_ok());
    assert!(plugin.is_paused());
    let actions = plugin.stop_sharing();
    assert!(!plugin.is_sharing());
    assert!(!plugin.is_paused());
    assert_eq!(plugin.viewer_count(), 0);
    assert!(matches!(actions[0], ScreenShareAction::SetStopFlag(true)));
    assert!(matches!(plugin.pause_sharing(), Err(ScreenShareError::NoActiveSession)));
}

#[test]
fn screenshare_start_packet_signaling() {
    let mut plugin = ScreenSharePluginFactory.create();
    let mut pending = PendingSessions::new();
    plugin.init("phone");
    plugin.start();
    let (actions, result) = plugin.handle_packet(ScreenShareEvent::Start(ShareConfig::default()), "phone", "Phone", None, &mut pending);
    assert!(result.is_ok());
    assert!(plugin.is_receiving());
    assert_eq!(actions.len(), 1);
    assert!(matches!(&actions[0], ScreenShareAction::Emit { device_id, .. } if device_id == "phone"));
    let actions = plugin.set_local_port(12345);
    assert!(matches!(&actions[0], ScreenShareAction::SendReady { device_id, tcp_port: 12345 } if device_id == "phone"));
    let (_, result) = plugin.handle_packet(ScreenShareEvent::Malformed, "phone", "Phone", None, &mut pending);
    assert!(matches!(result, Err(ScreenShareError::InvalidPacket)));
}

#[test]
fn screenshare_ready_restores_pending_session() {
    let mut sender = ScreenSharePlugin::new();
    let mut pending = PendingSessions::new();
    sender.init("laptop");
    sender.start();
    let (actions, result) = sender.share_to_device(ShareConfig::default(), &mut pending);
    assert!(result.is_ok());
    assert!(matches!(actions.last(), Some(ScreenShareAction::SendStart { .. })));
    let _ = sender.stop();
    assert!(!sender.is_sharing());
    sender.start();
    let (actions, result) = sender.handle_packet(
        ScreenShareEvent::Ready { tcp_port: Some(5000) },
        "laptop",
        "Laptop",
        Some("192.168.1.5".to_string()),
        &mut pending,
    );
    assert!(result.is_ok());
    assert!(sender.is_sharing());
    assert_eq!(sender.viewer_count(), 1);
    assert!(actions.iter().any(|a| matches!(a, ScreenShareAction::StartCapture(_))));
    assert!(actions.iter().any(|a| matches!(a, ScreenShareAction::SpawnViewer { port: 5000, .. })));
    let mut fresh = PendingSessions::new();
    let mut other = ScreenSharePlugin::new();
    other.start();
    let (actions, result) = other.handle_packet(ScreenShareEvent::Ready { tcp_port: None }, "x", "X", None, &mut fresh);
    assert!(result.is_ok());
    assert!(actions.is_empty());
    assert!(!other.is_sharing());
}

#[test]
fn pending_sessions_store_take() {
    let mut pending = PendingSessions::new();
    pending.store("a", ShareConfig::default());
    let mut c = ShareConfig::default();
    c.fps = 15;
    pending.store("a", c);
    assert_eq!(pending.take("a").unwrap().fps, 15);
    assert!(pending.take("a").is_none());
    pending.store("b", ShareConfig::default());
    pending.clear("b");
    assert!(pending.take("b").is_none());
}

#[test]
fn capture_plan_and_adaptive_bitrate() {
    let mut config = ShareConfig::default();
    config.bitrate_kbps = 30000;
    let plan = capture_plan(&config);
    assert_eq!(plan.max_bitrate_kbps, 50000);
    assert_eq!(plan.min_bitrate_kbps, 200);
    assert_eq!(adaptive_bitrate_step(&plan, 0, 1000), Some(200));
    assert_eq!(adaptive_bitrate_step(&plan, 0, 200), None);
    assert_eq!(adaptive_bitrate_step(&plan, 2, 1000), Some(1100));
    assert_eq!(adaptive_bitrate_step(&plan, 2, 30000), None);
    assert_eq!(adaptive_bitrate_step(&plan, 1, 5), None);
}

#[test]
fn capture_loop_decisions() {
    assert_eq!(share_capture_tick(true, true, false), ShareCaptureTick::Exit);
    assert_eq!(share_capture_tick(false, true, false), ShareCaptureTick::PauseThenWait);
    assert_eq!(share_capture_tick(false, true, true), ShareCaptureTick::Wait);
    assert_eq!(share_capture_tick(false, false, true), ShareCaptureTick::ResumeThenCapture);
    assert_eq!(share_capture_tick(false, false, false), ShareCaptureTick::Capture);
    assert_eq!(frame_pacing_wait_nanos(3_000_000), 30_000_000);
    assert_eq!(frame_pacing_wait_nanos(40_000_000), 0);
    assert!(bitrate_check_due(true, 2000));
    assert!(!bitrate_check_due(true, 1999));
    assert!(!bitrate_check_due(false, 5000));
}

#[test]
fn bitrate_cooldown_on_controller_clock() {
    let mut ctrl = make_controller();
    let mut reports = make_reports();
    reports.update_at("v1", 100, 10, 50_000);
    // Congested on the reports' clock: halve, decrease at controller time 1_000.
    assert_eq!(ctrl.update_at(&reports, 2000, 1, 50_000, 1_000), Some(1000));
    // Reports now stale; within the cooldown on the controller's clock: hold.
    assert_eq!(ctrl.update_at(&reports, 1000, 1, 70_000, 3_000), None);
    // Past the cooldown on the controller's clock: raise, whatever the reports' clock reads.
    assert_eq!(ctrl.update_at(&reports, 1000, 1, 70_000, 20_000), Some(1100));
}
