use cosmic_connect_plugins::ping::{PingPlugin, PingPluginFactory};
use cosmic_connect_plugins::power::{
    BatteryState, InhibitMode, InhibitType, PowerAction, PowerPacket, PowerPlugin, PowerPluginFactory, PowerStep,
};
use cosmic_connect_plugins::runcommand::{Command, RunCommandPlugin, RunCommandPluginFactory, RunCommandStep};
use cosmic_connect_plugins::screenshot::{
    detect_display_server, png_dimensions, scrot_args, CaptureType, DisplayServer, ScreenshotPluginFactory,
};
use cosmic_connect_plugins::share::{ShareContent, SharePlugin, ShareRecord, ShareRequest};
use cosmic_connect_plugins::systemmonitor::{MonitorRequest, SystemMonitorPlugin, SystemMonitorPluginFactory};
use cosmic_connect_plugins::systemvolume::{AudioSink, SinkInfo, SinkTarget, SystemVolumePlugin, SystemVolumeRequest, VolumeStep};
use cosmic_connect_plugins::telephony::{
    CallEvent, SmsConversation, SmsMessage, SmsMessages, TelephonyEvent, TelephonyPlugin, TelephonyPluginFactory,
    PACKET_TYPE_SMS_MESSAGES, PACKET_TYPE_SMS_REQUEST, PACKET_TYPE_TELEPHONY, PACKET_TYPE_TELEPHONY_MUTE,
};

#[test]
fn ping_test_plugin_creation() {
    let plugin = PingPlugin::new();
    assert_eq!(plugin.name(), "ping");
    assert_eq!(plugin.pings_received(), 0);
    assert_eq!(plugin.pings_sent(), 0);
}

#[test]
fn ping_test_capabilities() {
    let plugin = PingPlugin::new();

    let incoming = plugin.incoming_capabilities();
    assert_eq!(incoming.len(), 2);
    assert!(incoming.contains(&"cconnect.ping".to_string()));
    assert!(incoming.contains(&"kdeconnect.ping".to_string()));

    let outgoing = plugin.outgoing_capabilities();
    assert_eq!(outgoing.len(), 1);
    assert_eq!(outgoing[0], "cconnect.ping");
}

#[test]
fn test_statistics() {
    let mut plugin = PingPlugin::new();

    assert_eq!(plugin.pings_received(), 0);
    assert_eq!(plugin.pings_sent(), 0);

    plugin.add_received(3);
    assert_eq!(plugin.pings_received(), 3);

    plugin.add_sent(2);
    assert_eq!(plugin.pings_sent(), 2);
}

#[test]
fn ping_counts_only_pings() {
    let mut plugin = PingPluginFactory.create();
    plugin.init("device");
    for _ in 0..5 {
        assert!(plugin.handle_packet("cconnect.ping"));
    }
    assert!(!plugin.handle_packet("cconnect.battery"));
    assert_eq!(plugin.pings_received(), 5);
    assert!(plugin.create_ping(Some("Hello!".to_string())).message == Some("Hello!".to_string()));
}

#[test]
fn test_inhibit_type_what() {
    assert_eq!(InhibitType::Sleep.as_what(), "sleep");
    assert_eq!(InhibitType::Shutdown.as_what(), "shutdown");
    assert_eq!(InhibitType::Idle.as_what(), "idle");
    assert_eq!(InhibitType::All.as_what(), "sleep:shutdown:idle");
}

#[test]
fn test_inhibit_mode_str() {
    assert_eq!(InhibitMode::Block.as_str(), "block");
    assert_eq!(InhibitMode::Delay.as_str(), "delay");
}

#[test]
fn power_requests_and_inhibition() {
    let mut plugin = PowerPluginFactory.create();
    assert!(matches!(plugin.handle_packet(PowerPacket::Request { action: Some("reboot".to_string()) }), PowerStep::Nothing));
    plugin.start();
    assert!(matches!(
        plugin.handle_packet(PowerPacket::Request { action: Some("reboot".to_string()) }),
        PowerStep::Run(PowerAction::Reboot)
    ));
    assert!(matches!(plugin.handle_packet(PowerPacket::Request { action: Some("dance".to_string()) }), PowerStep::Nothing));
    match plugin.handle_packet(PowerPacket::Inhibit { inhibit: Some(true), reason: None }) {
        PowerStep::AcquireInhibitor { what, who, why, mode } => {
            assert_eq!(what, InhibitType::Sleep);
            assert_eq!(who, "COSMIC Connect");
            assert_eq!(why, "Remote device request");
            assert_eq!(mode, InhibitMode::Block);
        }
        other => panic!("unexpected step {:?}", other),
    }
    plugin.inhibit_acquired("Remote device request", false);
    assert!(plugin.is_sleep_inhibited());
    assert!(matches!(plugin.handle_packet(PowerPacket::Inhibit { inhibit: Some(false), reason: None }), PowerStep::ReleaseInhibitor));
    assert!(!plugin.is_sleep_inhibited());
    assert_eq!(PowerAction::Shutdown.systemctl_verb(), "poweroff");
    assert_eq!(PowerPlugin::new().name(), "power");
}

#[test]
fn test_battery_state_from_u32() {
    assert_eq!(BatteryState::from(0), BatteryState::Unknown);
    assert_eq!(BatteryState::from(1), BatteryState::Charging);
    assert_eq!(BatteryState::from(2), BatteryState::Discharging);
    assert_eq!(BatteryState::from(3), BatteryState::Empty);
    assert_eq!(BatteryState::from(4), BatteryState::FullyCharged);
    assert_eq!(BatteryState::from(5), BatteryState::PendingCharge);
    assert_eq!(BatteryState::from(6), BatteryState::PendingDischarge);
    assert_eq!(BatteryState::from(99), BatteryState::Unknown);
}

#[test]
fn test_battery_state_is_charging() {
    assert!(BatteryState::Charging.is_charging());
    assert!(BatteryState::PendingCharge.is_charging());
    assert!(!BatteryState::Discharging.is_charging());
    assert!(!BatteryState::FullyCharged.is_charging());
}

#[test]
fn test_battery_state_as_str() {
    assert_eq!(BatteryState::Charging.as_str(), "charging");
    assert_eq!(BatteryState::Discharging.as_str(), "discharging");
    assert_eq!(BatteryState::FullyCharged.as_str(), "full");
}

#[test]
fn test_command_creation() {
    let cmd = Command::new("List Files", "ls -la");
    assert_eq!(cmd.name, "List Files");
    assert_eq!(cmd.command, "ls -la");
}

#[test]
fn runcommand_test_factory() {
    let factory = RunCommandPluginFactory;
    assert_eq!(factory.name(), "runcommand");

    let plugin = factory.create();
    assert_eq!(plugin.name(), "runcommand");
}

#[test]
fn runcommand_store_and_requests() {
    let mut plugin = RunCommandPlugin::new();
    plugin.add_command("ls", "List Files", "ls -la");
    plugin.add_command("up", "Uptime", "uptime");
    plugin.add_command("ls", "List All", "ls -a");
    assert_eq!(plugin.get_commands().len(), 2);
    assert_eq!(plugin.get_command("ls").unwrap().command, "ls -a");
    assert!(plugin.remove_command("up").is_ok());
    assert!(plugin.remove_command("up").is_err());
    assert!(matches!(plugin.handle_request(true, Some("ls")), RunCommandStep::SendCommandList));
    match plugin.handle_request(false, Some("ls")) {
        RunCommandStep::Execute { id, command_line } => {
            assert_eq!(id, "ls");
            assert_eq!(command_line, "ls -a");
        }
        other => panic!("unexpected {:?}", other),
    }
    assert!(matches!(plugin.handle_request(false, Some("nope")), RunCommandStep::UnknownCommand(_)));
    assert!(matches!(plugin.handle_request(false, None), RunCommandStep::Nothing));
    plugin.command_started();
    assert_eq!(plugin.commands_executed(), 1);
    plugin.clear_commands();
    assert!(plugin.get_commands().is_empty());
}

#[test]
fn screenshot_test_factory() {
    let factory = ScreenshotPluginFactory;
    assert_eq!(factory.name(), "screenshot");

    let plugin = factory.create();
    assert_eq!(plugin.name(), "screenshot");
}

#[test]
fn screenshot_decisions() {
    assert_eq!(detect_display_server(true, true), DisplayServer::Wayland);
    assert_eq!(detect_display_server(false, true), DisplayServer::X11);
    assert_eq!(detect_display_server(false, false), DisplayServer::Unknown);
    let mut header = [0u8; 24];
    header[..8].copy_from_slice(b"\x89PNG\r\n\x1a\n");
    header[16..20].copy_from_slice(&1920u32.to_be_bytes());
    header[20..24].copy_from_slice(&1080u32.to_be_bytes());
    assert_eq!(png_dimensions(&header), Some((1920, 1080)));
    header[0] = 0;
    assert_eq!(png_dimensions(&header), None);
    let args = scrot_args(&CaptureType::Region { x: -5, y: 10, width: 800, height: 600 });
    assert_eq!(args, vec!["-a".to_string(), "-5,10,800,600".to_string()]);
    assert!(scrot_args(&CaptureType::FullScreen).is_empty());
}

#[test]
fn systemmonitor_test_plugin_creation() {
    let plugin = SystemMonitorPlugin::new();
    assert_eq!(plugin.name(), "systemmonitor");
    assert!(plugin.handle_packet("cconnect.systemmonitor.request", None, None).is_some());
}

#[test]
fn systemmonitor_test_capabilities() {
    let plugin = SystemMonitorPlugin::new();

    let incoming = plugin.incoming_capabilities();
    assert_eq!(incoming.len(), 1);
    assert!(incoming.contains(&"cconnect.systemmonitor.request".to_string()));

    let outgoing = plugin.outgoing_capabilities();
    assert_eq!(outgoing.len(), 2);
    assert!(outgoing.contains(&"cconnect.systemmonitor.stats".to_string()));
    assert!(outgoing.contains(&"cconnect.systemmonitor.processes".to_string()));
}

#[test]
fn systemmonitor_test_factory() {
    let factory = SystemMonitorPluginFactory;
    assert_eq!(factory.name(), "systemmonitor");

    let plugin = factory.create();
    assert_eq!(plugin.name(), "systemmonitor");
}

#[test]
fn systemmonitor_requests() {
    let mut plugin = SystemMonitorPlugin::new();
    assert_eq!(plugin.handle_packet("cconnect.systemmonitor.request", None, None), Some(MonitorRequest::Stats));
    assert_eq!(
        plugin.handle_packet("cconnect.systemmonitor.request", Some("processes"), None),
        Some(MonitorRequest::Processes { limit: 10 })
    );
    assert_eq!(plugin.handle_packet("cconnect.systemmonitor.request", Some("x"), None), Some(MonitorRequest::Unknown));
    plugin.stop();
    assert_eq!(plugin.handle_packet("cconnect.systemmonitor.request", None, None), None);
}

#[test]
fn test_sink_info_from_audio_sink() {
    let audio_sink = AudioSink {
        id: 50,
        name: "Test Speaker".to_string(),
        volume: 75,
        muted: false,
        is_default: true,
        max_volume: 150,
    };

    let sink_info: SinkInfo = SinkInfo::from_audio_sink(audio_sink);
    assert_eq!(sink_info.name, "50");
    assert_eq!(sink_info.description, "Test Speaker");
    assert_eq!(sink_info.volume, 75);
    assert!(!sink_info.muted);
    assert!(sink_info.enabled);
    assert_eq!(sink_info.max_volume, 150);
}

#[test]
fn systemvolume_cache_and_requests() {
    let mut plugin = SystemVolumePlugin::new();
    let sink = |id: u32, name: &str, default: bool| {
        SinkInfo::from_audio_sink(AudioSink { id, name: name.to_string(), volume: 40, muted: false, is_default: default, max_volume: 150 })
    };
    plugin.update_sink_cache(
        vec![sink(1, "Speakers", false), sink(2, "Headset", true)],
        vec![("speakers".to_string(), 1), ("headset".to_string(), 2)],
    );
    assert_eq!(plugin.sink_count(), 2);
    assert_eq!(plugin.get_default_sink().unwrap().name, "2");
    assert_eq!(plugin.get_volume("1"), Some(40));
    assert_eq!(plugin.is_muted("3"), None);
    assert_eq!(plugin.get_sink_id("42"), Some(42));
    assert_eq!(plugin.get_sink_id("+7"), Some(7));
    assert_eq!(plugin.get_sink_id("headset"), Some(2));
    assert_eq!(plugin.get_sink_id("unknown"), None);
    let step = plugin.handle_volume_request(SystemVolumeRequest {
        name: Some("speakers".to_string()),
        volume: Some(80),
        muted: None,
        enabled: None,
        request_sinks: false,
    });
    match step {
        VolumeStep::Apply { target: SinkTarget::Id(1), volume: Some(80), muted: None } => {}
        other => panic!("unexpected {:?}", other),
    }
    let step = plugin.handle_volume_request(SystemVolumeRequest { name: None, volume: None, muted: Some(true), enabled: None, request_sinks: true });
    assert!(matches!(step, VolumeStep::SendSinkList));
}

#[test]
fn test_call_event_conversion() {
    assert_eq!(CallEvent::Ringing.as_str(), "ringing");
    assert_eq!(CallEvent::from_str("talking"), Some(CallEvent::Talking));
    assert_eq!(CallEvent::from_str("invalid"), None);
}

#[test]
fn telephony_test_factory() {
    let factory = TelephonyPluginFactory;
    assert_eq!(factory.name(), "telephony");

    let incoming = factory.incoming_capabilities();
    assert!(incoming.contains(&PACKET_TYPE_TELEPHONY.to_string()));
    assert!(incoming.contains(&PACKET_TYPE_SMS_MESSAGES.to_string()));

    let outgoing = factory.outgoing_capabilities();
    assert!(outgoing.contains(&PACKET_TYPE_TELEPHONY_MUTE.to_string()));
    assert!(outgoing.contains(&PACKET_TYPE_SMS_REQUEST.to_string()));

    let plugin = factory.create();
    assert_eq!(plugin.name(), "telephony");
}

fn call(event: &str, number: &str) -> TelephonyEvent {
    TelephonyEvent { event: event.to_string(), phone_number: Some(number.to_string()), contact_name: None, message_body: None }
}

#[test]
fn telephony_call_state_transitions() {
    let mut plugin = TelephonyPlugin::new();
    assert!(!plugin.is_ringing());
    plugin.handle_telephony_event(call("ringing", "+1234567890"));
    assert!(plugin.is_ringing());
    assert!(!plugin.has_active_call());
    plugin.handle_telephony_event(call("talking", "+1234567890"));
    assert!(!plugin.is_ringing());
    assert!(plugin.has_active_call());
    plugin.clear_current_call();
    assert!(plugin.get_current_call().is_none());
    plugin.handle_telephony_event(call("missedCall", "+1"));
    assert!(plugin.get_current_call().is_none());
    assert_eq!(plugin.call_history_count(), 2);
    assert_eq!(plugin.missed_call_count(), 1);
}

#[test]
fn telephony_history_limit_newest_first() {
    let mut plugin = TelephonyPlugin::with_max_history(3);
    for i in 0..5 {
        plugin.handle_telephony_event(call("ringing", &format!("+123456789{}", i)));
    }
    assert_eq!(plugin.call_history_count(), 3);
    assert_eq!(plugin.get_call_history()[0].phone_number.as_deref(), Some("+1234567894"));
}

#[test]
fn telephony_signals_need_sender() {
    let mut plugin = TelephonyPlugin::new();
    assert!(plugin.handle_telephony_event(call("ringing", "+1")).is_empty());
    plugin.init("phone");
    assert_eq!(plugin.handle_telephony_event(call("ringing", "+1")).len(), 1);
    assert!(plugin.handle_telephony_event(call("sms", "+1")).is_empty());
}

fn message(id: i64, thread: i64, body: &str, read: i32) -> SmsMessage {
    SmsMessage { id, thread_id: thread, address: "+1".to_string(), body: body.to_string(), date: 1700000000000, message_type: 1, read }
}

#[test]
fn telephony_sms_conversations() {
    let mut plugin = TelephonyPlugin::new();
    plugin.init("phone");
    assert_eq!(plugin.conversation_count(), 0);
    let signals = plugin.handle_sms_messages(SmsMessages {
        conversations: vec![
            SmsConversation { thread_id: 1, messages: vec![message(100, 1, "Hello!", 0)] },
            SmsConversation { thread_id: 2, messages: vec![message(200, 2, "Hi there!", 1)] },
        ],
    });
    assert_eq!(signals.len(), 2);
    assert_eq!(plugin.conversation_count(), 2);
    assert_eq!(plugin.unread_sms_count(), 1);
    let conv = plugin.get_conversation(1).unwrap();
    assert_eq!(conv.thread_id, 1);
    assert_eq!(conv.messages[0].body, "Hello!");
    assert!(plugin.get_conversation(999).is_none());
    plugin.handle_sms_messages(SmsMessages { conversations: vec![SmsConversation { thread_id: 1, messages: vec![] }] });
    assert_eq!(plugin.conversation_count(), 2);
    assert_eq!(plugin.unread_sms_count(), 0);
}

#[test]
fn share_history_and_requests() {
    let mut plugin = SharePlugin::new();
    let request = |filename: Option<&str>, text: Option<&str>, url: Option<&str>| ShareRequest {
        packet_id: 1000,
        filename: filename.map(|s| s.to_string()),
        payload_size: Some(100),
        creation_time: None,
        last_modified: None,
        open: None,
        text: text.map(|s| s.to_string()),
        url: url.map(|s| s.to_string()),
        transfer_port: Some(Some(1739)),
    };
    let plan = plugin.handle_share_request(request(Some("file1.txt"), None, None), "dev", Some("10.0.0.2".to_string()));
    let plan = plan.unwrap();
    assert_eq!(plan.port, 1739);
    assert_eq!(plan.size, 100);
    assert!(plugin.handle_share_request(request(None, Some("Hello"), None), "dev", None).is_none());
    assert!(plugin.handle_share_request(request(None, None, Some("https://example.com")), "dev", None).is_none());
    assert!(plugin.handle_share_request(request(None, None, None), "dev", None).is_none());
    assert_eq!(plugin.share_count(), 3);
    let shares = plugin.get_all_shares();
    assert!(matches!(shares[0].content, ShareContent::File(_)));
    assert!(matches!(shares[1].content, ShareContent::Text(_)));
    assert!(matches!(shares[2].content, ShareContent::Url(_)));
    assert_eq!(shares[0].id, "1000");
    plugin.record_share(ShareRecord {
        id: "2".to_string(),
        device_id: "device2".to_string(),
        content: ShareContent::Text("test2".to_string()),
        timestamp: 2000,
        incoming: false,
    });
    assert_eq!(plugin.get_incoming_shares().len(), 3);
    assert_eq!(plugin.get_outgoing_shares().len(), 1);
    plugin.clear_history();
    assert_eq!(plugin.share_count(), 0);
}
