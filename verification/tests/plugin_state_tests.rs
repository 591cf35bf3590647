use cosmic_connect_plugins::ping::PingPlugin;
use cosmic_connect_plugins::power::PowerPlugin;
use cosmic_connect_plugins::runcommand::RunCommandPlugin;
use cosmic_connect_plugins::screenshot::{detect_display_server, DisplayServer, ScreenshotPlugin};
use cosmic_connect_plugins::share::SharePlugin;
use cosmic_connect_plugins::systemvolume::{
    SinkInfo, SystemVolumePlugin, PACKET_TYPE_SYSTEMVOLUME, PACKET_TYPE_SYSTEMVOLUME_REQUEST,
};

#[test]
fn test_create_ping_with_message() {
    let plugin = PingPlugin::new();
    let ping = plugin.create_ping(Some("Hello!".to_string()));

    assert_eq!(ping.message.as_deref(), Some("Hello!"));
}

#[test]
fn test_create_ping_without_message() {
    let plugin = PingPlugin::new();
    let ping = plugin.create_ping(None);

    assert!(ping.message.is_none());
}

#[test]
fn test_plugin_capabilities() {
    let plugin = PowerPlugin::new();

    let incoming = plugin.incoming_capabilities();
    assert_eq!(incoming.len(), 6);
    assert!(incoming.contains(&"cconnect.power.request".to_string()));
    assert!(incoming.contains(&"cconnect.power.inhibit".to_string()));
    assert!(incoming.contains(&"cconnect.power.query".to_string()));
    assert!(incoming.contains(&"kdeconnect.power.request".to_string()));
    assert!(incoming.contains(&"kdeconnect.power.inhibit".to_string()));
    assert!(incoming.contains(&"kdeconnect.power.query".to_string()));

    let outgoing = plugin.outgoing_capabilities();
    assert_eq!(outgoing.len(), 1);
    assert!(outgoing.contains(&"cconnect.power.status".to_string()));
}

#[test]
fn runcommand_test_plugin_creation() {
    let plugin = RunCommandPlugin::new();
    assert_eq!(plugin.name(), "runcommand");
}

#[test]
fn runcommand_test_capabilities() {
    let plugin = RunCommandPlugin::new();

    let incoming = plugin.incoming_capabilities();
    assert_eq!(incoming.len(), 1);
    assert_eq!(incoming[0], "cconnect.runcommand.request");

    let outgoing = plugin.outgoing_capabilities();
    assert_eq!(outgoing.len(), 1);
    assert_eq!(outgoing[0], "cconnect.runcommand");
}

#[test]
fn screenshot_test_plugin_creation() {
    let plugin = ScreenshotPlugin::new();
    assert_eq!(plugin.name(), "screenshot");
    assert!(plugin.is_enabled());
}

#[test]
fn screenshot_test_capabilities() {
    let plugin = ScreenshotPlugin::new();

    let incoming = plugin.incoming_capabilities();
    assert_eq!(incoming.len(), 6);
    assert!(incoming.contains(&"cconnect.screenshot.request".to_string()));
    assert!(incoming.contains(&"cconnect.screenshot.region".to_string()));
    assert!(incoming.contains(&"cconnect.screenshot.window".to_string()));
    assert!(incoming.contains(&"kdeconnect.screenshot.request".to_string()));
    assert!(incoming.contains(&"kdeconnect.screenshot.region".to_string()));
    assert!(incoming.contains(&"kdeconnect.screenshot.window".to_string()));

    let outgoing = plugin.outgoing_capabilities();
    assert_eq!(outgoing.len(), 1);
    assert!(outgoing.contains(&"cconnect.screenshot.data".to_string()));
}

#[test]
fn test_detect_display_server() {
    for (wayland, x11) in [(true, true), (true, false), (false, true), (false, false)] {
        let display_server = detect_display_server(wayland, x11);
        assert!(matches!(
            display_server,
            DisplayServer::Wayland | DisplayServer::X11 | DisplayServer::Unknown
        ));
    }
    assert!(matches!(detect_display_server(true, true), DisplayServer::Wayland));
    assert!(matches!(detect_display_server(false, true), DisplayServer::X11));
    assert!(matches!(detect_display_server(false, false), DisplayServer::Unknown));
}

#[test]
fn share_test_plugin_creation() {
    let plugin = SharePlugin::new();
    assert_eq!(plugin.name(), "share");
    assert_eq!(plugin.share_count(), 0);
}

#[test]
fn share_test_capabilities() {
    let plugin = SharePlugin::new();

    let incoming = plugin.incoming_capabilities();
    assert_eq!(incoming.len(), 2);
    assert!(incoming.contains(&"cconnect.share.request".to_string()));
    assert!(incoming.contains(&"cconnect.share.request.update".to_string()));

    let outgoing = plugin.outgoing_capabilities();
    assert_eq!(outgoing.len(), 2);
    assert!(outgoing.contains(&"cconnect.share.request".to_string()));
    assert!(outgoing.contains(&"cconnect.share.request.update".to_string()));
}

fn create_test_sink(id: u32, name: &str, volume: i32, muted: bool, is_default: bool) -> SinkInfo {
    SinkInfo {
        name: id.to_string(),
        description: name.to_string(),
        volume,
        muted,
        max_volume: 150,
        enabled: is_default,
    }
}

#[test]
fn systemvolume_test_plugin_creation() {
    let plugin = SystemVolumePlugin::new();
    assert_eq!(plugin.name(), "systemvolume");
    assert_eq!(plugin.sink_count(), 0);
    assert!(!plugin.has_sinks());
}

#[test]
fn systemvolume_test_capabilities() {
    let plugin = SystemVolumePlugin::new();

    let incoming = plugin.incoming_capabilities();
    assert_eq!(incoming.len(), 2);
    assert!(incoming.contains(&PACKET_TYPE_SYSTEMVOLUME_REQUEST.to_string()));
    assert!(incoming.contains(&"kdeconnect.systemvolume.request".to_string()));

    let outgoing = plugin.outgoing_capabilities();
    assert_eq!(outgoing.len(), 2);
    assert!(outgoing.contains(&PACKET_TYPE_SYSTEMVOLUME.to_string()));
    assert!(outgoing.contains(&"kdeconnect.systemvolume".to_string()));
}

#[test]
fn test_sink_cache() {
    let mut plugin = SystemVolumePlugin::new();

    let sinks = vec![
        create_test_sink(50, "Speaker", 75, false, true),
        create_test_sink(51, "Headphones", 50, true, false),
    ];
    let id_map = vec![("50".to_string(), 50), ("51".to_string(), 51)];

    plugin.update_sink_cache(sinks, id_map);

    assert_eq!(plugin.sink_count(), 2);
    assert!(plugin.has_sinks());

    let sink = plugin.get_sink("50").unwrap();
    assert_eq!(sink.description, "Speaker");
    assert_eq!(sink.volume, 75);
    assert!(!sink.muted);
    assert!(sink.enabled);

    let default = plugin.get_default_sink().unwrap();
    assert_eq!(default.name, "50");

    assert_eq!(plugin.get_volume("50"), Some(75));
    assert_eq!(plugin.get_volume("51"), Some(50));

    assert_eq!(plugin.is_muted("50"), Some(false));
    assert_eq!(plugin.is_muted("51"), Some(true));
}

#[test]
fn test_get_sinks() {
    let mut plugin = SystemVolumePlugin::new();

    let sinks = vec![
        create_test_sink(50, "Speaker", 75, false, true),
        create_test_sink(51, "Headphones", 50, false, false),
        create_test_sink(52, "Monitor", 100, false, false),
    ];
    let id_map = vec![("50".to_string(), 50), ("51".to_string(), 51), ("52".to_string(), 52)];

    plugin.update_sink_cache(sinks, id_map);

    let all_sinks = plugin.get_sinks();
    assert_eq!(all_sinks.len(), 3);
}

#[test]
fn test_get_sink_not_found() {
    let plugin = SystemVolumePlugin::new();
    assert!(plugin.get_sink("nonexistent").is_none());
    assert!(plugin.get_volume("nonexistent").is_none());
    assert!(plugin.is_muted("nonexistent").is_none());
}

#[test]
fn test_get_default_sink_none() {
    let mut plugin = SystemVolumePlugin::new();

    let sinks = vec![
        create_test_sink(50, "Speaker", 75, false, false),
        create_test_sink(51, "Headphones", 50, false, false),
    ];
    let id_map = vec![("50".to_string(), 50), ("51".to_string(), 51)];

    plugin.update_sink_cache(sinks, id_map);

    assert!(plugin.get_default_sink().is_none());
}

#[test]
fn test_get_sink_id() {
    let mut plugin = SystemVolumePlugin::new();

    assert_eq!(plugin.get_sink_id("50"), Some(50));
    assert_eq!(plugin.get_sink_id("123"), Some(123));

    assert!(plugin.get_sink_id("Speaker").is_none());

    let sinks = vec![create_test_sink(99, "Speaker", 75, false, true)];
    let id_map = vec![("Speaker".to_string(), 99)];
    plugin.update_sink_cache(sinks, id_map);

    assert_eq!(plugin.get_sink_id("Speaker"), Some(99));
}
