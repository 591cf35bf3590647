use base64::Engine;
use cosmic_connect_plugins::notification::{
    Notification, NotificationAction, NotificationLink, NotificationMessage, NotificationPlugin,
    NotificationPluginFactory, NotificationUrgency,
};

#[test]
fn test_notification_new() {
    let notif = Notification::new("123", "Messages", "Title", "Text", true);
    assert_eq!(notif.id, "123");
    assert_eq!(notif.app_name, "Messages");
    assert_eq!(notif.title, "Title");
    assert_eq!(notif.text, "Text");
    assert!(notif.is_clearable);
}

#[test]
fn test_notification_is_silent() {
    let mut notif = Notification::new("1", "App", "Title", "Text", true);
    assert!(!notif.is_silent());

    notif.silent = Some("true".to_string());
    assert!(notif.is_silent());

    notif.silent = Some("false".to_string());
    assert!(!notif.is_silent());
}

#[test]
fn test_notification_is_repliable() {
    let mut notif = Notification::new("1", "App", "Title", "Text", true);
    assert!(!notif.is_repliable());

    notif.request_reply_id = Some("reply-uuid".to_string());
    assert!(notif.is_repliable());
}

#[test]
fn test_notification_has_actions() {
    let mut notif = Notification::new("1", "App", "Title", "Text", true);
    assert!(!notif.has_actions());

    notif.actions = Some(vec![]);
    assert!(!notif.has_actions());

    notif.actions = Some(vec!["Reply".to_string()]);
    assert!(notif.has_actions());
}

#[test]
fn notification_test_plugin_creation() {
    let plugin = NotificationPlugin::new();
    assert_eq!(plugin.name(), "notification");
    assert_eq!(plugin.notification_count(), 0);
}

#[test]
fn notification_test_capabilities() {
    let plugin = NotificationPlugin::new();

    let incoming = plugin.incoming_capabilities();
    assert_eq!(incoming.len(), 8);
    assert!(incoming.contains(&"cconnect.notification".to_string()));
    assert!(incoming.contains(&"cconnect.notification.request".to_string()));
    assert!(incoming.contains(&"cconnect.notification.action".to_string()));
    assert!(incoming.contains(&"cconnect.notification.reply".to_string()));
    assert!(incoming.contains(&"kdeconnect.notification".to_string()));
    assert!(incoming.contains(&"kdeconnect.notification.request".to_string()));
    assert!(incoming.contains(&"kdeconnect.notification.action".to_string()));
    assert!(incoming.contains(&"kdeconnect.notification.reply".to_string()));

    let outgoing = plugin.outgoing_capabilities();
    assert_eq!(outgoing.len(), 4);
}

#[test]
fn test_notification_link_creation() {
    let link = NotificationLink::new("https://example.com", Some("Example"), 0, 7);

    assert_eq!(link.url, "https://example.com");
    assert_eq!(link.title, Some("Example".to_string()));
    assert_eq!(link.start, 0);
    assert_eq!(link.length, 7);
}

#[test]
fn test_notification_has_rich_content() {
    let mut notif = Notification::new("1", "App", "Title", "Text", true);
    assert!(!notif.has_rich_content());

    notif.rich_body = Some("<b>Rich</b>".to_string());
    assert!(notif.has_rich_content());
}

#[test]
fn test_notification_has_image() {
    let mut notif = Notification::new("1", "App", "Title", "Text", true);
    assert!(!notif.has_image());

    notif.image_data = Some("base64data".to_string());
    assert!(notif.has_image());

    notif.image_data = None;
    notif.sender_avatar = Some("avatar".to_string());
    assert!(notif.has_image());
}

#[test]
fn test_notification_has_links() {
    let mut notif = Notification::new("1", "App", "Title", "Text", true);
    assert!(!notif.has_links());

    notif.links = Some(vec![]);
    assert!(!notif.has_links());

    notif.links = Some(vec![NotificationLink::new("https://example.com", None, 0, 10)]);
    assert!(notif.has_links());
}

#[test]
fn test_notification_urgency() {
    assert_eq!(NotificationUrgency::Low.to_byte(), 0);
    assert_eq!(NotificationUrgency::Normal.to_byte(), 1);
    assert_eq!(NotificationUrgency::Critical.to_byte(), 2);

    assert_eq!(NotificationUrgency::from_byte(0), NotificationUrgency::Low);
    assert_eq!(NotificationUrgency::from_byte(1), NotificationUrgency::Normal);
    assert_eq!(NotificationUrgency::from_byte(2), NotificationUrgency::Critical);
    assert_eq!(NotificationUrgency::from_byte(99), NotificationUrgency::Normal);
}

#[test]
fn test_notification_action_creation() {
    let action = NotificationAction::new("reply", "Reply");
    assert_eq!(action.id, "reply");
    assert_eq!(action.label, "Reply");
}

#[test]
fn test_notification_get_urgency() {
    let mut notif = Notification::new("1", "App", "Title", "Text", true);
    assert_eq!(notif.get_urgency(), NotificationUrgency::Normal);

    notif.urgency = Some(0);
    assert_eq!(notif.get_urgency(), NotificationUrgency::Low);

    notif.urgency = Some(2);
    assert_eq!(notif.get_urgency(), NotificationUrgency::Critical);
}

#[test]
fn test_notification_has_app_icon() {
    let mut notif = Notification::new("1", "App", "Title", "Text", true);
    assert!(!notif.has_app_icon());

    notif.app_icon = Some("base64icon".to_string());
    assert!(notif.has_app_icon());
}

#[test]
fn test_notification_has_action_buttons() {
    let mut notif = Notification::new("1", "App", "Title", "Text", true);
    assert!(!notif.has_action_buttons());

    notif.action_buttons = Some(vec![]);
    assert!(!notif.has_action_buttons());

    notif.action_buttons = Some(vec![NotificationAction::new("reply", "Reply")]);
    assert!(notif.has_action_buttons());
}

#[test]
fn notification_store_insert_then_lookup() {
    let mut plugin = NotificationPlugin::new();
    plugin.insert_notification(Notification::new("a", "App", "First", "one", true));
    plugin.insert_notification(Notification::new("b", "App", "Second", "two", true));
    plugin.insert_notification(Notification::new("a", "App", "Replaced", "three", true));
    assert_eq!(plugin.notification_count(), 2);
    assert_eq!(plugin.get_notification("a").unwrap().title, "Replaced");
    assert_eq!(plugin.get_notification("b").unwrap().title, "Second");
    assert!(plugin.get_notification("c").is_none());
}

#[test]
fn notification_cancel_removes() {
    let mut plugin = NotificationPlugin::new();
    plugin.handle_notification(NotificationMessage::Posted(Notification::new("x", "App", "T", "B", true)));
    assert_eq!(plugin.notification_count(), 1);
    plugin.handle_notification(NotificationMessage::Cancel { id: "x".to_string() });
    assert_eq!(plugin.notification_count(), 0);
    assert!(plugin.get_notification("x").is_none());
}

#[test]
fn notification_image_bytes_decode_base64() {
    let mut notif = Notification::new("1", "App", "Title", "Text", true);
    notif.image_data = Some("aGVsbG8=".to_string());
    assert_eq!(notif.get_image_bytes(), Some(b"hello".to_vec()));
    notif.image_data = Some("***".to_string());
    assert_eq!(notif.get_image_bytes(), None);
}

#[test]
fn notification_desktop_packet_fields() {
    let actions = vec![("open".to_string(), "Open".to_string())];
    let n = NotificationPlugin::desktop_notification(
        "Mail",
        "New mail",
        "Hello there",
        1700000000000,
        Some(b"hi".as_slice()),
        &actions,
        Some(NotificationUrgency::Critical),
        Some("email"),
        None,
    );
    assert_eq!(n.id, "desktop-Mail-1700000000000");
    assert_eq!(n.app_name, "Mail");
    assert_eq!(n.title, "New mail");
    assert_eq!(n.time, Some("1700000000000".to_string()));
    assert_eq!(n.image_data, Some("aGk=".to_string()));
    assert_eq!(n.urgency, Some(2));
    assert!(n.has_action_buttons());
}

#[test]
fn notification_desktop_body_truncated() {
    let body = "a".repeat(2500);
    let n = NotificationPlugin::desktop_notification("App", "S", &body, -5, None, &[], None, None, None);
    assert!(n.text.len() <= 2003);
    assert!(n.text.starts_with(&"a".repeat(2000)));
    assert_eq!(n.time, Some("-5".to_string()));
}

#[test]
fn notification_factory_name() {
    let factory = NotificationPluginFactory;
    assert_eq!(factory.name(), "notification");
    assert_eq!(factory.create().notification_count(), 0);
}

fn encode(data: &[u8]) -> String {
    base64::engine::general_purpose::STANDARD.encode(data)
}

fn decode(text: &str) -> Vec<u8> {
    base64::engine::general_purpose::STANDARD.decode(text).unwrap()
}

#[test]
fn test_rich_notification_creation() {
    let mut notif = Notification::new("123", "App", "Title", "Text", true);
    notif.rich_body = Some("<b>Bold</b> and <i>italic</i> text".to_string());
    notif.image_data = Some(encode(b"fake image data"));
    notif.links = Some(vec![NotificationLink::new("https://example.com", Some("Link"), 0, 4)]);

    assert!(notif.has_rich_content());
    assert!(notif.has_image());
    assert!(notif.has_links());
}

#[test]
fn test_notification_image_decoding() {
    let mut notif = Notification::new("123", "App", "Title", "Text", true);
    let image_data = b"fake image data";
    notif.image_data = Some(encode(image_data));

    let decoded = notif.get_image_bytes().unwrap();
    assert_eq!(decoded, image_data);
}

#[test]
fn test_notification_sender_avatar_fallback() {
    let mut notif = Notification::new("123", "App", "Title", "Text", true);
    let avatar_data = b"avatar data";
    notif.sender_avatar = Some(encode(avatar_data));

    let decoded = notif.get_image_bytes().unwrap();
    assert_eq!(decoded, avatar_data);
}

#[test]
fn test_notification_video_thumbnail_decoding() {
    let mut notif = Notification::new("123", "App", "Title", "Text", true);
    let thumbnail_data = b"thumbnail data";
    notif.video_thumbnail = Some(encode(thumbnail_data));

    let decoded = notif.get_video_thumbnail_bytes().unwrap();
    assert_eq!(decoded, thumbnail_data);
}

#[test]
fn test_notification_get_app_icon_bytes() {
    let mut notif = Notification::new("1", "App", "Title", "Text", true);
    let icon_data = b"icon bytes";
    notif.app_icon = Some(encode(icon_data));

    let decoded = notif.get_app_icon_bytes().unwrap();
    assert_eq!(decoded, icon_data);
}

#[test]
fn test_get_image_bytes_app_icon_fallback() {
    let mut notif = Notification::new("1", "App", "Title", "Text", true);

    assert!(notif.get_image_bytes().is_none());
    assert!(!notif.has_image());

    let icon_data = b"app icon data";
    notif.app_icon = Some(encode(icon_data));
    assert!(notif.has_image());
    assert_eq!(notif.get_image_bytes().unwrap(), icon_data);

    let avatar_data = b"sender avatar data";
    notif.sender_avatar = Some(encode(avatar_data));
    assert_eq!(notif.get_image_bytes().unwrap(), avatar_data);

    let image_data = b"main image data";
    notif.image_data = Some(encode(image_data));
    assert_eq!(notif.get_image_bytes().unwrap(), image_data);
}

#[test]
fn test_create_desktop_notification_packet_basic() {
    let n = NotificationPlugin::desktop_notification(
        "Thunderbird",
        "New Email",
        "You have a new message",
        1704067200000,
        None,
        &[],
        None,
        None,
        None,
    );

    assert_eq!(n.app_name, "Thunderbird");
    assert_eq!(n.title, "New Email");
    assert_eq!(n.text, "You have a new message");
    assert!(n.is_clearable);
    assert_eq!(n.silent, Some("false".to_string()));
    assert_eq!(n.time, Some("1704067200000".to_string()));

    assert!(n.id.starts_with("desktop-Thunderbird-"));

    let ticker = n.ticker.unwrap();
    assert!(ticker.contains("Thunderbird"));
    assert!(ticker.contains("New Email"));
    assert!(ticker.contains("You have a new message"));
}

#[test]
fn test_create_desktop_notification_packet_truncation() {
    let long_body = "a".repeat(2500);
    let n = NotificationPlugin::desktop_notification(
        "App",
        "Title",
        &long_body,
        1704067200000,
        None,
        &[],
        None,
        None,
        None,
    );

    assert_eq!(n.text.len(), 2003);
    assert!(n.text.ends_with("..."));
}

#[test]
fn test_create_desktop_notification_packet_with_image() {
    let image_data = b"fake image data";
    let n = NotificationPlugin::desktop_notification(
        "App",
        "Title",
        "Body",
        1704067200000,
        Some(image_data.as_slice()),
        &[],
        None,
        None,
        None,
    );

    let encoded = n.image_data.unwrap();
    assert_eq!(decode(&encoded), image_data);
}

#[test]
fn test_create_desktop_notification_packet_with_actions() {
    let actions = vec![
        ("reply".to_string(), "Reply".to_string()),
        ("mark_read".to_string(), "Mark as Read".to_string()),
    ];

    let n = NotificationPlugin::desktop_notification(
        "App",
        "Title",
        "Body",
        1704067200000,
        None,
        &actions,
        None,
        None,
        None,
    );

    let action_labels = n.actions.unwrap();
    assert_eq!(action_labels.len(), 2);
    assert_eq!(action_labels[0], "Reply");
    assert_eq!(action_labels[1], "Mark as Read");

    let action_buttons = n.action_buttons.unwrap();
    assert_eq!(action_buttons.len(), 2);
    assert_eq!(action_buttons[0].id, "reply");
    assert_eq!(action_buttons[0].label, "Reply");
    assert_eq!(action_buttons[1].id, "mark_read");
    assert_eq!(action_buttons[1].label, "Mark as Read");
}

#[test]
fn test_create_desktop_notification_packet_complete() {
    let image_data = b"image bytes";
    let app_icon_data = b"icon bytes";
    let actions = vec![("reply".to_string(), "Reply".to_string())];

    let n = NotificationPlugin::desktop_notification(
        "Signal",
        "New Message",
        "Hello from Signal",
        1704067200000,
        Some(image_data.as_slice()),
        &actions,
        Some(NotificationUrgency::Normal),
        Some("im"),
        Some(app_icon_data.as_slice()),
    );

    assert_eq!(n.app_name, "Signal");
    assert_eq!(n.title, "New Message");
    assert_eq!(n.text, "Hello from Signal");
    assert!(n.actions.is_some());
    assert!(n.action_buttons.is_some());
    assert_eq!(n.urgency, Some(1));
    assert_eq!(n.category, Some("im".to_string()));

    assert_eq!(decode(n.image_data.as_ref().unwrap()), image_data);
    assert_eq!(decode(n.app_icon.as_ref().unwrap()), app_icon_data);
}

#[test]
fn test_desktop_notification_with_urgency_levels() {
    let low = NotificationPlugin::desktop_notification(
        "App", "Title", "Body", 1704067200000, None, &[], Some(NotificationUrgency::Low), None, None,
    );
    assert_eq!(low.urgency, Some(0));

    let normal = NotificationPlugin::desktop_notification(
        "App", "Title", "Body", 1704067200000, None, &[], Some(NotificationUrgency::Normal), None, None,
    );
    assert_eq!(normal.urgency, Some(1));

    let critical = NotificationPlugin::desktop_notification(
        "App", "Title", "Body", 1704067200000, None, &[], Some(NotificationUrgency::Critical), None, None,
    );
    assert_eq!(critical.urgency, Some(2));
}

#[test]
fn test_desktop_notification_with_category() {
    let n = NotificationPlugin::desktop_notification(
        "Thunderbird",
        "New Email",
        "You have mail",
        1704067200000,
        None,
        &[],
        None,
        Some("email"),
        None,
    );

    assert_eq!(n.category, Some("email".to_string()));
}

#[test]
fn test_desktop_notification_backward_compatibility() {
    let n = NotificationPlugin::desktop_notification(
        "App", "Title", "Body", 1704067200000, None, &[], None, None, None,
    );

    assert!(!n.id.is_empty());
    assert_eq!(n.app_name, "App");
    assert_eq!(n.title, "Title");
    assert_eq!(n.text, "Body");

    assert!(n.urgency.is_none());
    assert!(n.category.is_none());
    assert!(n.app_icon.is_none());
    assert!(n.action_buttons.is_none());
}

#[test]
fn notification_desktop_body_truncated_by_characters() {
    let body = "é".repeat(2500);
    let n = NotificationPlugin::desktop_notification("App", "S", &body, 1, None, &[], None, None, None);
    assert_eq!(n.text, format!("{}...", "é".repeat(2000)));
    let short = "ü".repeat(2000);
    let m = NotificationPlugin::desktop_notification("App", "S", &short, 1, None, &[], None, None, None);
    assert_eq!(m.text, short);
}

#[test]
fn notification_image_round_trips_through_base64() {
    let cases: [&[u8]; 5] = [b"a", b"ab", b"abc", b"abcd", b"\x00\xff\x10\x80\x7f"];
    for image_data in cases {
        let n = NotificationPlugin::desktop_notification(
            "App", "Title", "Body", 1704067200000, Some(image_data), &[], None, None, None,
        );
        let mut notif = Notification::new("123", "App", "Title", "Text", true);
        notif.image_data = n.image_data;
        assert_eq!(notif.get_image_bytes().unwrap(), image_data);
    }
}

#[test]
fn notification_non_canonical_base64_refused() {
    let mut notif = Notification::new("123", "App", "Title", "Text", true);
    notif.app_icon = Some("aGk".to_string());
    assert_eq!(notif.get_app_icon_bytes(), None);
    notif.app_icon = Some("aGl=".to_string());
    assert_eq!(notif.get_app_icon_bytes(), None);
    notif.app_icon = Some("aGk=".to_string());
    assert_eq!(notif.get_app_icon_bytes().unwrap(), b"hi");
}
