//! Notification mirroring: the notification data model, its predicates,
//! the store of active notifications, and the desktop-notification record
//! sent to remote devices.
use crate::b64::{decode_standard, encode_standard, standard_decoded, standard_encoded};
use crate::text::{decimal_signed, i64_to_decimal, owned, str_eq, string_eq_str};
use vstd::prelude::*;
use vstd::string::{StrSliceExecFns, StringExecFns};
use vstd::string::StringSliceAdditionalSpecFns;

verus! {

/// Notification urgency level (freedesktop.org levels).
#[derive(Debug, Clone, Copy, PartialEq, Eq)]
pub enum NotificationUrgency {
    /// Low priority (0).
    Low,
    /// Normal priority (1, the default).
    Normal,
    /// Critical (2).
    Critical,
}

/// The byte of each urgency level.
pub open spec fn urgency_byte(u: NotificationUrgency) -> u8 {
    match u {
        NotificationUrgency::Low => 0,
        NotificationUrgency::Normal => 1,
        NotificationUrgency::Critical => 2,
    }
}

/// The urgency a byte stands for; unknown values are `Normal`.
pub open spec fn urgency_of_byte(b: u8) -> NotificationUrgency {
    if b == 0 {
        NotificationUrgency::Low
    } else if b == 2 {
        NotificationUrgency::Critical
    } else {
        NotificationUrgency::Normal
    }
}

impl Default for NotificationUrgency {
    fn default() -> (r: Self)
        ensures
            r == NotificationUrgency::Normal,
    {
        NotificationUrgency::Normal
    }
}

impl NotificationUrgency {
    /// The urgency's byte.
    pub fn to_byte(self) -> (r: u8)
        ensures
            r == urgency_byte(self),
    {
        match self {
            NotificationUrgency::Low => 0,
            NotificationUrgency::Normal => 1,
            NotificationUrgency::Critical => 2,
        }
    }

    /// The urgency a byte stands for; unknown values give `Normal`.
    pub fn from_byte(value: u8) -> (r: Self)
        ensures
            r == urgency_of_byte(value),
    {
        match value {
            0 => Self::Low,
            2 => Self::Critical,
            _ => Self::Normal,
        }
    }
}

/// Every urgency survives the trip through its byte.
pub proof fn lemma_urgency_byte_roundtrip(u: NotificationUrgency)
    ensures
        urgency_of_byte(urgency_byte(u)) == u,
{
}

/// Notification action button.
#[derive(Debug)]
pub struct NotificationAction {
    /// Action identifier (used in action packets).
    pub id: String,
    /// User-visible label.
    pub label: String,
}

/// The characters of an action's id and label.
pub open spec fn action_view(a: NotificationAction) -> (Seq<char>, Seq<char>) {
    (a.id@, a.label@)
}

impl NotificationAction {
    /// An action with the given id and label.
    pub fn new(id: &str, label: &str) -> (r: Self)
        ensures
            r.id@ == id@,
            r.label@ == label@,
    {
        Self { id: owned(id), label: owned(label) }
    }

    /// A copy of the action.
    pub fn duplicate(&self) -> (r: Self)
        ensures
            action_view(r) == action_view(*self),
    {
        Self { id: self.id.clone(), label: self.label.clone() }
    }
}

/// Clickable link within a notification.
#[derive(Debug)]
pub struct NotificationLink {
    /// The URL to open.
    pub url: String,
    /// Optional display title.
    pub title: Option<String>,
    /// Starting position in the text (character offset).
    pub start: usize,
    /// Length of the linked text (characters).
    pub length: usize,
}

/// The characters of an optional string.
pub open spec fn opt_view(o: Option<String>) -> Option<Seq<char>> {
    match o {
        Some(s) => Some(s@),
        None => None,
    }
}

/// A copy of an optional string.
pub fn copy_opt(o: &Option<String>) -> (r: Option<String>)
    ensures
        opt_view(r) == opt_view(*o),
{
    match o {
        Some(s) => Some(s.clone()),
        None => None,
    }
}

/// The fields of a link, by value.
pub open spec fn link_view(l: NotificationLink) -> (Seq<char>, Option<Seq<char>>, usize, usize) {
    (l.url@, opt_view(l.title), l.start, l.length)
}

impl NotificationLink {
    /// A link with the given fields.
    pub fn new(url: &str, title: Option<&str>, start: usize, length: usize) -> (r: Self)
        ensures
            r.url@ == url@,
            opt_view(r.title) == (match title {
                Some(t) => Some(t@),
                None => None::<Seq<char>>,
            }),
            r.start == start,
            r.length == length,
    {
        let title = match title {
            Some(t) => Some(owned(t)),
            None => None,
        };
        Self { url: owned(url), title, start, length }
    }

    /// A copy of the link.
    pub fn duplicate(&self) -> (r: Self)
        ensures
            link_view(r) == link_view(*self),
    {
        Self { url: self.url.clone(), title: copy_opt(&self.title), start: self.start, length: self.length }
    }
}

/// The characters of each string of a list.
pub open spec fn strs_view(v: Seq<String>) -> Seq<Seq<char>> {
    Seq::new(v.len(), |i: int| v[i]@)
}

/// The characters of each string of an optional list.
pub open spec fn opt_strs_view(o: Option<Vec<String>>) -> Option<Seq<Seq<char>>> {
    match o {
        Some(v) => Some(strs_view(v@)),
        None => None,
    }
}

/// Each link of an optional list, by value.
pub open spec fn opt_links_view(o: Option<Vec<NotificationLink>>) -> Option<Seq<(Seq<char>, Option<Seq<char>>, usize, usize)>> {
    match o {
        Some(v) => Some(Seq::new(v@.len(), |i: int| link_view(v@[i]))),
        None => None,
    }
}

/// Each action of an optional list, by value.
pub open spec fn opt_actions_view(o: Option<Vec<NotificationAction>>) -> Option<Seq<(Seq<char>, Seq<char>)>> {
    match o {
        Some(v) => Some(Seq::new(v@.len(), |i: int| action_view(v@[i]))),
        None => None,
    }
}

/// A copy of a list of strings.
pub fn copy_strs(v: &Vec<String>) -> (r: Vec<String>)
    ensures
        strs_view(r@) == strs_view(v@),
{
    let mut out: Vec<String> = Vec::new();
    let mut i: usize = 0;
    while i < v.len()
        invariant
            i <= v@.len(),
            out@.len() == i,
            forall|j: int| 0 <= j < i ==> #[trigger] out@[j]@ == v@[j]@,
        decreases v@.len() - i,
    {
        out.push(v[i].clone());
        i = i + 1;
    }
    assert(strs_view(out@) =~= strs_view(v@));
    out
}

/// A copy of an optional list of strings.
pub fn copy_opt_strs(o: &Option<Vec<String>>) -> (r: Option<Vec<String>>)
    ensures
        opt_strs_view(r) == opt_strs_view(*o),
{
    match o {
        Some(v) => Some(copy_strs(v)),
        None => None,
    }
}

/// A copy of an optional list of links.
pub fn copy_opt_links(o: &Option<Vec<NotificationLink>>) -> (r: Option<Vec<NotificationLink>>)
    ensures
        opt_links_view(r) == opt_links_view(*o),
{
    match o {
        Some(v) => {
            let mut out: Vec<NotificationLink> = Vec::new();
            let mut i: usize = 0;
            while i < v.len()
                invariant
                    i <= v@.len(),
                    out@.len() == i,
                    forall|j: int| 0 <= j < i ==> #[trigger] link_view(out@[j]) == link_view(v@[j]),
                decreases v@.len() - i,
            {
                out.push(v[i].duplicate());
                i = i + 1;
            }
            assert(opt_links_view(Some(out)).unwrap() =~= opt_links_view(*o).unwrap());
            Some(out)
        },
        None => None,
    }
}

/// A copy of an optional list of actions.
pub fn copy_opt_actions(o: &Option<Vec<NotificationAction>>) -> (r: Option<Vec<NotificationAction>>)
    ensures
        opt_actions_view(r) == opt_actions_view(*o),
{
    match o {
        Some(v) => {
            let mut out: Vec<NotificationAction> = Vec::new();
            let mut i: usize = 0;
            while i < v.len()
                invariant
                    i <= v@.len(),
                    out@.len() == i,
                    forall|j: int| 0 <= j < i ==> #[trigger] action_view(out@[j]) == action_view(v@[j]),
                decreases v@.len() - i,
            {
                out.push(v[i].duplicate());
                i = i + 1;
            }
            assert(opt_actions_view(Some(out)).unwrap() =~= opt_actions_view(*o).unwrap());
            Some(out)
        },
        None => None,
    }
}

/// Notification data from a remote device.
#[derive(Debug)]
pub struct Notification {
    /// Unique notification ID.
    pub id: String,
    /// Source application name.
    pub app_name: String,
    /// Notification title.
    pub title: String,
    /// Notification body text.
    pub text: String,
    /// Combined title and text.
    pub ticker: Option<String>,
    /// Whether the user can dismiss this notification.
    pub is_clearable: bool,
    /// UNIX epoch timestamp in milliseconds, as a string.
    pub time: Option<String>,
    /// "true" for preexisting, "false" for newly received.
    pub silent: Option<String>,
    /// Whether to only show once.
    pub only_once: Option<bool>,
    /// UUID for inline reply support.
    pub request_reply_id: Option<String>,
    /// Available action button names.
    pub actions: Option<Vec<String>>,
    /// MD5 hash of the notification icon.
    pub payload_hash: Option<String>,
    /// Whether this notification is from a messaging app.
    pub is_messaging_app: bool,
    /// Package name of the messaging app.
    pub package_name: Option<String>,
    /// URL for the web interface of the messaging app.
    pub web_url: Option<String>,
    /// Conversation identifier.
    pub conversation_id: Option<String>,
    /// Whether this is a group chat.
    pub is_group_chat: bool,
    /// Name of the group chat.
    pub group_name: Option<String>,
    /// Whether the notification supports a quick reply action.
    pub has_reply_action: bool,
    /// Base64 encoded sender avatar image.
    pub sender_avatar: Option<String>,
    /// Rich HTML body text.
    pub rich_body: Option<String>,
    /// Base64 encoded notification image.
    pub image_data: Option<String>,
    /// Clickable links.
    pub links: Option<Vec<NotificationLink>>,
    /// Base64 encoded video thumbnail.
    pub video_thumbnail: Option<String>,
    /// Urgency level (0 = low, 1 = normal, 2 = critical).
    pub urgency: Option<u8>,
    /// Category (e.g. "email", "im", "device").
    pub category: Option<String>,
    /// Base64 encoded application icon.
    pub app_icon: Option<String>,
    /// Structured action buttons.
    pub action_buttons: Option<Vec<NotificationAction>>,
}

/// Every field of a notification, by value.
pub struct NotificationView {
    /// Identifier.
    pub id: Seq<char>,
    /// Application name.
    pub app_name: Seq<char>,
    /// Title.
    pub title: Seq<char>,
    /// Body text.
    pub text: Seq<char>,
    /// Ticker.
    pub ticker: Option<Seq<char>>,
    /// Clearable flag.
    pub is_clearable: bool,
    /// Time.
    pub time: Option<Seq<char>>,
    /// Silent flag text.
    pub silent: Option<Seq<char>>,
    /// Only-once flag.
    pub only_once: Option<bool>,
    /// Reply id.
    pub request_reply_id: Option<Seq<char>>,
    /// Action names.
    pub actions: Option<Seq<Seq<char>>>,
    /// Payload hash.
    pub payload_hash: Option<Seq<char>>,
    /// Messaging-app flag.
    pub is_messaging_app: bool,
    /// Package name.
    pub package_name: Option<Seq<char>>,
    /// Web URL.
    pub web_url: Option<Seq<char>>,
    /// Conversation id.
    pub conversation_id: Option<Seq<char>>,
    /// Group-chat flag.
    pub is_group_chat: bool,
    /// Group name.
    pub group_name: Option<Seq<char>>,
    /// Reply-action flag.
    pub has_reply_action: bool,
    /// Sender avatar.
    pub sender_avatar: Option<Seq<char>>,
    /// Rich body.
    pub rich_body: Option<Seq<char>>,
    /// Image data.
    pub image_data: Option<Seq<char>>,
    /// Links.
    pub links: Option<Seq<(Seq<char>, Option<Seq<char>>, usize, usize)>>,
    /// Video thumbnail.
    pub video_thumbnail: Option<Seq<char>>,
    /// Urgency byte.
    pub urgency: Option<u8>,
    /// Category.
    pub category: Option<Seq<char>>,
    /// App icon.
    pub app_icon: Option<Seq<char>>,
    /// Action buttons.
    pub action_buttons: Option<Seq<(Seq<char>, Seq<char>)>>,
}

impl View for Notification {
    type V = NotificationView;

    open spec fn view(&self) -> NotificationView {
        NotificationView {
            id: self.id@,
            app_name: self.app_name@,
            title: self.title@,
            text: self.text@,
            ticker: opt_view(self.ticker),
            is_clearable: self.is_clearable,
            time: opt_view(self.time),
            silent: opt_view(self.silent),
            only_once: self.only_once,
            request_reply_id: opt_view(self.request_reply_id),
            actions: opt_strs_view(self.actions),
            payload_hash: opt_view(self.payload_hash),
            is_messaging_app: self.is_messaging_app,
            package_name: opt_view(self.package_name),
            web_url: opt_view(self.web_url),
            conversation_id: opt_view(self.conversation_id),
            is_group_chat: self.is_group_chat,
            group_name: opt_view(self.group_name),
            has_reply_action: self.has_reply_action,
            sender_avatar: opt_view(self.sender_avatar),
            rich_body: opt_view(self.rich_body),
            image_data: opt_view(self.image_data),
            links: opt_links_view(self.links),
            video_thumbnail: opt_view(self.video_thumbnail),
            urgency: self.urgency,
            category: opt_view(self.category),
            app_icon: opt_view(self.app_icon),
            action_buttons: opt_actions_view(self.action_buttons),
        }
    }
}

/// The notification `Notification::new` builds: the four texts and the
/// clearable flag given, every optional field absent, every other flag off.
pub open spec fn fresh_notification(
    id: Seq<char>,
    app_name: Seq<char>,
    title: Seq<char>,
    text: Seq<char>,
    is_clearable: bool,
) -> NotificationView {
    NotificationView {
        id,
        app_name,
        title,
        text,
        ticker: None,
        is_clearable,
        time: None,
        silent: None,
        only_once: None,
        request_reply_id: None,
        actions: None,
        payload_hash: None,
        is_messaging_app: false,
        package_name: None,
        web_url: None,
        conversation_id: None,
        is_group_chat: false,
        group_name: None,
        has_reply_action: false,
        sender_avatar: None,
        rich_body: None,
        image_data: None,
        links: None,
        video_thumbnail: None,
        urgency: None,
        category: None,
        app_icon: None,
        action_buttons: None,
    }
}

/// The first successful decode among the image sources, in priority order:
/// the image, the sender avatar, the app icon.
pub open spec fn image_bytes_of(n: NotificationView) -> Option<Seq<u8>> {
    let from = |o: Option<Seq<char>>| match o {
        Some(s) => standard_decoded(s),
        None => None,
    };
    match from(n.image_data) {
        Some(b) => Some(b),
        None => match from(n.sender_avatar) {
            Some(b) => Some(b),
            None => from(n.app_icon),
        },
    }
}

/// Decodes an optional base64 string; `None` when absent or invalid.
fn decode_opt(o: &Option<String>) -> (r: Option<Vec<u8>>)
    ensures
        r is Some <==> (match opt_view(*o) {
            Some(s) => standard_decoded(s) is Some,
            None => false,
        }),
        r matches Some(v) ==> Some(v@) == (match opt_view(*o) {
            Some(s) => standard_decoded(s),
            None => None,
        }),
{
    match o {
        Some(s) => decode_standard(s.as_str()),
        None => None,
    }
}

impl Notification {
    /// A notification with the given texts, nothing optional set.
    pub fn new(id: &str, app_name: &str, title: &str, text: &str, is_clearable: bool) -> (r: Self)
        ensures
            r@ == fresh_notification(id@, app_name@, title@, text@, is_clearable),
    {
        Self {
            id: owned(id),
            app_name: owned(app_name),
            title: owned(title),
            text: owned(text),
            ticker: None,
            is_clearable,
            time: None,
            silent: None,
            only_once: None,
            request_reply_id: None,
            actions: None,
            payload_hash: None,
            is_messaging_app: false,
            package_name: None,
            web_url: None,
            conversation_id: None,
            is_group_chat: false,
            group_name: None,
            has_reply_action: false,
            sender_avatar: None,
            rich_body: None,
            image_data: None,
            links: None,
            video_thumbnail: None,
            urgency: None,
            category: None,
            app_icon: None,
            action_buttons: None,
        }
    }

    /// A copy of the notification.
    pub fn duplicate(&self) -> (r: Self)
        ensures
            r@ == self@,
    {
        Self {
            id: self.id.clone(),
            app_name: self.app_name.clone(),
            title: self.title.clone(),
            text: self.text.clone(),
            ticker: copy_opt(&self.ticker),
            is_clearable: self.is_clearable,
            time: copy_opt(&self.time),
            silent: copy_opt(&self.silent),
            only_once: self.only_once,
            request_reply_id: copy_opt(&self.request_reply_id),
            actions: copy_opt_strs(&self.actions),
            payload_hash: copy_opt(&self.payload_hash),
            is_messaging_app: self.is_messaging_app,
            package_name: copy_opt(&self.package_name),
            web_url: copy_opt(&self.web_url),
            conversation_id: copy_opt(&self.conversation_id),
            is_group_chat: self.is_group_chat,
            group_name: copy_opt(&self.group_name),
            has_reply_action: self.has_reply_action,
            sender_avatar: copy_opt(&self.sender_avatar),
            rich_body: copy_opt(&self.rich_body),
            image_data: copy_opt(&self.image_data),
            links: copy_opt_links(&self.links),
            video_thumbnail: copy_opt(&self.video_thumbnail),
            urgency: self.urgency,
            category: copy_opt(&self.category),
            app_icon: copy_opt(&self.app_icon),
            action_buttons: copy_opt_actions(&self.action_buttons),
        }
    }

    /// Whether the notification is silent (preexisting): `silent` is "true".
    pub fn is_silent(&self) -> (r: bool)
        ensures
            r == (self@.silent == Some("true"@)),
    {
        match &self.silent {
            Some(s) => string_eq_str(s, "true"),
            None => false,
        }
    }

    /// Whether the notification supports inline replies.
    pub fn is_repliable(&self) -> (r: bool)
        ensures
            r == (self@.request_reply_id is Some),
    {
        self.request_reply_id.is_some()
    }

    /// Whether the notification has at least one action name.
    pub fn has_actions(&self) -> (r: bool)
        ensures
            r == (self@.actions matches Some(a) && a.len() > 0),
    {
        match &self.actions {
            Some(a) => a.len() > 0,
            None => false,
        }
    }

    /// Whether the notification has rich HTML content.
    pub fn has_rich_content(&self) -> (r: bool)
        ensures
            r == (self@.rich_body is Some),
    {
        self.rich_body.is_some()
    }

    /// Whether the notification has an image: an image, a sender avatar or
    /// an app icon.
    pub fn has_image(&self) -> (r: bool)
        ensures
            r == (self@.image_data is Some || self@.sender_avatar is Some || self@.app_icon is Some),
    {
        self.image_data.is_some() || self.sender_avatar.is_some() || self.app_icon.is_some()
    }

    /// Whether the notification has at least one link.
    pub fn has_links(&self) -> (r: bool)
        ensures
            r == (self@.links matches Some(l) && l.len() > 0),
    {
        match &self.links {
            Some(l) => l.len() > 0,
            None => false,
        }
    }

    /// The decoded image: the first of image, sender avatar and app icon
    /// that decodes as base64.
    pub fn get_image_bytes(&self) -> (r: Option<Vec<u8>>)
        ensures
            r is Some <==> image_bytes_of(self@) is Some,
            r matches Some(v) ==> Some(v@) == image_bytes_of(self@),
    {
        match decode_opt(&self.image_data) {
            Some(v) => Some(v),
            None => match decode_opt(&self.sender_avatar) {
                Some(v) => Some(v),
                None => decode_opt(&self.app_icon),
            },
        }
    }

    /// The decoded video thumbnail.
    pub fn get_video_thumbnail_bytes(&self) -> (r: Option<Vec<u8>>)
        ensures
            r is Some <==> (self@.video_thumbnail matches Some(s) && standard_decoded(s) is Some),
            r matches Some(v) ==> Some(v@) == standard_decoded(self@.video_thumbnail.unwrap()),
    {
        decode_opt(&self.video_thumbnail)
    }

    /// The urgency level, `Normal` when not given.
    pub fn get_urgency(&self) -> (r: NotificationUrgency)
        ensures
            r == (match self.urgency {
                Some(b) => urgency_of_byte(b),
                None => NotificationUrgency::Normal,
            }),
    {
        match self.urgency {
            Some(b) => NotificationUrgency::from_byte(b),
            None => NotificationUrgency::Normal,
        }
    }

    /// Whether the notification has an app icon.
    pub fn has_app_icon(&self) -> (r: bool)
        ensures
            r == (self@.app_icon is Some),
    {
        self.app_icon.is_some()
    }

    /// The decoded app icon.
    pub fn get_app_icon_bytes(&self) -> (r: Option<Vec<u8>>)
        ensures
            r is Some <==> (self@.app_icon matches Some(s) && standard_decoded(s) is Some),
            r matches Some(v) ==> Some(v@) == standard_decoded(self@.app_icon.unwrap()),
    {
        decode_opt(&self.app_icon)
    }

    /// Whether the notification has at least one structured action button.
    pub fn has_action_buttons(&self) -> (r: bool)
        ensures
            r == (self@.action_buttons matches Some(a) && a.len() > 0),
    {
        match &self.action_buttons {
            Some(a) => a.len() > 0,
            None => false,
        }
    }
}

/// Which handler a notification packet type goes to.
#[derive(Debug, Clone, Copy, PartialEq, Eq)]
pub enum NotificationPacketKind {
    /// `cconnect.notification` / `kdeconnect.notification`.
    Notification,
    /// `*.notification.request`.
    Request,
    /// `*.notification.action`.
    Action,
    /// `*.notification.reply`.
    Reply,
    /// Any other type: ignored.
    Other,
}

/// The kind of each packet type the plugin handles.
pub open spec fn notification_packet_kind_of(t: Seq<char>) -> NotificationPacketKind {
    if t == "cconnect.notification"@ || t == "kdeconnect.notification"@ {
        NotificationPacketKind::Notification
    } else if t == "cconnect.notification.request"@ || t == "kdeconnect.notification.request"@ {
        NotificationPacketKind::Request
    } else if t == "cconnect.notification.action"@ || t == "kdeconnect.notification.action"@ {
        NotificationPacketKind::Action
    } else if t == "cconnect.notification.reply"@ || t == "kdeconnect.notification.reply"@ {
        NotificationPacketKind::Reply
    } else {
        NotificationPacketKind::Other
    }
}

/// The handler a packet type goes to.
pub fn notification_packet_kind(packet_type: &str) -> (r: NotificationPacketKind)
    ensures
        r == notification_packet_kind_of(packet_type@),
{
    if str_eq(packet_type, "cconnect.notification") || str_eq(packet_type, "kdeconnect.notification") {
        NotificationPacketKind::Notification
    } else if str_eq(packet_type, "cconnect.notification.request") || str_eq(packet_type, "kdeconnect.notification.request") {
        NotificationPacketKind::Request
    } else if str_eq(packet_type, "cconnect.notification.action") || str_eq(packet_type, "kdeconnect.notification.action") {
        NotificationPacketKind::Action
    } else if str_eq(packet_type, "cconnect.notification.reply") || str_eq(packet_type, "kdeconnect.notification.reply") {
        NotificationPacketKind::Reply
    } else {
        NotificationPacketKind::Other
    }
}

/// A `cconnect.notification` packet body, as read by the plugin.
#[derive(Debug)]
pub enum NotificationMessage {
    /// `isCancel` is true and `id` is a string: drop that notification.
    Cancel { id: String },
    /// `isCancel` is true but there is no string `id`: nothing to do.
    CancelWithoutId,
    /// A notification to store.
    Posted(Notification),
    /// The body is not a notification: nothing to do.
    Malformed,
}

/// The index of the notification with identifier `id` in `ns`, if any.
pub open spec fn index_of_notification(ns: Seq<NotificationView>, id: Seq<char>) -> Option<int> {
    if exists|i: int| 0 <= i < ns.len() && ns[i].id == id {
        Some(choose|i: int| 0 <= i < ns.len() && ns[i].id == id)
    } else {
        None
    }
}

/// No identifier occurs twice.
pub open spec fn notification_ids_unique(ns: Seq<NotificationView>) -> bool {
    forall|i: int, j: int| 0 <= i < ns.len() && 0 <= j < ns.len() && i != j ==> ns[i].id != ns[j].id
}

/// `ns` with `n` stored: it replaces the notification with the same
/// identifier, or is appended.
pub open spec fn store_insert(ns: Seq<NotificationView>, n: NotificationView) -> Seq<NotificationView> {
    match index_of_notification(ns, n.id) {
        Some(i) => ns.update(i, n),
        None => ns.push(n),
    }
}

/// `ns` without the notification with identifier `id`.
pub open spec fn store_remove(ns: Seq<NotificationView>, id: Seq<char>) -> Seq<NotificationView> {
    match index_of_notification(ns, id) {
        Some(i) => ns.remove(i),
        None => ns,
    }
}

/// Notification sync plugin: the active notifications of a device.
#[derive(Debug)]
pub struct NotificationPlugin {
    device_id: Option<String>,
    notifications: Vec<Notification>,
}

impl NotificationPlugin {
    /// The active notifications, in storage order.
    pub closed spec fn store(&self) -> Seq<NotificationView> {
        Seq::new(self.notifications@.len(), |i: int| self.notifications@[i]@)
    }

    /// The device the plugin is attached to.
    pub closed spec fn device(&self) -> Option<Seq<char>> {
        opt_view(self.device_id)
    }

    /// No two stored notifications share an identifier.
    pub closed spec fn wf(&self) -> bool {
        notification_ids_unique(self.store())
    }

    /// The stored notification with identifier `id`, if any.
    pub open spec fn lookup(&self, id: Seq<char>) -> Option<NotificationView> {
        match index_of_notification(self.store(), id) {
            Some(i) => Some(self.store()[i]),
            None => None,
        }
    }

    /// A plugin with no device and no notifications.
    pub fn new() -> (r: Self)
        ensures
            r.wf(),
            r.store().len() == 0,
            r.device() is None,
    {
        let r = Self { device_id: None, notifications: Vec::new() };
        assert(r.store() =~= Seq::<NotificationView>::empty());
        r
    }

    /// The plugin name.
    pub fn name(&self) -> (r: &'static str)
        ensures
            r@ == "notification"@,
    {
        "notification"
    }

    /// Packet types the plugin accepts.
    pub fn incoming_capabilities(&self) -> (r: Vec<String>)
        ensures
            strs_view(r@) == notification_incoming_capabilities(),
    {
        incoming_capability_list()
    }

    /// Packet types the plugin sends.
    pub fn outgoing_capabilities(&self) -> (r: Vec<String>)
        ensures
            strs_view(r@) == notification_outgoing_capabilities(),
    {
        outgoing_capability_list()
    }

    /// Attaches the plugin to a device.
    pub fn init(&mut self, device_id: &str)
        requires
            old(self).wf(),
        ensures
            final(self).wf(),
            final(self).device() == Some(device_id@),
            final(self).store() == old(self).store(),
    {
        self.device_id = Some(owned(device_id));
    }

    /// The device the plugin is attached to, if any.
    pub fn device_id(&self) -> (r: Option<&String>)
        ensures
            (match r {
                Some(s) => Some(s@),
                None => None::<Seq<char>>,
            }) == self.device(),
    {
        self.device_id.as_ref()
    }

    /// Number of active notifications.
    pub fn notification_count(&self) -> (r: usize)
        ensures
            r == self.store().len(),
    {
        self.notifications.len()
    }

    fn find(&self, id: &str) -> (r: Option<usize>)
        requires
            self.wf(),
        ensures
            match r {
                Some(i) => index_of_notification(self.store(), id@) == Some(i as int) && i < self.store().len(),
                None => index_of_notification(self.store(), id@) is None,
            },
    {
        let mut i: usize = 0;
        while i < self.notifications.len()
            invariant
                self.wf(),
                i <= self.notifications@.len(),
                forall|j: int| 0 <= j < i ==> self.store()[j].id != id@,
            decreases self.notifications@.len() - i,
        {
            if str_eq(self.notifications[i].id.as_str(), id) {
                assert(self.store()[i as int].id == id@);
                let ghost j = choose|j: int| 0 <= j < self.store().len() && self.store()[j].id == id@;
                assert(j == i as int);
                return Some(i);
            }
            i = i + 1;
        }
        None
    }

    /// A copy of the notification with identifier `id`, if stored.
    pub fn get_notification(&self, id: &str) -> (r: Option<Notification>)
        requires
            self.wf(),
        ensures
            (match r {
                Some(n) => Some(n@),
                None => None::<NotificationView>,
            }) == self.lookup(id@),
    {
        match self.find(id) {
            Some(i) => Some(self.notifications[i].duplicate()),
            None => None,
        }
    }

    /// Copies of all active notifications.
    pub fn get_all_notifications(&self) -> (r: Vec<Notification>)
        ensures
            Seq::new(r@.len(), |i: int| r@[i]@) == self.store(),
    {
        let mut out: Vec<Notification> = Vec::new();
        let mut i: usize = 0;
        while i < self.notifications.len()
            invariant
                i <= self.notifications@.len(),
                out@.len() == i,
                forall|j: int| 0 <= j < i ==> #[trigger] out@[j]@ == self.notifications@[j]@,
            decreases self.notifications@.len() - i,
        {
            out.push(self.notifications[i].duplicate());
            i = i + 1;
        }
        assert(Seq::new(out@.len(), |i: int| out@[i]@) =~= self.store());
        out
    }

    /// Stores a notification, replacing one with the same identifier.
    pub fn insert_notification(&mut self, notification: Notification)
        requires
            old(self).wf(),
        ensures
            final(self).wf(),
            final(self).store() == store_insert(old(self).store(), notification@),
            final(self).device() == old(self).device(),
    {
        let ghost n = notification@;
        let ghost before = self.store();
        match self.find(notification.id.as_str()) {
            Some(i) => {
                self.notifications.set(i, notification);
                assert(self.store() =~= before.update(i as int, n));
                assert forall|a: int, b: int| 0 <= a < self.store().len() && 0 <= b < self.store().len() && a != b
                    implies self.store()[a].id != self.store()[b].id by {
                    if a != i && b != i {
                        assert(self.store()[a] == before[a] && self.store()[b] == before[b]);
                    } else if a == i {
                        assert(self.store()[a].id == before[i as int].id);
                        assert(self.store()[b] == before[b]);
                    } else {
                        assert(self.store()[b].id == before[i as int].id);
                        assert(self.store()[a] == before[a]);
                    }
                }
            },
            None => {
                self.notifications.push(notification);
                assert(self.store() =~= before.push(n));
                assert forall|a: int, b: int| 0 <= a < self.store().len() && 0 <= b < self.store().len() && a != b
                    implies self.store()[a].id != self.store()[b].id by {
                    if a < before.len() && b < before.len() {
                        assert(self.store()[a] == before[a] && self.store()[b] == before[b]);
                    } else if a == before.len() {
                        assert(self.store()[b] == before[b]);
                    } else {
                        assert(self.store()[a] == before[a]);
                    }
                }
            },
        }
    }

    /// Drops the notification with identifier `id`, if stored.
    pub fn remove_notification(&mut self, id: &str)
        requires
            old(self).wf(),
        ensures
            final(self).wf(),
            final(self).store() == store_remove(old(self).store(), id@),
            final(self).device() == old(self).device(),
    {
        let ghost before = self.store();
        match self.find(id) {
            Some(i) => {
                self.notifications.remove(i);
                assert(self.store() =~= before.remove(i as int));
                assert forall|a: int, b: int| 0 <= a < self.store().len() && 0 <= b < self.store().len() && a != b
                    implies self.store()[a].id != self.store()[b].id by {
                    let a2 = if a < i { a } else { a + 1 };
                    let b2 = if b < i { b } else { b + 1 };
                    assert(self.store()[a] == before[a2]);
                    assert(self.store()[b] == before[b2]);
                }
            },
            None => {},
        }
    }

    /// Applies a `cconnect.notification` packet body: a cancellation drops
    /// the notification, a notification is stored, anything else is
    /// ignored.
    pub fn handle_notification(&mut self, message: NotificationMessage)
        requires
            old(self).wf(),
        ensures
            final(self).wf(),
            final(self).device() == old(self).device(),
            final(self).store() == (match message {
                NotificationMessage::Cancel { id } => store_remove(old(self).store(), id@),
                NotificationMessage::Posted(n) => store_insert(old(self).store(), n@),
                _ => old(self).store(),
            }),
    {
        match message {
            NotificationMessage::Cancel { id } => self.remove_notification(id.as_str()),
            NotificationMessage::Posted(n) => self.insert_notification(n),
            _ => {},
        }
    }
}

impl Default for NotificationPlugin {
    fn default() -> (r: Self)
        ensures
            r.wf(),
            r.store().len() == 0,
    {
        Self::new()
    }
}

/// After storing a notification, looking up its identifier finds it, and
/// every other identifier finds what it found before.
pub proof fn lemma_store_insert_lookup(ns: Seq<NotificationView>, n: NotificationView, other: Seq<char>)
    requires
        notification_ids_unique(ns),
        other != n.id,
    ensures
        notification_ids_unique(store_insert(ns, n)),
        index_of_notification(store_insert(ns, n), n.id) matches Some(i) && store_insert(ns, n)[i] == n,
        (match index_of_notification(store_insert(ns, n), other) {
            Some(i) => Some(store_insert(ns, n)[i]),
            None => None::<NotificationView>,
        }) == (match index_of_notification(ns, other) {
            Some(i) => Some(ns[i]),
            None => None::<NotificationView>,
        }),
{
    let after = store_insert(ns, n);
    match index_of_notification(ns, n.id) {
        Some(i) => {
            assert(after[i].id == n.id);
            assert forall|a: int, b: int| 0 <= a < after.len() && 0 <= b < after.len() && a != b
                implies after[a].id != after[b].id by {
                if a != i && b != i {
                } else if a == i {
                    assert(ns[i].id == n.id);
                } else {
                    assert(ns[i].id == n.id);
                }
            }
            let j = choose|j: int| 0 <= j < after.len() && after[j].id == n.id;
            assert(j == i);
            if exists|k: int| 0 <= k < ns.len() && ns[k].id == other {
                let k = choose|k: int| 0 <= k < ns.len() && ns[k].id == other;
                assert(after[k].id == other);
                let k2 = choose|k2: int| 0 <= k2 < after.len() && after[k2].id == other;
                assert(k2 == k);
            } else {
                if exists|k: int| 0 <= k < after.len() && after[k].id == other {
                    let k = choose|k: int| 0 <= k < after.len() && after[k].id == other;
                    assert(ns[k].id == other);
                }
            }
        },
        None => {
            let m = ns.len() as int;
            assert(after[m].id == n.id);
            assert forall|a: int, b: int| 0 <= a < after.len() && 0 <= b < after.len() && a != b
                implies after[a].id != after[b].id by {
                if a < m && b < m {
                } else if a == m {
                    assert(after[b] == ns[b]);
                } else {
                    assert(after[a] == ns[a]);
                }
            }
            let j = choose|j: int| 0 <= j < after.len() && after[j].id == n.id;
            if j < m {
                assert(ns[j].id == n.id);
            }
            if exists|k: int| 0 <= k < ns.len() && ns[k].id == other {
                let k = choose|k: int| 0 <= k < ns.len() && ns[k].id == other;
                assert(after[k].id == other);
                let k2 = choose|k2: int| 0 <= k2 < after.len() && after[k2].id == other;
                assert(k2 == k);
            } else {
                if exists|k: int| 0 <= k < after.len() && after[k].id == other {
                    let k = choose|k: int| 0 <= k < after.len() && after[k].id == other;
                    assert(k < m);
                    assert(ns[k].id == other);
                }
            }
        },
    }
}

/// After a cancellation, the notification is gone.
pub proof fn lemma_store_remove_lookup(ns: Seq<NotificationView>, id: Seq<char>)
    requires
        notification_ids_unique(ns),
    ensures
        index_of_notification(store_remove(ns, id), id) is None,
        store_remove(ns, id).len() == (if index_of_notification(ns, id) is Some { ns.len() - 1 } else { ns.len() as int }),
{
    let after = store_remove(ns, id);
    match index_of_notification(ns, id) {
        Some(i) => {
            if exists|k: int| 0 <= k < after.len() && after[k].id == id {
                let k = choose|k: int| 0 <= k < after.len() && after[k].id == id;
                let k2 = if k < i { k } else { k + 1 };
                assert(ns[k2].id == id);
                assert(ns[i].id == id);
            }
        },
        None => {},
    }
}

/// Packet types the notification plugin accepts.
pub open spec fn notification_incoming_capabilities() -> Seq<Seq<char>> {
    seq![
        "cconnect.notification"@,
        "cconnect.notification.request"@,
        "cconnect.notification.action"@,
        "cconnect.notification.reply"@,
        "kdeconnect.notification"@,
        "kdeconnect.notification.request"@,
        "kdeconnect.notification.action"@,
        "kdeconnect.notification.reply"@,
    ]
}

/// Packet types the notification plugin sends.
pub open spec fn notification_outgoing_capabilities() -> Seq<Seq<char>> {
    seq![
        "cconnect.notification"@,
        "cconnect.notification.request"@,
        "cconnect.notification.action"@,
        "cconnect.notification.reply"@,
    ]
}

fn incoming_capability_list() -> (r: Vec<String>)
    ensures
        strs_view(r@) == notification_incoming_capabilities(),
{
    let mut v: Vec<String> = Vec::new();
    v.push(owned("cconnect.notification"));
    v.push(owned("cconnect.notification.request"));
    v.push(owned("cconnect.notification.action"));
    v.push(owned("cconnect.notification.reply"));
    v.push(owned("kdeconnect.notification"));
    v.push(owned("kdeconnect.notification.request"));
    v.push(owned("kdeconnect.notification.action"));
    v.push(owned("kdeconnect.notification.reply"));
    assert(strs_view(v@) =~= notification_incoming_capabilities());
    v
}

fn outgoing_capability_list() -> (r: Vec<String>)
    ensures
        strs_view(r@) == notification_outgoing_capabilities(),
{
    let mut v: Vec<String> = Vec::new();
    v.push(owned("cconnect.notification"));
    v.push(owned("cconnect.notification.request"));
    v.push(owned("cconnect.notification.action"));
    v.push(owned("cconnect.notification.reply"));
    assert(strs_view(v@) =~= notification_outgoing_capabilities());
    v
}

/// Longest body, in characters, that a desktop notification carries whole.
pub const MAX_BODY_LENGTH: usize = 2000;

/// The text of a desktop notification: the body, or, when it is longer
/// than `MAX_BODY_LENGTH` characters, its first `MAX_BODY_LENGTH`
/// characters followed by "...".
pub open spec fn desktop_text(body: Seq<char>) -> Seq<char> {
    if body.len() > MAX_BODY_LENGTH {
        body.take(MAX_BODY_LENGTH as int) + "..."@
    } else {
        body
    }
}

/// The base64 text of optional bytes.
pub open spec fn opt_encoded(o: Option<&[u8]>) -> Option<Seq<char>> {
    match o {
        Some(d) => Some(standard_encoded(d@)),
        None => None,
    }
}

/// The notification record a captured desktop notification is sent as:
/// identifier `desktop-<app>-<timestamp>`, the (possibly truncated) body as
/// text, a ticker `<app>: <summary> - <text>`, clearable, not silent, the
/// images base64-encoded, the action labels and the (id, label) buttons when
/// there are actions, and the urgency byte and category when given.
pub open spec fn desktop_notification_of(
    app_name: Seq<char>,
    summary: Seq<char>,
    body: Seq<char>,
    timestamp: i64,
    image: Option<Seq<char>>,
    actions: Seq<(Seq<char>, Seq<char>)>,
    urgency: Option<NotificationUrgency>,
    category: Option<Seq<char>>,
    app_icon: Option<Seq<char>>,
) -> NotificationView {
    let text = desktop_text(body);
    NotificationView {
        id: "desktop-"@ + app_name + "-"@ + decimal_signed(timestamp as int),
        app_name,
        title: summary,
        text,
        ticker: Some(app_name + ": "@ + summary + " - "@ + text),
        is_clearable: true,
        time: Some(decimal_signed(timestamp as int)),
        silent: Some("false"@),
        only_once: None,
        request_reply_id: None,
        actions: if actions.len() > 0 { Some(Seq::new(actions.len(), |i: int| actions[i].1)) } else { None },
        payload_hash: None,
        is_messaging_app: false,
        package_name: None,
        web_url: None,
        conversation_id: None,
        is_group_chat: false,
        group_name: None,
        has_reply_action: false,
        sender_avatar: None,
        rich_body: None,
        image_data: image,
        links: None,
        video_thumbnail: None,
        urgency: match urgency {
            Some(u) => Some(urgency_byte(u)),
            None => None,
        },
        category,
        app_icon,
        action_buttons: if actions.len() > 0 { Some(actions) } else { None },
    }
}

/// The characters of each (id, label) pair.
pub open spec fn pairs_view(s: Seq<(String, String)>) -> Seq<(Seq<char>, Seq<char>)> {
    Seq::new(s.len(), |i: int| (s[i].0@, s[i].1@))
}

/// The text of a desktop notification (see `desktop_text`).
fn truncate_body(body: &str) -> (r: String)
    ensures
        r@ == desktop_text(body@),
{
    if body.unicode_len() > MAX_BODY_LENGTH {
        let head = body.substring_char(0, MAX_BODY_LENGTH);
        assert(head@ =~= body@.take(MAX_BODY_LENGTH as int));
        let mut t = owned(head);
        t.append("...");
        t
    } else {
        owned(body)
    }
}

impl NotificationPlugin {
    /// The notification record for a captured desktop notification, as
    /// sent to connected devices (see `desktop_notification_of`).
    pub fn desktop_notification(
        app_name: &str,
        summary: &str,
        body: &str,
        timestamp: i64,
        image_data: Option<&[u8]>,
        actions: &[(String, String)],
        urgency: Option<NotificationUrgency>,
        category: Option<&str>,
        app_icon: Option<&[u8]>,
    ) -> (r: Notification)
        ensures
            r@ == desktop_notification_of(app_name@, summary@, body@, timestamp, opt_encoded(image_data),
                pairs_view(actions@), urgency,
                match category { Some(c) => Some(c@), None => None::<Seq<char>> },
                opt_encoded(app_icon)),
    {
        let stamp = i64_to_decimal(timestamp);
        let mut id = owned("desktop-");
        id.append(app_name);
        id.append("-");
        id.append(stamp.as_str());
        let text = truncate_body(body);
        let mut ticker = owned(app_name);
        ticker.append(": ");
        ticker.append(summary);
        ticker.append(" - ");
        ticker.append(text.as_str());
        let image = match image_data {
            Some(d) => Some(encode_standard(d)),
            None => None,
        };
        let icon = match app_icon {
            Some(d) => Some(encode_standard(d)),
            None => None,
        };
        let (labels, buttons) = if actions.len() > 0 {
            let mut labels: Vec<String> = Vec::new();
            let mut buttons: Vec<NotificationAction> = Vec::new();
            let mut i: usize = 0;
            while i < actions.len()
                invariant
                    i <= actions@.len(),
                    labels@.len() == i,
                    buttons@.len() == i,
                    forall|j: int| 0 <= j < i ==> #[trigger] labels@[j]@ == actions@[j].1@,
                    forall|j: int| 0 <= j < i ==> #[trigger] action_view(buttons@[j]) == (actions@[j].0@, actions@[j].1@),
                decreases actions@.len() - i,
            {
                labels.push(actions[i].1.clone());
                buttons.push(NotificationAction::new(actions[i].0.as_str(), actions[i].1.as_str()));
                i = i + 1;
            }
            assert(strs_view(labels@) =~= Seq::new(actions@.len(), |i: int| pairs_view(actions@)[i].1));
            assert(Seq::new(buttons@.len(), |i: int| action_view(buttons@[i])) =~= pairs_view(actions@));
            (Some(labels), Some(buttons))
        } else {
            (None, None)
        };
        let cat = match category {
            Some(c) => Some(owned(c)),
            None => None,
        };
        let urgency_byte_opt = match urgency {
            Some(u) => Some(u.to_byte()),
            None => None,
        };
        let r = Notification {
            id,
            app_name: owned(app_name),
            title: owned(summary),
            text,
            ticker: Some(ticker),
            is_clearable: true,
            time: Some(stamp),
            silent: Some(owned("false")),
            only_once: None,
            request_reply_id: None,
            actions: labels,
            payload_hash: None,
            is_messaging_app: false,
            package_name: None,
            web_url: None,
            conversation_id: None,
            is_group_chat: false,
            group_name: None,
            has_reply_action: false,
            sender_avatar: None,
            rich_body: None,
            image_data: image,
            links: None,
            video_thumbnail: None,
            urgency: urgency_byte_opt,
            category: cat,
            app_icon: icon,
            action_buttons: buttons,
        };
        assert(r@ =~= desktop_notification_of(app_name@, summary@, body@, timestamp, opt_encoded(image_data),
                pairs_view(actions@), urgency,
                match category { Some(c) => Some(c@), None => None::<Seq<char>> },
                opt_encoded(app_icon)));
        r
    }
}

/// Factory for notification plugins.
#[derive(Debug, Clone, Copy)]
pub struct NotificationPluginFactory;

impl NotificationPluginFactory {
    /// The plugin name.
    pub fn name(&self) -> (r: &'static str)
        ensures
            r@ == "notification"@,
    {
        "notification"
    }

    /// Packet types the plugins accept.
    pub fn incoming_capabilities(&self) -> (r: Vec<String>)
        ensures
            strs_view(r@) == notification_incoming_capabilities(),
    {
        incoming_capability_list()
    }

    /// Packet types the plugins send.
    pub fn outgoing_capabilities(&self) -> (r: Vec<String>)
        ensures
            strs_view(r@) == notification_outgoing_capabilities(),
    {
        outgoing_capability_list()
    }

    /// A fresh plugin.
    pub fn create(&self) -> (r: NotificationPlugin)
        ensures
            r.wf(),
            r.store().len() == 0,
            r.device() is None,
    {
        NotificationPlugin::new()
    }
}

} // verus!
