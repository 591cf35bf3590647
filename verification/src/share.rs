//! Share: files, text and URLs sent between the devices, and the history
//! of the shares received.
use crate::notification::{copy_opt, opt_view};
use crate::ping::names_view;
use crate::text::{decimal_signed, i64_to_decimal, owned, str_eq};
use vstd::prelude::*;

verus! {

/// A file being shared.
#[derive(Debug)]
pub struct FileShareInfo {
    /// File name with extension.
    pub filename: String,
    /// Size in bytes.
    pub size: i64,
    /// Creation time, in milliseconds since the epoch.
    pub creation_time: Option<i64>,
    /// Last modification time, in milliseconds since the epoch.
    pub last_modified: Option<i64>,
    /// Whether the receiver opens it after the transfer.
    pub open: bool,
}

/// Totals announced before a transfer of several files.
#[derive(Debug, Clone, Copy, PartialEq, Eq, Structural)]
pub struct MultiFileInfo {
    /// Number of files.
    pub number_of_files: i32,
    /// Total size in bytes.
    pub total_payload_size: i64,
}

/// What is shared.
#[derive(Debug)]
pub enum ShareContent {
    /// A file.
    File(FileShareInfo),
    /// Text.
    Text(String),
    /// A URL.
    Url(String),
}

/// A share received or sent.
#[derive(Debug)]
pub struct ShareRecord {
    /// Share identifier (the packet identifier).
    pub id: String,
    /// The other device.
    pub device_id: String,
    /// What was shared.
    pub content: ShareContent,
    /// When, in milliseconds since the epoch.
    pub timestamp: i64,
    /// Whether it was received (rather than sent).
    pub incoming: bool,
}

/// Shared content as plain values.
pub enum ContentView {
    File { filename: Seq<char>, size: i64, creation_time: Option<i64>, last_modified: Option<i64>, open: bool },
    Text(Seq<char>),
    Url(Seq<char>),
}

/// A share as plain values.
pub struct RecordView {
    pub id: Seq<char>,
    pub device_id: Seq<char>,
    pub content: ContentView,
    pub timestamp: i64,
    pub incoming: bool,
}

impl View for ShareContent {
    type V = ContentView;

    open spec fn view(&self) -> ContentView {
        match self {
            ShareContent::File(f) => ContentView::File {
                filename: f.filename@,
                size: f.size,
                creation_time: f.creation_time,
                last_modified: f.last_modified,
                open: f.open,
            },
            ShareContent::Text(t) => ContentView::Text(t@),
            ShareContent::Url(u) => ContentView::Url(u@),
        }
    }
}

impl View for ShareRecord {
    type V = RecordView;

    open spec fn view(&self) -> RecordView {
        RecordView {
            id: self.id@,
            device_id: self.device_id@,
            content: self.content@,
            timestamp: self.timestamp,
            incoming: self.incoming,
        }
    }
}

impl ShareContent {
    /// A copy of the content.
    pub fn duplicate(&self) -> (r: Self)
        ensures
            r@ == self@,
    {
        match self {
            ShareContent::File(f) => ShareContent::File(FileShareInfo {
                filename: owned(f.filename.as_str()),
                size: f.size,
                creation_time: f.creation_time,
                last_modified: f.last_modified,
                open: f.open,
            }),
            ShareContent::Text(t) => ShareContent::Text(owned(t.as_str())),
            ShareContent::Url(u) => ShareContent::Url(owned(u.as_str())),
        }
    }
}

impl ShareRecord {
    /// A copy of the record.
    pub fn duplicate(&self) -> (r: Self)
        ensures
            r@ == self@,
    {
        ShareRecord {
            id: owned(self.id.as_str()),
            device_id: owned(self.device_id.as_str()),
            content: self.content.duplicate(),
            timestamp: self.timestamp,
            incoming: self.incoming,
        }
    }
}

/// The views of a list of records.
pub open spec fn records_view(v: Seq<ShareRecord>) -> Seq<RecordView> {
    Seq::new(v.len(), |i: int| v[i]@)
}

/// The records of `s` whose direction is `incoming`, in order.
pub open spec fn with_direction(s: Seq<RecordView>, incoming: bool) -> Seq<RecordView>
    decreases s.len(),
{
    if s.len() == 0 {
        Seq::empty()
    } else {
        with_direction(s.drop_last(), incoming) + if s.last().incoming == incoming {
            seq![s.last()]
        } else {
            Seq::<RecordView>::empty()
        }
    }
}

/// The fields of a share packet the plugin reads.
#[derive(Debug)]
pub struct ShareRequest {
    /// Packet identifier.
    pub packet_id: i64,
    /// `filename`, when a string.
    pub filename: Option<String>,
    /// The packet's payload size.
    pub payload_size: Option<i64>,
    /// `creationTime`, when an integer.
    pub creation_time: Option<i64>,
    /// `lastModified`, when an integer.
    pub last_modified: Option<i64>,
    /// `open`, when a boolean.
    pub open: Option<bool>,
    /// `text`, when a string.
    pub text: Option<String>,
    /// `url`, when a string.
    pub url: Option<String>,
    /// The `port` of the payload transfer information, when that field is
    /// there: its value when an integer.
    pub transfer_port: Option<Option<i64>>,
}

/// A download to run: fetch `size` bytes of `filename` from `host:port`
/// into the downloads folder.
#[derive(Debug)]
pub struct DownloadPlan {
    /// Host of the sending device.
    pub host: String,
    /// Port of its payload server.
    pub port: u16,
    /// File name.
    pub filename: String,
    /// Size in bytes.
    pub size: i64,
}

/// The content a share packet carries: a file when it names one, else
/// text, else a URL; `None` when it carries none of them.
pub open spec fn content_of(
    filename: Option<Seq<char>>,
    payload_size: Option<i64>,
    creation_time: Option<i64>,
    last_modified: Option<i64>,
    open: Option<bool>,
    text: Option<Seq<char>>,
    url: Option<Seq<char>>,
) -> Option<ContentView> {
    match filename {
        Some(f) => Some(ContentView::File {
            filename: f,
            size: match payload_size { Some(s) => s, None => 0 },
            creation_time,
            last_modified,
            open: match open { Some(b) => b, None => false },
        }),
        None => match text {
            Some(t) => Some(ContentView::Text(t)),
            None => match url {
                Some(u) => Some(ContentView::Url(u)),
                None => None,
            },
        },
    }
}

/// Share plugin state.
#[derive(Debug)]
pub struct SharePlugin {
    device_id: Option<String>,
    shares: Vec<ShareRecord>,
}

impl SharePlugin {
    /// The device the plugin is attached to.
    pub closed spec fn device(&self) -> Option<Seq<char>> {
        match self.device_id {
            Some(d) => Some(d@),
            None => None,
        }
    }

    /// The share history, oldest first.
    pub closed spec fn history(&self) -> Seq<RecordView> {
        records_view(self.shares@)
    }

    /// A plugin with no history.
    pub fn new() -> (r: Self)
        ensures
            r.history().len() == 0,
            r.device() is None,
    {
        SharePlugin { device_id: None, shares: Vec::new() }
    }

    /// The plugin name.
    pub fn name(&self) -> (r: &'static str)
        ensures
            r@ == "share"@,
    {
        "share"
    }

    /// Packet types the plugin accepts and sends.
    pub fn incoming_capabilities(&self) -> (r: Vec<String>)
        ensures
            names_view(r@) == share_capabilities(),
    {
        capability_list()
    }

    /// Packet types the plugin sends.
    pub fn outgoing_capabilities(&self) -> (r: Vec<String>)
        ensures
            names_view(r@) == share_capabilities(),
    {
        capability_list()
    }

    /// Attaches the plugin to a device.
    pub fn init(&mut self, device_id: &str)
        ensures
            final(self).device() == Some(device_id@),
            final(self).history() == old(self).history(),
    {
        self.device_id = Some(owned(device_id));
    }

    /// Number of recorded shares.
    pub fn share_count(&self) -> (r: usize)
        ensures
            r == self.history().len(),
    {
        self.shares.len()
    }

    /// Appends a share to the history.
    pub fn record_share(&mut self, record: ShareRecord)
        ensures
            final(self).history() == old(self).history().push(record@),
    {
        let ghost r = record@;
        self.shares.push(record);
        assert(self.history() =~= old(self).history().push(r));
    }

    /// Copies of the whole history.
    pub fn get_all_shares(&self) -> (r: Vec<ShareRecord>)
        ensures
            records_view(r@) == self.history(),
    {
        let mut out: Vec<ShareRecord> = Vec::new();
        let mut i: usize = 0;
        while i < self.shares.len()
            invariant
                i <= self.shares@.len(),
                out@.len() == i,
                forall|j: int| 0 <= j < i ==> #[trigger] out@[j]@ == self.shares@[j]@,
            decreases self.shares@.len() - i,
        {
            out.push(self.shares[i].duplicate());
            i = i + 1;
        }
        assert(records_view(out@) =~= self.history());
        out
    }

    fn with_direction_exec(&self, incoming: bool) -> (r: Vec<ShareRecord>)
        ensures
            records_view(r@) == with_direction(self.history(), incoming),
    {
        let mut out: Vec<ShareRecord> = Vec::new();
        let mut i: usize = 0;
        while i < self.shares.len()
            invariant
                i <= self.shares@.len(),
                records_view(out@) == with_direction(self.history().take(i as int), incoming),
            decreases self.shares@.len() - i,
        {
            let ghost before = records_view(out@);
            assert(self.history().take(i + 1).drop_last() =~= self.history().take(i as int));
            assert(self.history().take(i + 1).last() == self.shares@[i as int]@);
            if self.shares[i].incoming == incoming {
                out.push(self.shares[i].duplicate());
                assert(records_view(out@) =~= before + seq![self.shares@[i as int]@]);
            } else {
                assert(records_view(out@) =~= before + Seq::<RecordView>::empty());
            }
            i = i + 1;
        }
        assert(self.history().take(i as int) =~= self.history());
        out
    }

    /// Copies of the shares received, in order.
    pub fn get_incoming_shares(&self) -> (r: Vec<ShareRecord>)
        ensures
            records_view(r@) == with_direction(self.history(), true),
    {
        self.with_direction_exec(true)
    }

    /// Copies of the shares sent, in order.
    pub fn get_outgoing_shares(&self) -> (r: Vec<ShareRecord>)
        ensures
            records_view(r@) == with_direction(self.history(), false),
    {
        self.with_direction_exec(false)
    }

    /// Forgets the history.
    pub fn clear_history(&mut self)
        ensures
            final(self).history().len() == 0,
    {
        self.shares.clear();
    }

    /// Applies a share packet from `device_id` (reachable at `host`): a
    /// file, text or URL share is recorded as received, with the packet
    /// identifier as id (in decimal) and as timestamp; a packet carrying
    /// none of them is ignored.  A file whose transfer information names a
    /// port is to be downloaded from the device's host, when known (a port
    /// that is no integer counts as 0, and is truncated to 16 bits).
    pub fn handle_share_request(&mut self, request: ShareRequest, device_id: &str, host: Option<String>) -> (r: Option<DownloadPlan>)
        ensures
            ({
                let content = content_of(
                    opt_view(request.filename),
                    request.payload_size,
                    request.creation_time,
                    request.last_modified,
                    request.open,
                    opt_view(request.text),
                    opt_view(request.url),
                );
                &&& match content {
                    Some(c) => final(self).history() == old(self).history().push(RecordView {
                        id: decimal_signed(request.packet_id as int),
                        device_id: device_id@,
                        content: c,
                        timestamp: request.packet_id,
                        incoming: true,
                    }),
                    None => final(self).history() == old(self).history(),
                }
                &&& match r {
                    Some(plan) => match (request.filename, request.transfer_port, host) {
                        (Some(f), Some(p), Some(h)) => plan.filename@ == f@ && plan.host@ == h@
                            && plan.port == (match p { Some(v) => v as u16, None => 0u16 })
                            && plan.size == (match request.payload_size { Some(s) => s, None => 0i64 }),
                        _ => false,
                    },
                    None => request.filename is None || request.transfer_port is None || host is None,
                }
            }),
    {
        let ghost old_history = self.history();
        let ghost content = content_of(
            opt_view(request.filename),
            request.payload_size,
            request.creation_time,
            request.last_modified,
            request.open,
            opt_view(request.text),
            opt_view(request.url),
        );
        let mut plan: Option<DownloadPlan> = None;
        let content = match request.filename {
            Some(f) => {
                let size: i64 = match request.payload_size { Some(s) => s, None => 0 };
                match request.transfer_port {
                    Some(p) => match host {
                        Some(h) => {
                            let port: u16 = match p { Some(v) => v as u16, None => 0 };
                            plan = Some(DownloadPlan { host: h, port, filename: owned(f.as_str()), size });
                        },
                        None => {},
                    },
                    None => {},
                }
                ShareContent::File(FileShareInfo {
                    filename: f,
                    size,
                    creation_time: request.creation_time,
                    last_modified: request.last_modified,
                    open: match request.open { Some(b) => b, None => false },
                })
            },
            None => match request.text {
                Some(t) => ShareContent::Text(t),
                None => match request.url {
                    Some(u) => ShareContent::Url(u),
                    None => return None,
                },
            },
        };
        let record = ShareRecord {
            id: i64_to_decimal(request.packet_id),
            device_id: owned(device_id),
            content,
            timestamp: request.packet_id,
            incoming: true,
        };
        self.record_share(record);
        plan
    }
}

impl Default for SharePlugin {
    fn default() -> (r: Self)
        ensures
            r.history().len() == 0,
    {
        SharePlugin::new()
    }
}

/// Packet types the share plugin accepts and sends.
pub open spec fn share_capabilities() -> Seq<Seq<char>> {
    seq!["cconnect.share.request"@, "cconnect.share.request.update"@]
}

fn capability_list() -> (r: Vec<String>)
    ensures
        names_view(r@) == share_capabilities(),
{
    let mut v: Vec<String> = Vec::new();
    v.push(owned("cconnect.share.request"));
    v.push(owned("cconnect.share.request.update"));
    assert(names_view(v@) =~= share_capabilities());
    v
}

/// Kinds of packet the share plugin tells apart.
#[derive(Debug, Clone, Copy, PartialEq, Eq, Structural)]
pub enum SharePacketKind {
    /// A share.
    Request,
    /// A multi-file announcement.
    Update,
    /// Anything else.
    Other,
}

/// The kind of a packet type.
pub fn share_packet_kind(packet_type: &str) -> (r: SharePacketKind)
    ensures
        r == (if packet_type@ == "cconnect.share.request"@ {
            SharePacketKind::Request
        } else if packet_type@ == "cconnect.share.request.update"@ {
            SharePacketKind::Update
        } else {
            SharePacketKind::Other
        }),
{
    if str_eq(packet_type, "cconnect.share.request") {
        SharePacketKind::Request
    } else if str_eq(packet_type, "cconnect.share.request.update") {
        SharePacketKind::Update
    } else {
        SharePacketKind::Other
    }
}

/// The totals of a multi-file announcement: missing fields count as 0.
pub fn multifile_totals(number_of_files: Option<i64>, total_payload_size: Option<i64>) -> (r: (i64, i64))
    ensures
        r == (match number_of_files { Some(n) => n, None => 0i64 }, match total_payload_size { Some(t) => t, None => 0i64 }),
{
    (match number_of_files { Some(n) => n, None => 0 }, match total_payload_size { Some(t) => t, None => 0 })
}

/// Creates share plugins.
#[derive(Debug, Clone, Copy)]
pub struct SharePluginFactory;

impl SharePluginFactory {
    /// The plugin name.
    pub fn name(&self) -> (r: &'static str)
        ensures
            r@ == "share"@,
    {
        "share"
    }

    /// Packet types the plugin accepts.
    pub fn incoming_capabilities(&self) -> (r: Vec<String>)
        ensures
            names_view(r@) == share_capabilities(),
    {
        capability_list()
    }

    /// Packet types the plugin sends.
    pub fn outgoing_capabilities(&self) -> (r: Vec<String>)
        ensures
            names_view(r@) == share_capabilities(),
    {
        capability_list()
    }

    /// A new plugin.
    pub fn create(&self) -> (r: SharePlugin)
        ensures
            r.history().len() == 0,
    {
        SharePlugin::new()
    }
}

} // verus!
