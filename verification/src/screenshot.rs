//! Screenshot: the phone asks for a capture of the whole screen, a region
//! or a window.  The plugin decides which capture and which tool
//! invocations; running the tools and sending the file stay with the
//! runtime.
use crate::bytes::{from_be32, u32_from_be};
use crate::ping::names_view;
use crate::text::{decimal, decimal_signed, i64_to_decimal, owned, str_eq, u64_to_decimal};
use vstd::prelude::*;
use vstd::string::StringExecFns;

verus! {

/// Display server of the session.
#[derive(Debug, Clone, Copy, PartialEq, Eq, Structural)]
pub enum DisplayServer {
    /// Wayland.
    Wayland,
    /// X11.
    X11,
    /// Neither could be detected.
    Unknown,
}

/// The display server, from whether `WAYLAND_DISPLAY` and `DISPLAY` are
/// set: Wayland wins over X11.
pub fn detect_display_server(wayland_display_set: bool, display_set: bool) -> (r: DisplayServer)
    ensures
        r == (if wayland_display_set {
            DisplayServer::Wayland
        } else if display_set {
            DisplayServer::X11
        } else {
            DisplayServer::Unknown
        }),
{
    if wayland_display_set {
        DisplayServer::Wayland
    } else if display_set {
        DisplayServer::X11
    } else {
        DisplayServer::Unknown
    }
}

/// What to capture.
#[derive(Debug)]
pub enum CaptureType {
    /// The whole screen.
    FullScreen,
    /// A region.
    Region { x: i32, y: i32, width: u32, height: u32 },
    /// A window.
    Window { window_id: String },
}

/// The PNG signature.
pub open spec fn png_signature() -> Seq<u8> {
    seq![0x89u8, 0x50u8, 0x4Eu8, 0x47u8, 0x0Du8, 0x0Au8, 0x1Au8, 0x0Au8]
}

/// Width and height of a PNG file, from its first 24 bytes: `None` when
/// the signature is missing.
pub open spec fn png_dimensions_of(h: Seq<u8>) -> Option<(u32, u32)> {
    if h.subrange(0, 8) == png_signature() {
        Some((from_be32(h[16], h[17], h[18], h[19]), from_be32(h[20], h[21], h[22], h[23])))
    } else {
        None
    }
}

/// Width and height of a PNG file from its first 24 bytes.
pub fn png_dimensions(header: &[u8; 24]) -> (r: Option<(u32, u32)>)
    ensures
        r == png_dimensions_of(header@),
{
    let h: &[u8] = header.as_slice();
    if !(h[0] == 0x89 && h[1] == 0x50 && h[2] == 0x4E && h[3] == 0x47 && h[4] == 0x0D && h[5] == 0x0A && h[6] == 0x1A
        && h[7] == 0x0A) {
        proof {
            if h@.subrange(0, 8) == png_signature() {
                assert(h@.subrange(0, 8)[0] == h@[0]);
                assert(h@.subrange(0, 8)[1] == h@[1]);
                assert(h@.subrange(0, 8)[2] == h@[2]);
                assert(h@.subrange(0, 8)[3] == h@[3]);
                assert(h@.subrange(0, 8)[4] == h@[4]);
                assert(h@.subrange(0, 8)[5] == h@[5]);
                assert(h@.subrange(0, 8)[6] == h@[6]);
                assert(h@.subrange(0, 8)[7] == h@[7]);
            }
        }
        return None;
    }
    assert(h@.subrange(0, 8) =~= png_signature());
    let width = u32_from_be(h[16], h[17], h[18], h[19]);
    let height = u32_from_be(h[20], h[21], h[22], h[23]);
    Some((width, height))
}

/// The size reported when the PNG header cannot be read.
pub fn dimensions_or_default(d: Option<(u32, u32)>) -> (r: (u32, u32))
    ensures
        r == (match d {
            Some(wh) => wh,
            None => (1920u32, 1080u32),
        }),
{
    match d {
        Some(wh) => wh,
        None => (1920, 1080),
    }
}

/// The region a region request asks for: `x`, `y`, `width`, `height`
/// as given (truncated to 32 bits), or 0, 0, 800, 600.
pub fn region_capture(x: Option<i64>, y: Option<i64>, width: Option<i64>, height: Option<i64>) -> (r: CaptureType)
    ensures
        r matches CaptureType::Region { x: rx, y: ry, width: rw, height: rh }
            && rx == (match x { Some(v) => v as i32, None => 0i32 })
            && ry == (match y { Some(v) => v as i32, None => 0i32 })
            && rw == (match width { Some(v) => v as u32, None => 800u32 })
            && rh == (match height { Some(v) => v as u32, None => 600u32 }),
{
    CaptureType::Region {
        x: match x { Some(v) => v as i32, None => 0 },
        y: match y { Some(v) => v as i32, None => 0 },
        width: match width { Some(v) => v as u32, None => 800 },
        height: match height { Some(v) => v as u32, None => 600 },
    }
}

/// The window a window request asks for: its `windowId`, or `current`.
pub fn window_capture(window_id: Option<&str>) -> (r: CaptureType)
    ensures
        r matches CaptureType::Window { window_id: w } && w@ == (match window_id {
            Some(s) => s@,
            None => "current"@,
        }),
{
    match window_id {
        Some(s) => CaptureType::Window { window_id: owned(s) },
        None => CaptureType::Window { window_id: owned("current") },
    }
}

/// The `gnome-screenshot` mode flag for a capture.
pub fn gnome_screenshot_flag(capture: &CaptureType) -> (r: &'static str)
    ensures
        r@ == (match capture {
            CaptureType::FullScreen => "--file"@,
            CaptureType::Region { .. } => "--area"@,
            CaptureType::Window { .. } => "--window"@,
        }),
{
    match capture {
        CaptureType::FullScreen => "--file",
        CaptureType::Region { .. } => "--area",
        CaptureType::Window { .. } => "--window",
    }
}

/// The `spectacle` mode flag for a capture.
pub fn spectacle_flag(capture: &CaptureType) -> (r: &'static str)
    ensures
        r@ == (match capture {
            CaptureType::FullScreen => "-f"@,
            CaptureType::Region { .. } => "-r"@,
            CaptureType::Window { .. } => "-a"@,
        }),
{
    match capture {
        CaptureType::FullScreen => "-f",
        CaptureType::Region { .. } => "-r",
        CaptureType::Window { .. } => "-a",
    }
}

/// The `scrot` arguments after the output path: none for the whole
/// screen, `-a x,y,w,h` for a region, `-u` for the current window.
pub open spec fn scrot_args_of(capture: CaptureType) -> Seq<Seq<char>> {
    match capture {
        CaptureType::FullScreen => Seq::empty(),
        CaptureType::Region { x, y, width, height } => seq![
            "-a"@,
            decimal_signed(x as int) + ","@ + decimal_signed(y as int) + ","@ + decimal(width as nat) + ","@
                + decimal(height as nat),
        ],
        CaptureType::Window { .. } => seq!["-u"@],
    }
}

/// The `scrot` arguments after the output path for a capture.
pub fn scrot_args(capture: &CaptureType) -> (r: Vec<String>)
    ensures
        names_view(r@) == scrot_args_of(*capture),
{
    let mut v: Vec<String> = Vec::new();
    match capture {
        CaptureType::FullScreen => {},
        CaptureType::Region { x, y, width, height } => {
            v.push(owned("-a"));
            let mut s = i64_to_decimal(*x as i64);
            s.append(",");
            let ys = i64_to_decimal(*y as i64);
            s.append(ys.as_str());
            s.append(",");
            let ws = u64_to_decimal(*width as u64);
            s.append(ws.as_str());
            s.append(",");
            let hs = u64_to_decimal(*height as u64);
            s.append(hs.as_str());
            v.push(s);
        },
        CaptureType::Window { .. } => {
            v.push(owned("-u"));
        },
    }
    assert(names_view(v@) =~= scrot_args_of(*capture));
    v
}

/// The screenshot file name for a local timestamp already formatted as
/// `%Y%m%d_%H%M%S`.
pub fn screenshot_filename(stamp: &str) -> (r: String)
    ensures
        r@ == "screenshot_"@ + stamp@ + ".png"@,
{
    let mut s = owned("screenshot_");
    s.append(stamp);
    s.append(".png");
    s
}

/// What a screenshot packet asks for.
#[derive(Debug)]
pub enum ScreenshotStep {
    /// Nothing: the plugin is disabled or the packet is not a request.
    Nothing,
    /// Capture the whole screen and send the file.
    Full,
    /// Capture this region (the file is kept, not sent).
    Region(CaptureType),
    /// Capture this window (the file is kept, not sent).
    Window(CaptureType),
}

/// Screenshot plugin state.
#[derive(Debug)]
pub struct ScreenshotPlugin {
    device_id: Option<String>,
    enabled: bool,
}

impl ScreenshotPlugin {
    /// The device the plugin is attached to.
    pub closed spec fn device(&self) -> Option<Seq<char>> {
        match self.device_id {
            Some(d) => Some(d@),
            None => None,
        }
    }

    /// Whether packets are handled.
    pub closed spec fn accepts_packets(&self) -> bool {
        self.enabled
    }

    /// Whether packets are handled.
    pub fn is_enabled(&self) -> (r: bool)
        ensures
            r == self.accepts_packets(),
    {
        self.enabled
    }

    /// A plugin handling packets from the start.
    pub fn new() -> (r: Self)
        ensures
            r.accepts_packets(),
            r.device() is None,
    {
        ScreenshotPlugin { device_id: None, enabled: true }
    }

    /// The plugin name.
    pub fn name(&self) -> (r: &'static str)
        ensures
            r@ == "screenshot"@,
    {
        "screenshot"
    }

    /// Packet types the plugin accepts.
    pub fn incoming_capabilities(&self) -> (r: Vec<String>)
        ensures
            names_view(r@) == screenshot_incoming_capabilities(),
    {
        incoming_list()
    }

    /// Packet types the plugin sends.
    pub fn outgoing_capabilities(&self) -> (r: Vec<String>)
        ensures
            names_view(r@) == seq!["cconnect.screenshot.data"@],
    {
        outgoing_list()
    }

    /// Attaches the plugin to a device.
    pub fn init(&mut self, device_id: &str)
        ensures
            final(self).device() == Some(device_id@),
            final(self).accepts_packets() == old(self).accepts_packets(),
    {
        self.device_id = Some(owned(device_id));
    }

    /// Enables packet handling.
    pub fn start(&mut self)
        ensures
            final(self).accepts_packets(),
    {
        self.enabled = true;
    }

    /// Disables packet handling.
    pub fn stop(&mut self)
        ensures
            !final(self).accepts_packets(),
    {
        self.enabled = false;
    }

    /// What a packet asks for, given its region fields (`x`, `y`,
    /// `width`, `height`) and `windowId` when present.
    pub fn handle_packet(
        &self,
        packet_type: &str,
        x: Option<i64>,
        y: Option<i64>,
        width: Option<i64>,
        height: Option<i64>,
        window_id: Option<&str>,
    ) -> (r: ScreenshotStep)
        ensures
            !self.accepts_packets() ==> r is Nothing,
            self.accepts_packets() ==> (if packet_type@ == "cconnect.screenshot.request"@ {
                r is Full
            } else if packet_type@ == "cconnect.screenshot.region"@ {
                r matches ScreenshotStep::Region(c) && c matches CaptureType::Region { x: rx, y: ry, width: rw, height: rh }
                    && rx == (match x { Some(v) => v as i32, None => 0i32 })
                    && ry == (match y { Some(v) => v as i32, None => 0i32 })
                    && rw == (match width { Some(v) => v as u32, None => 800u32 })
                    && rh == (match height { Some(v) => v as u32, None => 600u32 })
            } else if packet_type@ == "cconnect.screenshot.window"@ {
                r matches ScreenshotStep::Window(c) && c matches CaptureType::Window { window_id: w }
                    && w@ == (match window_id { Some(s) => s@, None => "current"@ })
            } else {
                r is Nothing
            }),
    {
        if !self.enabled {
            return ScreenshotStep::Nothing;
        }
        if str_eq(packet_type, "cconnect.screenshot.request") {
            ScreenshotStep::Full
        } else if str_eq(packet_type, "cconnect.screenshot.region") {
            ScreenshotStep::Region(region_capture(x, y, width, height))
        } else if str_eq(packet_type, "cconnect.screenshot.window") {
            ScreenshotStep::Window(window_capture(window_id))
        } else {
            ScreenshotStep::Nothing
        }
    }
}

impl Default for ScreenshotPlugin {
    fn default() -> (r: Self)
        ensures
            r.accepts_packets(),
    {
        ScreenshotPlugin::new()
    }
}

/// Packet types the screenshot plugin accepts.
pub open spec fn screenshot_incoming_capabilities() -> Seq<Seq<char>> {
    seq![
        "cconnect.screenshot.request"@,
        "cconnect.screenshot.region"@,
        "cconnect.screenshot.window"@,
        "kdeconnect.screenshot.request"@,
        "kdeconnect.screenshot.region"@,
        "kdeconnect.screenshot.window"@,
    ]
}

fn incoming_list() -> (r: Vec<String>)
    ensures
        names_view(r@) == screenshot_incoming_capabilities(),
{
    let mut v: Vec<String> = Vec::new();
    v.push(owned("cconnect.screenshot.request"));
    v.push(owned("cconnect.screenshot.region"));
    v.push(owned("cconnect.screenshot.window"));
    v.push(owned("kdeconnect.screenshot.request"));
    v.push(owned("kdeconnect.screenshot.region"));
    v.push(owned("kdeconnect.screenshot.window"));
    assert(names_view(v@) =~= screenshot_incoming_capabilities());
    v
}

fn outgoing_list() -> (r: Vec<String>)
    ensures
        names_view(r@) == seq!["cconnect.screenshot.data"@],
{
    let mut v: Vec<String> = Vec::new();
    v.push(owned("cconnect.screenshot.data"));
    assert(names_view(v@) =~= seq!["cconnect.screenshot.data"@]);
    v
}

/// Creates screenshot plugins.
#[derive(Debug, Clone, Copy)]
pub struct ScreenshotPluginFactory;

impl ScreenshotPluginFactory {
    /// The plugin name.
    pub fn name(&self) -> (r: &'static str)
        ensures
            r@ == "screenshot"@,
    {
        "screenshot"
    }

    /// Packet types the plugin accepts.
    pub fn incoming_capabilities(&self) -> (r: Vec<String>)
        ensures
            names_view(r@) == screenshot_incoming_capabilities(),
    {
        incoming_list()
    }

    /// Packet types the plugin sends.
    pub fn outgoing_capabilities(&self) -> (r: Vec<String>)
        ensures
            names_view(r@) == seq!["cconnect.screenshot.data"@],
    {
        outgoing_list()
    }

    /// A new plugin.
    pub fn create(&self) -> (r: ScreenshotPlugin)
        ensures
            r.accepts_packets(),
    {
        ScreenshotPlugin::new()
    }
}

} // verus!
