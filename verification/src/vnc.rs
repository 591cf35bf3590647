//! The VNC server's protocol decisions and the remote desktop plugin.
//!
//! The server handshake, the client messages it reads and the updates it
//! writes are decided here on bytes; sockets, capture and the virtual
//! input device stay with the runtime.
use crate::bytes::{be16, be32, from_be32, u32_from_be};
use crate::frame::{EncodedFrame, EncodingType, QualityPreset};
use crate::ping::names_view;
use crate::rfb::{
    rectangle_bytes, rectangles_bytes, rfb_encoding_code, FramebufferUpdate, Rectangle, RfbEncoding, SECURITY_NONE,
    SECURITY_VNC_AUTH,
};
use crate::text::{owned, str_eq};
use vstd::prelude::*;

verus! {

/// State of the VNC server.
#[derive(Debug, Clone, Copy, PartialEq, Eq, Structural)]
pub enum ServerState {
    /// Not started.
    Idle,
    /// Waiting for a client.
    Listening,
    /// A client is connected.
    Connected,
    /// Stopped.
    Stopped,
}

/// State of a streaming session.
#[derive(Debug, Clone, Copy, PartialEq, Eq, Structural)]
pub enum StreamState {
    /// Not started.
    Idle,
    /// Frames flow.
    Streaming,
    /// Paused.
    Paused,
    /// Stopped.
    Stopped,
}

/// Configuration of a streaming session.
#[derive(Debug, Clone, Copy, PartialEq, Eq)]
pub struct StreamConfig {
    /// Frames per second aimed at.
    pub target_fps: u32,
    /// Encoder quality.
    pub quality: QualityPreset,
    /// Frames buffered between capture and encoding.
    pub buffer_size: usize,
    /// Whether frames are skipped when the encoder falls behind.
    pub allow_frame_skip: bool,
}

impl Default for StreamConfig {
    /// 30 fps, medium quality, 3 buffered frames, skipping allowed.
    fn default() -> (r: Self)
        ensures
            r.target_fps == 30,
            r.quality == QualityPreset::Medium,
            r.buffer_size == 3,
            r.allow_frame_skip,
    {
        StreamConfig { target_fps: 30, quality: QualityPreset::Medium, buffer_size: 3, allow_frame_skip: true }
    }
}

/// The bytes `RFB 003.00` followed by `minor` and a newline.
pub open spec fn version_bytes(minor: u8) -> Seq<u8> {
    seq![0x52u8, 0x46u8, 0x42u8, 0x20u8, 0x30u8, 0x30u8, 0x33u8, 0x2Eu8, 0x30u8, 0x30u8, minor, 0x0Au8]
}

/// Whether the client speaks RFB 3.8 or 3.3.
pub fn client_version_supported(version: &[u8; 12]) -> (r: bool)
    ensures
        r == (version@ == version_bytes(0x38) || version@ == version_bytes(0x33)),
{
    let v: &[u8] = version.as_slice();
    let prefix = v[0] == 0x52 && v[1] == 0x46 && v[2] == 0x42 && v[3] == 0x20 && v[4] == 0x30 && v[5] == 0x30
        && v[6] == 0x33 && v[7] == 0x2E && v[8] == 0x30 && v[9] == 0x30 && v[11] == 0x0A;
    let r = prefix && (v[10] == 0x38 || v[10] == 0x33);
    proof {
        if version@ == version_bytes(0x38) || version@ == version_bytes(0x33) {
            assert(version@[0] == 0x52 && version@[11] == 0x0A);
        }
        if r {
            assert(version@ =~= version_bytes(version@[10]));
        }
    }
    r
}

/// The security types the server offers: one type, VNC authentication
/// when a password is set, none otherwise.
pub fn security_types(password_empty: bool) -> (r: [u8; 2])
    ensures
        r@ == seq![1u8, if password_empty { SECURITY_NONE } else { SECURITY_VNC_AUTH }],
{
    let r = if password_empty { [1u8, SECURITY_NONE] } else { [1u8, SECURITY_VNC_AUTH] };
    assert(r@ =~= seq![1u8, if password_empty { SECURITY_NONE } else { SECURITY_VNC_AUTH }]);
    r
}

/// Whether the security type the client chose asks for VNC
/// authentication.
pub fn needs_vnc_auth(chosen: u8) -> (r: bool)
    ensures
        r == (chosen == SECURITY_VNC_AUTH),
{
    chosen == SECURITY_VNC_AUTH
}

/// The encoding a code names, if known.
pub open spec fn encoding_of_code(c: i32) -> Option<RfbEncoding> {
    if c == 0 {
        Some(RfbEncoding::Raw)
    } else if c == 1 {
        Some(RfbEncoding::CopyRect)
    } else if c == 2 {
        Some(RfbEncoding::RRE)
    } else if c == 5 {
        Some(RfbEncoding::Hextile)
    } else if c == 16 {
        Some(RfbEncoding::ZRLE)
    } else if c == -239 {
        Some(RfbEncoding::Cursor)
    } else if c == -223 {
        Some(RfbEncoding::DesktopSize)
    } else {
        None
    }
}

/// The big-endian 32-bit signed values of consecutive groups of four
/// bytes.
pub open spec fn be_i32_at(b: Seq<u8>, i: int) -> i32 {
    from_be32(b[4 * i], b[4 * i + 1], b[4 * i + 2], b[4 * i + 3]) as i32
}

/// The known encodings among the first `n` codes of `b`, in order.
pub open spec fn known_encodings(b: Seq<u8>, n: int) -> Seq<RfbEncoding>
    decreases n,
{
    if n <= 0 {
        Seq::empty()
    } else {
        known_encodings(b, n - 1) + match encoding_of_code(be_i32_at(b, n - 1)) {
            Some(e) => seq![e],
            None => Seq::<RfbEncoding>::empty(),
        }
    }
}

/// `encoding_of_code` reads back the RFC 6143 number of every encoding,
/// and a number it knows is that encoding's number.
pub proof fn lemma_encoding_numbers(e: RfbEncoding, c: i32)
    ensures
        encoding_of_code(rfb_encoding_code(e)) == Some(e),
        encoding_of_code(c) matches Some(f) ==> rfb_encoding_code(f) == c,
{
}

/// The SetEncodings list body for `es`: each encoding's number, big-endian
/// in four bytes (two's complement), in order.
pub open spec fn encodings_bytes(es: Seq<RfbEncoding>) -> Seq<u8>
    decreases es.len(),
{
    if es.len() == 0 {
        Seq::empty()
    } else {
        encodings_bytes(es.drop_last()) + be32(rfb_encoding_code(es.last()) as u32)
    }
}

/// `known_encodings` reads only the first `4 * n` bytes.
proof fn lemma_known_encodings_prefix(b: Seq<u8>, c: Seq<u8>, n: int)
    requires
        n >= 0,
        b.len() >= 4 * n,
        c.len() >= 4 * n,
        b.take(4 * n) == c.take(4 * n),
    ensures
        known_encodings(b, n) == known_encodings(c, n),
    decreases n,
{
    if n > 0 {
        assert(b.take(4 * (n - 1)) =~= b.take(4 * n).take(4 * (n - 1)));
        assert(c.take(4 * (n - 1)) =~= c.take(4 * n).take(4 * (n - 1)));
        lemma_known_encodings_prefix(b, c, n - 1);
        assert(b[4 * (n - 1)] == b.take(4 * n)[4 * (n - 1)]);
        assert(b[4 * (n - 1) + 1] == b.take(4 * n)[4 * (n - 1) + 1]);
        assert(b[4 * (n - 1) + 2] == b.take(4 * n)[4 * (n - 1) + 2]);
        assert(b[4 * (n - 1) + 3] == b.take(4 * n)[4 * (n - 1) + 3]);
        assert(c[4 * (n - 1)] == c.take(4 * n)[4 * (n - 1)]);
        assert(c[4 * (n - 1) + 1] == c.take(4 * n)[4 * (n - 1) + 1]);
        assert(c[4 * (n - 1) + 2] == c.take(4 * n)[4 * (n - 1) + 2]);
        assert(c[4 * (n - 1) + 3] == c.take(4 * n)[4 * (n - 1) + 3]);
    }
}

/// SetEncodings layout (RFC 6143): the list is one big-endian four-byte
/// number per encoding, so a list written from encodings `es` decodes to
/// exactly `es`, in order.
pub proof fn lemma_set_encodings_layout(es: Seq<RfbEncoding>)
    ensures
        encodings_bytes(es).len() == 4 * es.len(),
        known_encodings(encodings_bytes(es), es.len() as int) == es,
    decreases es.len(),
{
    if es.len() > 0 {
        let init = es.drop_last();
        let e = es.last();
        let code = rfb_encoding_code(e);
        let u = code as u32;
        let b = encodings_bytes(es);
        let n = es.len() as int;
        lemma_set_encodings_layout(init);
        assert(b.take(4 * (n - 1)) =~= encodings_bytes(init).take(4 * (n - 1)));
        lemma_known_encodings_prefix(b, encodings_bytes(init), n - 1);
        assert(encodings_bytes(init).take(4 * (n - 1)) =~= encodings_bytes(init));
        crate::bytes::lemma_be32_roundtrip(u);
        let k = 4 * (n - 1);
        assert(b[k] == be32(u)[0] && b[k + 1] == be32(u)[1] && b[k + 2] == be32(u)[2] && b[k + 3] == be32(u)[3]);
        assert((code as u32) as i32 == code) by (bit_vector);
        assert(be_i32_at(b, n - 1) == code);
        lemma_encoding_numbers(e, code);
        assert(known_encodings(b, n) =~= init.push(e));
        assert(es =~= init.push(e));
    }
}

/// The encodings of a SetEncodings message: the `count` big-endian codes
/// of `codes`, unknown ones left out.
pub fn decode_encodings(codes: &[u8], count: u16) -> (r: Vec<RfbEncoding>)
    requires
        codes@.len() >= 4 * count,
    ensures
        r@ == known_encodings(codes@, count as int),
{
    let mut out: Vec<RfbEncoding> = Vec::new();
    let mut i: usize = 0;
    while i < count as usize
        invariant
            i <= count,
            codes@.len() >= 4 * count,
            out@ == known_encodings(codes@, i as int),
        decreases count - i,
    {
        let raw = u32_from_be(codes[4 * i], codes[4 * i + 1], codes[4 * i + 2], codes[4 * i + 3]);
        let value = raw as i32;
        assert(value == be_i32_at(codes@, i as int));
        match RfbEncoding::from_i32(value) {
            Some(e) => {
                out.push(e);
                assert(encoding_of_code(value) == Some(e));
                assert(out@ =~= known_encodings(codes@, i as int) + seq![e]);
            },
            None => {
                assert(encoding_of_code(value) is None);
                assert(out@ =~= known_encodings(codes@, i as int) + Seq::<RfbEncoding>::empty());
            },
        }
        i = i + 1;
    }
    out
}

/// The length of the text of a ClientCutText message, from the seven
/// bytes after its type (three of padding, then the length).
pub fn cut_text_length(header: &[u8; 7]) -> (r: u32)
    ensures
        r == from_be32(header@[3], header@[4], header@[5], header@[6]),
{
    u32_from_be(header[3], header[4], header[5], header[6])
}

/// The RFB encoding announced for a frame: hextile frames as hextile,
/// every other frame as raw.
pub open spec fn rfb_encoding_for(e: EncodingType) -> RfbEncoding {
    match e {
        EncodingType::Hextile => RfbEncoding::Hextile,
        _ => RfbEncoding::Raw,
    }
}

/// The bytes of the single-rectangle update carrying a frame at the
/// origin: its size truncated to 16 bits, its encoding announced.
pub open spec fn frame_update_bytes(width: u32, height: u32, encoding: EncodingType, data: Seq<u8>) -> Seq<u8> {
    seq![0u8, 0u8] + be16(1) + be16(0) + be16(0) + be16(width as u16) + be16(height as u16)
        + be32(rfb_encoding_code(rfb_encoding_for(encoding)) as u32) + data
}

/// Framebuffer update layout (RFC 6143, FramebufferUpdate): message type
/// 0, a padding byte, one rectangle; the rectangle at (0, 0) has the
/// frame's width in bytes 8 and 9 and its height in bytes 10 and 11
/// (big-endian, each cut to 16 bits), the encoding number in bytes 12 to
/// 15 (Hextile 5, anything else sent as Raw 0), then the data unchanged.
pub proof fn lemma_frame_update_layout(width: u32, height: u32, encoding: EncodingType, data: Seq<u8>)
    ensures
        ({
            let b = frame_update_bytes(width, height, encoding, data);
            &&& b.len() == 16 + data.len()
            &&& b[0] == 0
            &&& b[2] as int * 256 + b[3] as int == 1
            &&& b[4] as int * 256 + b[5] as int == 0
            &&& b[6] as int * 256 + b[7] as int == 0
            &&& b[8] as int * 256 + b[9] as int == width as u16
            &&& b[10] as int * 256 + b[11] as int == height as u16
            &&& (width < 0x1_0000 ==> b[8] as int * 256 + b[9] as int == width)
            &&& (height < 0x1_0000 ==> b[10] as int * 256 + b[11] as int == height)
            &&& from_be32(b[12], b[13], b[14], b[15]) == (if encoding == EncodingType::Hextile { 5u32 } else { 0u32 })
            &&& b.subrange(16, b.len() as int) == data
        }),
{
    let b = frame_update_bytes(width, height, encoding, data);
    let w = width as u16;
    let h = height as u16;
    let code = rfb_encoding_code(rfb_encoding_for(encoding)) as u32;
    crate::bytes::lemma_be16_roundtrip(w);
    crate::bytes::lemma_be16_roundtrip(h);
    crate::bytes::lemma_be32_roundtrip(code);
    assert(b[8] == be16(w)[0] && b[9] == be16(w)[1]);
    assert(b[10] == be16(h)[0] && b[11] == be16(h)[1]);
    assert(b[12] == be32(code)[0] && b[13] == be32(code)[1] && b[14] == be32(code)[2] && b[15] == be32(code)[3]);
    assert(b.subrange(16, b.len() as int) =~= data);
    if width < 0x1_0000 {
        assert(width as u16 == width) by (bit_vector)
            requires width < 0x1_0000u32;
    }
    if height < 0x1_0000 {
        assert(height as u16 == height) by (bit_vector)
            requires height < 0x1_0000u32;
    }
}

/// The bytes of the framebuffer update carrying `frame`.
pub fn framebuffer_update_for(frame: &EncodedFrame) -> (r: Vec<u8>)
    ensures
        r@ == frame_update_bytes(frame.width, frame.height, frame.encoding, frame.data@),
{
    let encoding = match frame.encoding {
        EncodingType::Hextile => RfbEncoding::Hextile,
        _ => RfbEncoding::Raw,
    };
    let mut data: Vec<u8> = Vec::new();
    let mut i: usize = 0;
    while i < frame.data.len()
        invariant
            i <= frame.data@.len(),
            data@ == frame.data@.take(i as int),
        decreases frame.data@.len() - i,
    {
        data.push(frame.data[i]);
        i = i + 1;
        assert(data@ =~= frame.data@.take(i as int));
    }
    assert(frame.data@.take(i as int) =~= frame.data@);
    let w16: u16 = #[verifier::truncate] (frame.width as u16);
    let h16: u16 = #[verifier::truncate] (frame.height as u16);
    let rect = Rectangle::new(0, 0, w16, h16, encoding.to_i32(), data);
    let mut rects: Vec<Rectangle> = Vec::new();
    rects.push(rect);
    let update = FramebufferUpdate::new(rects);
    let r = update.to_bytes();
    proof {
        let rs = update.rectangles@;
        assert(rs.len() == 1);
        assert(rs.drop_last() =~= Seq::<Rectangle>::empty());
        assert(rectangles_bytes(rs.drop_last()) =~= Seq::<u8>::empty());
        assert(rectangles_bytes(rs) =~= rectangles_bytes(rs.drop_last()) + rectangle_bytes(rs.last()));
        assert(rectangles_bytes(rs) =~= rectangle_bytes(rs[0]));
        assert(r@ =~= frame_update_bytes(frame.width, frame.height, frame.encoding, frame.data@));
    }
    r
}

/// A packet the remote desktop plugin received, with its body read.
#[derive(Debug)]
pub enum RemoteDesktopPacket {
    /// `cconnect.remotedesktop.request` with its `mode`, `quality` and
    /// `fps` fields, when present with the right type.
    Request { mode: Option<String>, quality: Option<String>, fps: Option<u64> },
    /// `cconnect.remotedesktop.control` with its `action`, when a string.
    Control { action: Option<String> },
    /// Any other packet.
    Other,
}

/// A control action.
#[derive(Debug, Clone, Copy, PartialEq, Eq, Structural)]
pub enum SessionControl {
    /// Stop the session.
    Stop,
    /// Pause it.
    Pause,
    /// Resume it.
    Resume,
}

/// What the runtime does for a packet.
#[derive(Debug)]
pub enum RemoteDesktopStep {
    /// Nothing.
    Nothing,
    /// A session is already running: answer `busy`.
    Busy,
    /// Start a session on this port, with the request's parameters (mode
    /// `control`, quality `medium`, 30 fps when absent), and answer with
    /// `session_response`.
    StartSession { port: u16, mode: String, quality: String, fps: u64 },
    /// Apply a control action, then report with `control_event`.
    Control { action: SessionControl, name: String },
    /// An unknown control action: reported as done.
    UnknownControl { name: String },
}

/// The answer to a session request.
#[derive(Debug)]
pub enum RemoteDesktopResponse {
    /// `status: ready` with the VNC port, password and resolution.
    Ready { port: u16, password: String, width: u32, height: u32 },
    /// `status: denied` with the error.
    Denied { error: String },
}

/// A started session, as the session manager reports it.
#[derive(Debug)]
pub struct SessionInfo {
    /// VNC port.
    pub port: u16,
    /// VNC password.
    pub password: String,
    /// Screen width.
    pub width: u32,
    /// Screen height.
    pub height: u32,
}

/// The event reporting a control action.
#[derive(Debug)]
pub enum ControlEvent {
    /// `event: control_success` with the action name.
    Success { action: String },
    /// `event: error` with the error message.
    Error { message: String },
}

/// The control action named `a`, if known.
pub open spec fn session_control_of(a: Seq<char>) -> Option<SessionControl> {
    if a == "stop"@ {
        Some(SessionControl::Stop)
    } else if a == "pause"@ {
        Some(SessionControl::Pause)
    } else if a == "resume"@ {
        Some(SessionControl::Resume)
    } else {
        None
    }
}

/// The VNC port sessions are started on.
pub const VNC_PORT: u16 = 5900;

/// Remote desktop plugin state.
#[derive(Debug)]
pub struct RemoteDesktopPlugin {
    device_id: Option<String>,
    enabled: bool,
}

impl RemoteDesktopPlugin {
    /// Whether packets are handled.
    pub closed spec fn is_enabled(&self) -> bool {
        self.enabled
    }

    /// Whether the plugin is attached to a device.
    pub closed spec fn attached(&self) -> bool {
        self.device_id is Some
    }

    /// A disabled plugin, not attached.
    pub fn new() -> (r: Self)
        ensures
            !r.is_enabled(),
            !r.attached(),
    {
        RemoteDesktopPlugin { device_id: None, enabled: false }
    }

    /// The plugin name.
    pub fn name(&self) -> (r: &'static str)
        ensures
            r@ == "remotedesktop"@,
    {
        "remotedesktop"
    }

    /// Packet types the plugin accepts.
    pub fn incoming_capabilities(&self) -> (r: Vec<String>)
        ensures
            names_view(r@) == seq!["cconnect.remotedesktop.request"@, "cconnect.remotedesktop.control"@],
    {
        incoming_list()
    }

    /// Packet types the plugin sends.
    pub fn outgoing_capabilities(&self) -> (r: Vec<String>)
        ensures
            names_view(r@) == seq!["cconnect.remotedesktop.response"@, "cconnect.remotedesktop.event"@],
    {
        outgoing_list()
    }

    /// Attaches the plugin to a device.
    pub fn init(&mut self, device_id: &str)
        ensures
            final(self).attached(),
            final(self).is_enabled() == old(self).is_enabled(),
    {
        self.device_id = Some(owned(device_id));
    }

    /// Whether the plugin is attached to a device.
    pub fn is_attached(&self) -> (r: bool)
        ensures
            r == self.attached(),
    {
        self.device_id.is_some()
    }

    /// Whether packets are handled.
    pub fn enabled(&self) -> (r: bool)
        ensures
            r == self.is_enabled(),
    {
        self.enabled
    }

    /// Enables packet handling.
    pub fn start(&mut self)
        ensures
            final(self).is_enabled(),
            final(self).attached() == old(self).attached(),
    {
        self.enabled = true;
    }

    /// Disables packet handling.
    pub fn stop(&mut self)
        ensures
            !final(self).is_enabled(),
            final(self).attached() == old(self).attached(),
    {
        self.enabled = false;
    }

    /// Decides what a packet does.  A disabled plugin ignores everything.
    /// A session request is refused as busy unless the session manager is
    /// idle, else starts a session on `VNC_PORT`.  A control packet without
    /// action does nothing; a known action is applied, an unknown one
    /// reported as done.
    pub fn handle_packet(&self, packet: RemoteDesktopPacket, session_idle: bool) -> (r: RemoteDesktopStep)
        ensures
            !self.is_enabled() ==> r is Nothing,
            self.is_enabled() ==> match packet {
                RemoteDesktopPacket::Request { mode, quality, fps } => if !session_idle {
                    r is Busy
                } else {
                    r matches RemoteDesktopStep::StartSession { port, mode: m, quality: q, fps: f }
                        && port == VNC_PORT
                        && m@ == (match mode { Some(s) => s@, None => "control"@ })
                        && q@ == (match quality { Some(s) => s@, None => "medium"@ })
                        && f == (match fps { Some(v) => v, None => 30u64 })
                },
                RemoteDesktopPacket::Control { action } => match action {
                    None => r is Nothing,
                    Some(a) => match session_control_of(a@) {
                        Some(c) => r matches RemoteDesktopStep::Control { action: ca, name } && ca == c && name@ == a@,
                        None => r matches RemoteDesktopStep::UnknownControl { name } && name@ == a@,
                    },
                },
                RemoteDesktopPacket::Other => r is Nothing,
            },
    {
        if !self.enabled {
            return RemoteDesktopStep::Nothing;
        }
        match packet {
            RemoteDesktopPacket::Request { mode, quality, fps } => {
                if !session_idle {
                    return RemoteDesktopStep::Busy;
                }
                RemoteDesktopStep::StartSession {
                    port: VNC_PORT,
                    mode: match mode { Some(s) => s, None => owned("control") },
                    quality: match quality { Some(s) => s, None => owned("medium") },
                    fps: match fps { Some(v) => v, None => 30 },
                }
            },
            RemoteDesktopPacket::Control { action } => match action {
                None => RemoteDesktopStep::Nothing,
                Some(a) => {
                    if str_eq(a.as_str(), "stop") {
                        RemoteDesktopStep::Control { action: SessionControl::Stop, name: a }
                    } else if str_eq(a.as_str(), "pause") {
                        RemoteDesktopStep::Control { action: SessionControl::Pause, name: a }
                    } else if str_eq(a.as_str(), "resume") {
                        RemoteDesktopStep::Control { action: SessionControl::Resume, name: a }
                    } else {
                        RemoteDesktopStep::UnknownControl { name: a }
                    }
                },
            },
            RemoteDesktopPacket::Other => RemoteDesktopStep::Nothing,
        }
    }
}

/// The answer to a session request once the session manager tried to
/// start the session.
pub fn session_response(outcome: Result<SessionInfo, String>) -> (r: RemoteDesktopResponse)
    ensures
        match outcome {
            Ok(info) => r matches RemoteDesktopResponse::Ready { port, password, width, height } && port == info.port
                && password@ == info.password@ && width == info.width && height == info.height,
            Err(e) => r matches RemoteDesktopResponse::Denied { error } && error@ == e@,
        },
{
    match outcome {
        Ok(info) => RemoteDesktopResponse::Ready { port: info.port, password: info.password, width: info.width, height: info.height },
        Err(e) => RemoteDesktopResponse::Denied { error: e },
    }
}

/// The event reporting a control action once applied.
pub fn control_event(action: &str, outcome: Result<(), String>) -> (r: ControlEvent)
    ensures
        match outcome {
            Ok(()) => r matches ControlEvent::Success { action: a } && a@ == action@,
            Err(e) => r matches ControlEvent::Error { message } && message@ == e@,
        },
{
    match outcome {
        Ok(()) => ControlEvent::Success { action: owned(action) },
        Err(e) => ControlEvent::Error { message: e },
    }
}

impl Default for RemoteDesktopPlugin {
    fn default() -> (r: Self)
        ensures
            !r.is_enabled(),
    {
        RemoteDesktopPlugin::new()
    }
}

fn incoming_list() -> (r: Vec<String>)
    ensures
        names_view(r@) == seq!["cconnect.remotedesktop.request"@, "cconnect.remotedesktop.control"@],
{
    let mut v: Vec<String> = Vec::new();
    v.push(owned("cconnect.remotedesktop.request"));
    v.push(owned("cconnect.remotedesktop.control"));
    assert(names_view(v@) =~= seq!["cconnect.remotedesktop.request"@, "cconnect.remotedesktop.control"@]);
    v
}

fn outgoing_list() -> (r: Vec<String>)
    ensures
        names_view(r@) == seq!["cconnect.remotedesktop.response"@, "cconnect.remotedesktop.event"@],
{
    let mut v: Vec<String> = Vec::new();
    v.push(owned("cconnect.remotedesktop.response"));
    v.push(owned("cconnect.remotedesktop.event"));
    assert(names_view(v@) =~= seq!["cconnect.remotedesktop.response"@, "cconnect.remotedesktop.event"@]);
    v
}

/// Creates remote desktop plugins.
#[derive(Debug, Clone, Copy)]
pub struct RemoteDesktopPluginFactory;

impl RemoteDesktopPluginFactory {
    /// The plugin name.
    pub fn name(&self) -> (r: &'static str)
        ensures
            r@ == "remotedesktop"@,
    {
        "remotedesktop"
    }

    /// Packet types the plugin accepts.
    pub fn incoming_capabilities(&self) -> (r: Vec<String>)
        ensures
            names_view(r@) == seq!["cconnect.remotedesktop.request"@, "cconnect.remotedesktop.control"@],
    {
        incoming_list()
    }

    /// Packet types the plugin sends.
    pub fn outgoing_capabilities(&self) -> (r: Vec<String>)
        ensures
            names_view(r@) == seq!["cconnect.remotedesktop.response"@, "cconnect.remotedesktop.event"@],
    {
        outgoing_list()
    }

    /// A new plugin.
    pub fn create(&self) -> (r: RemoteDesktopPlugin)
        ensures
            !r.is_enabled(),
    {
        RemoteDesktopPlugin::new()
    }
}

/// Why a streaming session refused a transition.
#[derive(Debug, Clone, Copy, PartialEq, Eq, Structural)]
pub enum StreamTransitionError {
    /// Starting a session that already started.
    AlreadyStarted,
    /// Pausing a session that is not streaming.
    NotStreaming,
    /// Resuming a session that is not paused.
    NotPaused,
}

/// Starting: only an idle session starts streaming.
pub open spec fn start_of(state: StreamState) -> Result<StreamState, StreamTransitionError> {
    if state == StreamState::Idle {
        Ok(StreamState::Streaming)
    } else {
        Err(StreamTransitionError::AlreadyStarted)
    }
}

/// Pausing: only a streaming session pauses.
pub open spec fn pause_of(state: StreamState) -> Result<StreamState, StreamTransitionError> {
    if state == StreamState::Streaming {
        Ok(StreamState::Paused)
    } else {
        Err(StreamTransitionError::NotStreaming)
    }
}

/// Resuming: only a paused session resumes streaming.
pub open spec fn resume_of(state: StreamState) -> Result<StreamState, StreamTransitionError> {
    if state == StreamState::Paused {
        Ok(StreamState::Streaming)
    } else {
        Err(StreamTransitionError::NotPaused)
    }
}

/// The state after starting.
pub fn stream_start(state: StreamState) -> (r: Result<StreamState, StreamTransitionError>)
    ensures
        r == start_of(state),
{
    if state == StreamState::Idle {
        Ok(StreamState::Streaming)
    } else {
        Err(StreamTransitionError::AlreadyStarted)
    }
}

/// The state after pausing.
pub fn stream_pause(state: StreamState) -> (r: Result<StreamState, StreamTransitionError>)
    ensures
        r == pause_of(state),
{
    if state == StreamState::Streaming {
        Ok(StreamState::Paused)
    } else {
        Err(StreamTransitionError::NotStreaming)
    }
}

/// The state after resuming.
pub fn stream_resume(state: StreamState) -> (r: Result<StreamState, StreamTransitionError>)
    ensures
        r == resume_of(state),
{
    if state == StreamState::Paused {
        Ok(StreamState::Streaming)
    } else {
        Err(StreamTransitionError::NotPaused)
    }
}

/// Pausing a streaming session and resuming it streams again; a session
/// can be paused only while it streams, and resumed only while paused.
pub proof fn lemma_pause_resume(state: StreamState)
    ensures
        pause_of(StreamState::Streaming) == Ok::<StreamState, StreamTransitionError>(StreamState::Paused),
        resume_of(StreamState::Paused) == Ok::<StreamState, StreamTransitionError>(StreamState::Streaming),
        pause_of(state) is Ok <==> state == StreamState::Streaming,
        resume_of(state) is Ok <==> state == StreamState::Paused,
        start_of(state) is Ok <==> state == StreamState::Idle,
{
}

/// Milliseconds between captures at `target_fps` frames per second.
pub fn frame_interval_ms(target_fps: u32) -> (r: u64)
    requires
        target_fps > 0,
    ensures
        r == 1000int / (target_fps as int),
{
    1000 / (target_fps as u64)
}

/// What the capture loop does at a tick.
#[derive(Debug, Clone, Copy, PartialEq, Eq, Structural)]
pub enum CaptureTick {
    /// The session stopped: leave the loop.
    Exit,
    /// The session is paused: wait 100 ms.
    Wait,
    /// Capture a frame.
    Capture,
}

/// The capture loop's decision for a session state.
pub fn capture_tick(state: StreamState) -> (r: CaptureTick)
    ensures
        r == (match state {
            StreamState::Stopped => CaptureTick::Exit,
            StreamState::Paused => CaptureTick::Wait,
            _ => CaptureTick::Capture,
        }),
{
    match state {
        StreamState::Stopped => CaptureTick::Exit,
        StreamState::Paused => CaptureTick::Wait,
        _ => CaptureTick::Capture,
    }
}

/// How handing a frame to the encoder went.
#[derive(Debug, Clone, Copy, PartialEq, Eq, Structural)]
pub enum HandOff {
    /// Accepted.
    Sent,
    /// The buffer was full (only when skipping is allowed).
    Full,
    /// The encoder is gone.
    Closed,
}

/// Counters of a streaming session.
#[derive(Debug, Clone, Copy, PartialEq, Eq, Structural)]
pub struct StreamCounters {
    /// Frames captured.
    pub frames_captured: u64,
    /// Frames encoded.
    pub frames_encoded: u64,
    /// Frames skipped because the buffer was full.
    pub frames_skipped: u64,
}

impl StreamCounters {
    /// All zero.
    pub fn new() -> (r: Self)
        ensures
            r == (StreamCounters { frames_captured: 0, frames_encoded: 0, frames_skipped: 0 }),
    {
        StreamCounters { frames_captured: 0, frames_encoded: 0, frames_skipped: 0 }
    }

    /// Counts a captured frame and how its hand-off went; returns whether
    /// the capture loop goes on (it stops once the encoder is gone).
    /// Counters saturate.
    pub fn captured(&mut self, outcome: HandOff) -> (r: bool)
        ensures
            final(self).frames_captured == (if old(self).frames_captured == u64::MAX { u64::MAX } else { (old(self).frames_captured + 1) as u64 }),
            final(self).frames_skipped == (if outcome == HandOff::Full {
                if old(self).frames_skipped == u64::MAX { u64::MAX } else { (old(self).frames_skipped + 1) as u64 }
            } else {
                old(self).frames_skipped
            }),
            final(self).frames_encoded == old(self).frames_encoded,
            r == (outcome != HandOff::Closed),
    {
        self.frames_captured = self.frames_captured.saturating_add(1);
        match outcome {
            HandOff::Full => {
                self.frames_skipped = self.frames_skipped.saturating_add(1);
                true
            },
            HandOff::Sent => true,
            HandOff::Closed => false,
        }
    }
}

/// Encode times kept for the average.
pub const FRAME_TIME_WINDOW: usize = 30;

/// `Duration / n` on a duration of `total` nanoseconds: seconds and
/// nanoseconds divided separately, the remainder of the seconds carried.
pub open spec fn duration_div(total: int, n: int) -> int {
    let secs = total / 1_000_000_000;
    let sub = total % 1_000_000_000;
    (secs / n) * 1_000_000_000 + ((secs % n) * 1_000_000_000) / n + sub / n
}

/// The sum of `s`.
pub open spec fn sum_of(s: Seq<u64>) -> int
    decreases s.len(),
{
    if s.len() == 0 {
        0
    } else {
        sum_of(s.drop_last()) + s.last()
    }
}

/// The last `FRAME_TIME_WINDOW` encode times, in nanoseconds.
#[derive(Debug)]
pub struct FrameTimes {
    times: Vec<u64>,
}

impl FrameTimes {
    /// The kept times, oldest first.
    pub closed spec fn kept(&self) -> Seq<u64> {
        self.times@
    }

    /// None kept.
    pub fn new() -> (r: Self)
        ensures
            r.kept().len() == 0,
    {
        FrameTimes { times: Vec::new() }
    }

    /// Records an encode time, dropping the oldest beyond the window.
    pub fn record(&mut self, nanos: u64)
        requires
            old(self).kept().len() <= FRAME_TIME_WINDOW,
        ensures
            final(self).kept() == (if old(self).kept().len() + 1 > FRAME_TIME_WINDOW {
                old(self).kept().push(nanos).drop_first()
            } else {
                old(self).kept().push(nanos)
            }),
            final(self).kept().len() <= FRAME_TIME_WINDOW,
    {
        self.times.push(nanos);
        if self.times.len() > FRAME_TIME_WINDOW {
            self.times.remove(0);
            assert(self.times@ =~= old(self).kept().push(nanos).drop_first());
        }
    }

    /// The average of the kept times, as a duration divided by their
    /// count; 0 when none is kept.
    pub fn average(&self) -> (r: u128)
        requires
            self.kept().len() <= FRAME_TIME_WINDOW,
        ensures
            self.kept().len() == 0 ==> r == 0,
            self.kept().len() > 0 ==> r == duration_div(sum_of(self.kept()), self.kept().len() as int),
    {
        let n = self.times.len();
        if n == 0 {
            return 0;
        }
        let mut total: u128 = 0;
        let mut i: usize = 0;
        while i < n
            invariant
                n == self.times@.len(),
                n <= FRAME_TIME_WINDOW,
                i <= n,
                total == sum_of(self.times@.take(i as int)),
                total <= i * 0xFFFF_FFFF_FFFF_FFFF,
            decreases n - i,
        {
            assert(self.times@.take(i + 1).drop_last() =~= self.times@.take(i as int));
            total = total + self.times[i] as u128;
            i = i + 1;
        }
        assert(self.times@.take(i as int) =~= self.times@);
        let d = n as u128;
        let secs = total / 1_000_000_000;
        let sub = total % 1_000_000_000;
        let carry = secs % d;
        assert(carry * 1_000_000_000 < 0x1_0000_0000_0000_0000_0000) by (nonlinear_arith)
            requires carry < d, d <= 30;
        let whole = secs / d;
        assert(whole * 1_000_000_000 <= total) by (nonlinear_arith)
            requires whole == secs / d, secs == total / 1_000_000_000, d >= 1;
        whole * 1_000_000_000 + (carry * 1_000_000_000) / d + sub / d
    }
}

} // verus!
