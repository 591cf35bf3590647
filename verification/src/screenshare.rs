//! One-way screen sharing: the configuration a share is started with, the
//! sharing session (viewers, statistics, cursor and annotations), the
//! sessions kept across reconnections, and the decisions of the plugin.
//!
//! The plugin itself never touches a socket or a task.  Each operation
//! updates the plugin state and returns the list of actions the runtime
//! performs in order (send a packet, emit an internal signal, spawn or
//! abort a streaming task); the runtime feeds back the packets it receives
//! as `ScreenShareEvent`s.
use crate::clock::{instant_now, nanos_since};
use crate::notification::{copy_opt, opt_view};
use crate::text::{owned, str_eq, string_eq_str};
use vstd::prelude::*;

verus! {

/// Most viewers one session serves at once.
pub const MAX_VIEWERS: usize = 10;

/// Most annotations a session keeps; older ones are dropped first.
pub const MAX_ANNOTATIONS: usize = 100;

/// Frame rate of a default configuration.
pub const DEFAULT_FPS: u8 = 30;

/// Bitrate of a default configuration, in kbps.
pub const DEFAULT_BITRATE_KBPS: u32 = 2000;

/// Lowest bitrate the capture adapts down to, in kbps.
pub const MIN_CAPTURE_BITRATE_KBPS: u32 = 200;

/// Highest bitrate the capture adapts up to, in kbps.
pub const MAX_CAPTURE_BITRATE_KBPS: u32 = 50000;

/// What is shared.
#[derive(Debug, Clone, Copy, PartialEq, Eq, Structural)]
pub enum ShareMode {
    /// The entire screen.
    FullScreen,
    /// A single window.
    Window,
}

impl Default for ShareMode {
    fn default() -> (r: Self)
        ensures
            r == ShareMode::FullScreen,
    {
        ShareMode::FullScreen
    }
}

impl ShareMode {
    /// The mode's wire name.
    pub fn as_str(&self) -> (r: &'static str)
        ensures
            r@ == (match *self {
                ShareMode::FullScreen => "fullscreen"@,
                ShareMode::Window => "window"@,
            }),
    {
        match self {
            ShareMode::FullScreen => "fullscreen",
            ShareMode::Window => "window",
        }
    }
}

/// Video codec of the stream.
#[derive(Debug, Clone, Copy, PartialEq, Eq, Structural)]
pub enum VideoCodec {
    /// H.264.
    H264,
    /// VP8.
    Vp8,
    /// VP9.
    Vp9,
}

impl Default for VideoCodec {
    fn default() -> (r: Self)
        ensures
            r == VideoCodec::H264,
    {
        VideoCodec::H264
    }
}

impl VideoCodec {
    /// The codec's wire name.
    pub fn as_str(&self) -> (r: &'static str)
        ensures
            r@ == (match *self {
                VideoCodec::H264 => "h264"@,
                VideoCodec::Vp8 => "vp8"@,
                VideoCodec::Vp9 => "vp9"@,
            }),
    {
        match self {
            VideoCodec::H264 => "h264",
            VideoCodec::Vp8 => "vp8",
            VideoCodec::Vp9 => "vp9",
        }
    }
}

/// Configuration a share is started with.
#[derive(Debug)]
pub struct ShareConfig {
    /// Full screen or a window.
    pub mode: ShareMode,
    /// Title of the shared window, in window mode.
    pub window_title: Option<String>,
    /// Video codec.
    pub codec: VideoCodec,
    /// Target frame rate.
    pub fps: u8,
    /// Target bitrate in kbps.
    pub bitrate_kbps: u32,
    /// Quality preset: `low`, `medium` or `high`.
    pub quality: String,
    /// Whether the cursor is highlighted.
    pub show_cursor: bool,
    /// Whether annotations are enabled.
    pub enable_annotations: bool,
    /// Whether the bitrate adapts to the network.
    pub adaptive_bitrate: bool,
    /// Whether system audio is included.
    pub include_audio: bool,
}

/// A configuration as plain values.
pub struct ShareConfigView {
    pub mode: ShareMode,
    pub window_title: Option<Seq<char>>,
    pub codec: VideoCodec,
    pub fps: u8,
    pub bitrate_kbps: u32,
    pub quality: Seq<char>,
    pub show_cursor: bool,
    pub enable_annotations: bool,
    pub adaptive_bitrate: bool,
    pub include_audio: bool,
}

impl View for ShareConfig {
    type V = ShareConfigView;

    open spec fn view(&self) -> ShareConfigView {
        ShareConfigView {
            mode: self.mode,
            window_title: opt_view(self.window_title),
            codec: self.codec,
            fps: self.fps,
            bitrate_kbps: self.bitrate_kbps,
            quality: self.quality@,
            show_cursor: self.show_cursor,
            enable_annotations: self.enable_annotations,
            adaptive_bitrate: self.adaptive_bitrate,
            include_audio: self.include_audio,
        }
    }
}

/// The default configuration: full screen, H.264, 30 fps, 2000 kbps,
/// medium quality, cursor shown, adaptive bitrate, no annotations, no
/// audio.
pub open spec fn default_share_config() -> ShareConfigView {
    ShareConfigView {
        mode: ShareMode::FullScreen,
        window_title: None,
        codec: VideoCodec::H264,
        fps: DEFAULT_FPS,
        bitrate_kbps: DEFAULT_BITRATE_KBPS,
        quality: "medium"@,
        show_cursor: true,
        enable_annotations: false,
        adaptive_bitrate: true,
        include_audio: false,
    }
}

impl Default for ShareConfig {
    fn default() -> (r: Self)
        ensures
            r@ == default_share_config(),
    {
        ShareConfig {
            mode: ShareMode::FullScreen,
            window_title: None,
            codec: VideoCodec::H264,
            fps: DEFAULT_FPS,
            bitrate_kbps: DEFAULT_BITRATE_KBPS,
            quality: owned("medium"),
            show_cursor: true,
            enable_annotations: false,
            adaptive_bitrate: true,
            include_audio: false,
        }
    }
}

/// The first rule a configuration breaks, in the order they are checked.
#[derive(Debug, Clone, Copy, PartialEq, Eq, Structural)]
pub enum ConfigRule {
    /// The frame rate is within 1..=60.
    FpsRange,
    /// The bitrate is within 100..=50000 kbps.
    BitrateRange,
    /// The quality is `low`, `medium` or `high`.
    QualityName,
    /// Window mode names a window.
    WindowTitle,
}

/// Whether a quality preset name is known.
pub open spec fn quality_name_valid(q: Seq<char>) -> bool {
    q == "low"@ || q == "medium"@ || q == "high"@
}

/// The first rule `c` breaks, `None` when it is valid.
pub open spec fn first_broken_rule(c: ShareConfigView) -> Option<ConfigRule> {
    if c.fps < 1 || c.fps > 60 {
        Some(ConfigRule::FpsRange)
    } else if c.bitrate_kbps < 100 || c.bitrate_kbps > 50000 {
        Some(ConfigRule::BitrateRange)
    } else if !quality_name_valid(c.quality) {
        Some(ConfigRule::QualityName)
    } else if c.mode == ShareMode::Window && c.window_title is None {
        Some(ConfigRule::WindowTitle)
    } else {
        None
    }
}

/// Why a configuration was refused.
#[derive(Debug)]
pub enum ShareConfigError {
    /// The frame rate, outside 1..=60.
    InvalidFps(u8),
    /// The bitrate in kbps, outside 100..=50000.
    InvalidBitrate(u32),
    /// The unknown quality name.
    InvalidQuality(String),
    /// Window mode without a window title.
    WindowTitleRequired,
}

/// The error `validate` reports for a configuration breaking `rule`.
pub open spec fn config_error_matches(e: ShareConfigError, c: ShareConfigView, rule: ConfigRule) -> bool {
    match rule {
        ConfigRule::FpsRange => e matches ShareConfigError::InvalidFps(f) && f == c.fps,
        ConfigRule::BitrateRange => e matches ShareConfigError::InvalidBitrate(b) && b == c.bitrate_kbps,
        ConfigRule::QualityName => e matches ShareConfigError::InvalidQuality(q) && q@ == c.quality,
        ConfigRule::WindowTitle => e is WindowTitleRequired,
    }
}

impl ShareConfig {
    /// A copy of the configuration.
    pub fn duplicate(&self) -> (r: Self)
        ensures
            r@ == self@,
    {
        ShareConfig {
            mode: self.mode,
            window_title: copy_opt(&self.window_title),
            codec: self.codec,
            fps: self.fps,
            bitrate_kbps: self.bitrate_kbps,
            quality: owned(self.quality.as_str()),
            show_cursor: self.show_cursor,
            enable_annotations: self.enable_annotations,
            adaptive_bitrate: self.adaptive_bitrate,
            include_audio: self.include_audio,
        }
    }

    /// Checks the frame rate, the bitrate, the quality name and the window
    /// title, in that order, and reports the first rule broken.
    pub fn validate(&self) -> (r: Result<(), ShareConfigError>)
        ensures
            match r {
                Ok(()) => first_broken_rule(self@) is None,
                Err(e) => first_broken_rule(self@) matches Some(rule) && config_error_matches(e, self@, rule),
            },
    {
        if self.fps < 1 || self.fps > 60 {
            return Err(ShareConfigError::InvalidFps(self.fps));
        }
        if self.bitrate_kbps < 100 || self.bitrate_kbps > 50000 {
            return Err(ShareConfigError::InvalidBitrate(self.bitrate_kbps));
        }
        let q = self.quality.as_str();
        if !(str_eq(q, "low") || str_eq(q, "medium") || str_eq(q, "high")) {
            return Err(ShareConfigError::InvalidQuality(owned(q)));
        }
        if self.mode == ShareMode::Window && self.window_title.is_none() {
            return Err(ShareConfigError::WindowTitleRequired);
        }
        Ok(())
    }
}

/// Cursor position on the shared screen.
#[derive(Debug, Clone, Copy, PartialEq, Eq, Structural)]
pub struct CursorPosition {
    /// X coordinate.
    pub x: i32,
    /// Y coordinate.
    pub y: i32,
    /// Whether the cursor is visible.
    pub visible: bool,
}

/// A drawing on the shared screen.
#[derive(Debug)]
pub struct Annotation {
    /// Kind of drawing: line, circle, rectangle or freehand.
    pub annotation_type: String,
    /// Start X coordinate.
    pub x1: i32,
    /// Start Y coordinate.
    pub y1: i32,
    /// End X coordinate, for lines and shapes.
    pub x2: Option<i32>,
    /// End Y coordinate, for lines and shapes.
    pub y2: Option<i32>,
    /// Colour, as RGB hex.
    pub color: String,
    /// Line width.
    pub width: u8,
}

/// An annotation as plain values.
pub struct AnnotationView {
    pub annotation_type: Seq<char>,
    pub x1: i32,
    pub y1: i32,
    pub x2: Option<i32>,
    pub y2: Option<i32>,
    pub color: Seq<char>,
    pub width: u8,
}

impl View for Annotation {
    type V = AnnotationView;

    open spec fn view(&self) -> AnnotationView {
        AnnotationView {
            annotation_type: self.annotation_type@,
            x1: self.x1,
            y1: self.y1,
            x2: self.x2,
            y2: self.y2,
            color: self.color@,
            width: self.width,
        }
    }
}

/// Statistics of a sharing session.
#[derive(Debug, Clone, Copy, PartialEq, Eq, Structural)]
pub struct ShareStats {
    /// Session duration in whole seconds.
    pub duration_secs: u64,
    /// Frames sent.
    pub frames_sent: u64,
    /// Bytes sent.
    pub bytes_sent: u64,
    /// Current number of viewers.
    pub viewer_count: usize,
    /// Average frames per second (whole).
    pub avg_fps: u64,
    /// Average bitrate in kbps (whole).
    pub avg_bitrate_kbps: u64,
}

/// An encoded frame handed to every viewer's sender.
#[derive(Debug)]
pub struct BroadcastFrame {
    /// Encoded frame data.
    pub data: Vec<u8>,
    /// Presentation timestamp.
    pub pts: u64,
}

/// A session as plain values.
pub struct SessionView {
    pub config: ShareConfigView,
    pub viewers: Seq<Seq<char>>,
    pub frames_sent: u64,
    pub bytes_sent: u64,
    pub cursor_position: Option<CursorPosition>,
    pub annotations: Seq<AnnotationView>,
}

/// Whether no string occurs twice in `s`.
pub open spec fn no_duplicates(s: Seq<Seq<char>>) -> bool {
    forall|i: int, j: int| 0 <= i < s.len() && 0 <= j < s.len() && i != j ==> s[i] != s[j]
}

/// The views of a sequence of strings.
pub open spec fn string_views(v: Seq<String>) -> Seq<Seq<char>> {
    Seq::new(v.len(), |i: int| v[i]@)
}

/// The views of a sequence of annotations.
pub open spec fn annotation_views(v: Seq<Annotation>) -> Seq<AnnotationView> {
    Seq::new(v.len(), |i: int| v[i]@)
}

/// The whole seconds in `nanos` nanoseconds.
pub open spec fn whole_seconds(nanos: u64) -> u64 {
    nanos / 1_000_000_000
}

/// Statistics of session `s`, `secs` whole seconds after it started.
pub open spec fn stats_of(s: SessionView, secs: u64) -> ShareStats {
    ShareStats {
        duration_secs: secs,
        frames_sent: s.frames_sent,
        bytes_sent: s.bytes_sent,
        viewer_count: s.viewers.len() as usize,
        avg_fps: if secs > 0 { (s.frames_sent / secs) as u64 } else { 0 },
        avg_bitrate_kbps: if secs > 0 { ((s.bytes_sent * 8) / (secs * 1000)) as u64 } else { 0 },
    }
}

/// Session averages: over `secs > 0` seconds the average frame rate is
/// the whole number of frames per second, and the average bitrate the whole
/// number of kilobits (1000 bits, 8 bits a byte) per second; each is the
/// largest whole rate that the counts reach.  Before a whole second has
/// passed both are 0.  The counts and the viewer number are reported as
/// they are.
pub proof fn lemma_stats_averages(s: SessionView, secs: u64)
    ensures
        ({
            let st = stats_of(s, secs);
            &&& st.duration_secs == secs
            &&& st.frames_sent == s.frames_sent
            &&& st.bytes_sent == s.bytes_sent
            &&& s.viewers.len() <= usize::MAX ==> st.viewer_count == s.viewers.len()
            &&& secs == 0 ==> st.avg_fps == 0 && st.avg_bitrate_kbps == 0
            &&& secs > 0 ==> st.avg_fps * secs <= s.frames_sent < (st.avg_fps + 1) * secs
            &&& secs > 0 ==> st.avg_bitrate_kbps * secs * 1000 <= s.bytes_sent * 8
                < (st.avg_bitrate_kbps + 1) * secs * 1000
        }),
{
    if secs > 0 {
        let f = s.frames_sent as int;
        let n = secs as int;
        let bits = s.bytes_sent as int * 8;
        let d = n * 1000;
        vstd::arithmetic::div_mod::lemma_fundamental_div_mod(f, n);
        vstd::arithmetic::div_mod::lemma_fundamental_div_mod(bits, d);
        assert((f / n) * n <= f < (f / n + 1) * n) by (nonlinear_arith)
            requires f == n * (f / n) + f % n, 0 <= f % n < n;
        assert((bits / d) * d <= bits < (bits / d + 1) * d) by (nonlinear_arith)
            requires bits == d * (bits / d) + bits % d, 0 <= bits % d < d;
        assert((bits / d) * n * 1000 == (bits / d) * d && (bits / d + 1) * n * 1000 == (bits / d + 1) * d)
            by (nonlinear_arith)
            requires d == n * 1000;
        assert(0 <= bits / d <= bits / 1000) by {
            vstd::arithmetic::div_mod::lemma_div_is_ordered_by_denominator(bits, 1000, d);
        }
        assert(bits / 1000 <= u64::MAX);
        assert(stats_of(s, secs).avg_bitrate_kbps == bits / d);
        assert(stats_of(s, secs).avg_fps == f / n);
    }
}

/// The annotation list after adding `a` to `s`: the oldest is dropped once
/// more than `MAX_ANNOTATIONS` are kept.
pub open spec fn annotations_after_add(s: Seq<AnnotationView>, a: AnnotationView) -> Seq<AnnotationView> {
    let pushed = s.push(a);
    if pushed.len() > MAX_ANNOTATIONS {
        pushed.drop_first()
    } else {
        pushed
    }
}

/// `s` with `x` appended, unless it already holds it.
pub open spec fn seq_insert_unique(s: Seq<Seq<char>>, x: Seq<char>) -> Seq<Seq<char>> {
    if s.contains(x) {
        s
    } else {
        s.push(x)
    }
}

/// `s` without its occurrence of `x`, if any.
pub open spec fn seq_remove_value(s: Seq<Seq<char>>, x: Seq<char>) -> Seq<Seq<char>> {
    if s.contains(x) {
        s.remove(s.index_of(x))
    } else {
        s
    }
}

/// Session `s` once `id` asked to view it: it joins unless `MAX_VIEWERS`
/// are already connected.
pub open spec fn session_with_viewer(s: SessionView, id: Seq<char>) -> SessionView {
    if s.viewers.len() >= MAX_VIEWERS {
        s
    } else {
        SessionView { viewers: seq_insert_unique(s.viewers, id), ..s }
    }
}

/// Session `s` once `id` left it.
pub open spec fn session_without_viewer(s: SessionView, id: Seq<char>) -> SessionView {
    SessionView { viewers: seq_remove_value(s.viewers, id), ..s }
}

/// Viewers of a session without duplicates: a viewer that asks to join
/// is connected afterwards unless `MAX_VIEWERS` already are, every viewer
/// connected before still is, and nobody else joins; a viewer that leaves
/// is no longer connected and everybody else stays.  Neither changes the
/// counts, the annotations or the configuration, and neither lets a viewer
/// appear twice or the number of viewers pass the limit.
pub proof fn lemma_viewer_membership(s: SessionView, id: Seq<char>, other: Seq<char>)
    requires
        no_duplicates(s.viewers),
    ensures
        ({
            let joined = session_with_viewer(s, id);
            &&& s.viewers.len() < MAX_VIEWERS ==> joined.viewers.contains(id)
            &&& joined.viewers.contains(other) <==> (s.viewers.contains(other) || (other == id && s.viewers.len() < MAX_VIEWERS))
            &&& no_duplicates(joined.viewers)
            &&& s.viewers.len() <= MAX_VIEWERS ==> joined.viewers.len() <= MAX_VIEWERS
            &&& joined.frames_sent == s.frames_sent && joined.bytes_sent == s.bytes_sent
            &&& joined.annotations == s.annotations && joined.config == s.config
        }),
        ({
            let left = session_without_viewer(s, id);
            &&& !left.viewers.contains(id)
            &&& other != id ==> (left.viewers.contains(other) <==> s.viewers.contains(other))
            &&& no_duplicates(left.viewers)
            &&& left.viewers.len() <= s.viewers.len()
            &&& left.frames_sent == s.frames_sent && left.bytes_sent == s.bytes_sent
            &&& left.annotations == s.annotations && left.config == s.config
        }),
{
    let v = s.viewers;
    if !v.contains(id) && v.len() < MAX_VIEWERS {
        let w = v.push(id);
        assert(w[v.len() as int] == id);
        if w.contains(other) {
            let k = choose|k: int| 0 <= k < w.len() && w[k] == other;
            if k < v.len() { assert(v[k] == other); }
        }
        if v.contains(other) {
            let k = choose|k: int| 0 <= k < v.len() && v[k] == other;
            assert(w[k] == other);
        }
    }
    if v.contains(id) {
        let i = v.index_of(id);
        let r = v.remove(i);
        assert(0 <= i < v.len() && v[i] == id);
        if r.contains(id) {
            let k = choose|k: int| 0 <= k < r.len() && r[k] == id;
            if k < i { assert(v[k] == id); } else { assert(v[k + 1] == id); }
        }
        if other != id && v.contains(other) {
            let k = choose|k: int| 0 <= k < v.len() && v[k] == other;
            if k < i { assert(r[k] == other); } else { assert(r[k - 1] == other); }
        }
        if r.contains(other) {
            let k = choose|k: int| 0 <= k < r.len() && r[k] == other;
            if k < i { assert(v[k] == other); } else { assert(v[k + 1] == other); }
        }
        assert forall|a: int, b: int| 0 <= a < r.len() && 0 <= b < r.len() && a != b implies r[a] != r[b] by {
            let a2 = if a < i { a } else { a + 1 };
            let b2 = if b < i { b } else { b + 1 };
            assert(r[a] == v[a2] && r[b] == v[b2]);
        }
    }
}

/// The index of `x` in `v`, if present.
fn position(v: &Vec<String>, x: &str) -> (r: Option<usize>)
    ensures
        match r {
            Some(i) => i < v@.len() && string_views(v@)[i as int] == x@,
            None => !string_views(v@).contains(x@),
        },
{
    let mut i: usize = 0;
    while i < v.len()
        invariant
            i <= v@.len(),
            forall|j: int| 0 <= j < i ==> v@[j]@ != x@,
        decreases v@.len() - i,
    {
        if str_eq(v[i].as_str(), x) {
            return Some(i);
        }
        i = i + 1;
    }
    proof {
        if string_views(v@).contains(x@) {
            let k = choose|k: int| 0 <= k < string_views(v@).len() && string_views(v@)[k] == x@;
            assert(v@[k]@ == x@);
        }
    }
    None
}

/// Appends `x` to `v` unless present; keeps `v` free of duplicates.
fn insert_unique(v: &mut Vec<String>, x: &str)
    requires
        no_duplicates(string_views(old(v)@)),
    ensures
        no_duplicates(string_views(final(v)@)),
        string_views(final(v)@) == seq_insert_unique(string_views(old(v)@), x@),
{
    let ghost before = string_views(v@);
    match position(v, x) {
        Some(_) => {},
        None => {
            v.push(owned(x));
            assert(string_views(v@) =~= before.push(x@));
        },
    }
}

/// Removes `x` from `v` if present; keeps `v` free of duplicates.
fn remove_value(v: &mut Vec<String>, x: &str) -> (found: bool)
    requires
        no_duplicates(string_views(old(v)@)),
    ensures
        no_duplicates(string_views(final(v)@)),
        string_views(final(v)@) == seq_remove_value(string_views(old(v)@), x@),
        found == string_views(old(v)@).contains(x@),
{
    let ghost before = string_views(v@);
    match position(v, x) {
        Some(i) => {
            proof {
                assert(before[i as int] == x@);
                let k = before.index_of(x@);
                assert(before[k] == x@);
                assert(k == i);
            }
            v.remove(i);
            let ghost after = string_views(v@);
            assert(after =~= before.remove(i as int));
            assert forall|a: int, b: int| 0 <= a < after.len() && 0 <= b < after.len() && a != b
                implies after[a] != after[b] by {
                let a2 = if a < i { a } else { a + 1 };
                let b2 = if b < i { b } else { b + 1 };
                assert(after[a] == before[a2]);
                assert(after[b] == before[b2]);
            }
            true
        },
        None => false,
    }
}

/// A sharing session of this device.
#[derive(Debug)]
pub struct ShareSession {
    config: ShareConfig,
    viewers: Vec<String>,
    started_at: std::time::Instant,
    frames_sent: u64,
    bytes_sent: u64,
    cursor_position: Option<CursorPosition>,
    annotations: Vec<Annotation>,
}

impl ShareSession {
    /// The session as plain values.
    pub closed spec fn spec_view(&self) -> SessionView {
        SessionView {
            config: self.config@,
            viewers: string_views(self.viewers@),
            frames_sent: self.frames_sent,
            bytes_sent: self.bytes_sent,
            cursor_position: self.cursor_position,
            annotations: annotation_views(self.annotations@),
        }
    }

    /// At most `MAX_VIEWERS` viewers, none twice, and at most
    /// `MAX_ANNOTATIONS` annotations.
    pub open spec fn wf(&self) -> bool {
        &&& self.spec_view().viewers.len() <= MAX_VIEWERS
        &&& no_duplicates(self.spec_view().viewers)
        &&& self.spec_view().annotations.len() <= MAX_ANNOTATIONS
    }

    /// A session started now with `config`, no viewers and nothing sent.
    pub fn new(config: ShareConfig) -> (r: Self)
        ensures
            r.wf(),
            r.spec_view() == (SessionView {
                config: config@,
                viewers: Seq::empty(),
                frames_sent: 0,
                bytes_sent: 0,
                cursor_position: None,
                annotations: Seq::empty(),
            }),
    {
        let r = ShareSession {
            config,
            viewers: Vec::new(),
            started_at: instant_now(),
            frames_sent: 0,
            bytes_sent: 0,
            cursor_position: None,
            annotations: Vec::new(),
        };
        assert(string_views(r.viewers@) =~= Seq::<Seq<char>>::empty());
        assert(annotation_views(r.annotations@) =~= Seq::<AnnotationView>::empty());
        r
    }

    /// The session's configuration.
    pub fn config(&self) -> (r: &ShareConfig)
        ensures
            r@ == self.spec_view().config,
    {
        &self.config
    }

    /// Adds a viewer; refused when `MAX_VIEWERS` are already connected,
    /// even if this viewer is one of them.
    pub fn add_viewer(&mut self, viewer_id: &str) -> (r: Result<(), ScreenShareError>)
        requires
            old(self).wf(),
        ensures
            final(self).wf(),
            final(self).spec_view() == session_with_viewer(old(self).spec_view(), viewer_id@),
            r is Ok <==> old(self).spec_view().viewers.len() < MAX_VIEWERS,
            r is Err ==> r matches Err(ScreenShareError::MaxViewersReached),
    {
        if self.viewers.len() >= MAX_VIEWERS {
            return Err(ScreenShareError::MaxViewersReached);
        }
        insert_unique(&mut self.viewers, viewer_id);
        Ok(())
    }

    /// Removes a viewer, if connected.
    pub fn remove_viewer(&mut self, viewer_id: &str)
        requires
            old(self).wf(),
        ensures
            final(self).wf(),
            final(self).spec_view() == session_without_viewer(old(self).spec_view(), viewer_id@),
    {
        remove_value(&mut self.viewers, viewer_id);
    }

    /// Counts one more frame of `frame_bytes` bytes; the counters saturate.
    pub fn update_stats(&mut self, frame_bytes: u64)
        requires
            old(self).wf(),
        ensures
            final(self).wf(),
            final(self).spec_view() == (SessionView {
                frames_sent: if old(self).spec_view().frames_sent == u64::MAX { u64::MAX } else { (old(self).spec_view().frames_sent + 1) as u64 },
                bytes_sent: if old(self).spec_view().bytes_sent + frame_bytes > u64::MAX { u64::MAX } else { (old(self).spec_view().bytes_sent + frame_bytes) as u64 },
                ..old(self).spec_view()
            }),
    {
        self.frames_sent = self.frames_sent.saturating_add(1);
        self.bytes_sent = self.bytes_sent.saturating_add(frame_bytes);
    }

    /// Statistics `secs` whole seconds after the session started.
    pub fn stats_after(&self, secs: u64) -> (r: ShareStats)
        requires
            self.wf(),
        ensures
            r == stats_of(self.spec_view(), secs),
    {
        let avg_fps: u64 = if secs > 0 { self.frames_sent / secs } else { 0 };
        let avg_bitrate_kbps: u64 = if secs > 0 {
            let num: u128 = (self.bytes_sent as u128) * 8;
            let den: u128 = (secs as u128) * 1000;
            proof {
                vstd::arithmetic::div_mod::lemma_div_is_ordered_by_denominator(num as int, 1000, den as int);
            }
            (num / den) as u64
        } else {
            0
        };
        ShareStats {
            duration_secs: secs,
            frames_sent: self.frames_sent,
            bytes_sent: self.bytes_sent,
            viewer_count: self.viewers.len(),
            avg_fps,
            avg_bitrate_kbps,
        }
    }

    /// Statistics now: those of `stats_after` for the whole seconds the
    /// monotonic clock shows since the session started.
    pub fn get_stats(&self) -> (r: ShareStats)
        requires
            self.wf(),
        ensures
            exists|elapsed_nanos: u64| r == #[trigger] stats_of(self.spec_view(), whole_seconds(elapsed_nanos)),
    {
        let elapsed_nanos = nanos_since(&self.started_at);
        let secs = elapsed_nanos / 1_000_000_000;
        let r = self.stats_after(secs);
        assert(r == stats_of(self.spec_view(), whole_seconds(elapsed_nanos)));
        r
    }

    /// Records the presenter's cursor position.
    pub fn set_cursor(&mut self, position: CursorPosition)
        requires
            old(self).wf(),
        ensures
            final(self).wf(),
            final(self).spec_view() == (SessionView { cursor_position: Some(position), ..old(self).spec_view() }),
    {
        self.cursor_position = Some(position);
    }

    /// Adds an annotation, dropping the oldest beyond `MAX_ANNOTATIONS`.
    pub fn add_annotation(&mut self, annotation: Annotation)
        requires
            old(self).wf(),
        ensures
            final(self).wf(),
            final(self).spec_view() == (SessionView {
                annotations: annotations_after_add(old(self).spec_view().annotations, annotation@),
                ..old(self).spec_view()
            }),
    {
        let ghost before = self.spec_view().annotations;
        let ghost a = annotation@;
        self.annotations.push(annotation);
        assert(annotation_views(self.annotations@) =~= before.push(a));
        if self.annotations.len() > MAX_ANNOTATIONS {
            self.annotations.remove(0);
            assert(annotation_views(self.annotations@) =~= before.push(a).drop_first());
        }
    }

    /// Drops every annotation.
    pub fn clear_annotations(&mut self)
        requires
            old(self).wf(),
        ensures
            final(self).wf(),
            final(self).spec_view() == (SessionView { annotations: Seq::empty(), ..old(self).spec_view() }),
    {
        self.annotations.clear();
        assert(annotation_views(self.annotations@) =~= Seq::<AnnotationView>::empty());
    }

    /// Number of connected viewers.
    pub fn viewer_count(&self) -> (r: usize)
        ensures
            r == self.spec_view().viewers.len(),
    {
        self.viewers.len()
    }
}

/// Why a screen-share operation failed.
#[derive(Debug)]
pub enum ScreenShareError {
    /// The configuration breaks a rule.
    Config(ShareConfigError),
    /// A packet body could not be read.
    InvalidPacket,
    /// `MAX_VIEWERS` viewers are already connected.
    MaxViewersReached,
    /// No sharing session is active.
    NoActiveSession,
    /// The plugin is not attached to a device.
    NoDeviceId,
    /// The plugin has no packet sender.
    NoPacketSender,
    /// The viewer's device has no host address to stream to.
    NoHostAddress,
}

/// A configuration kept for a device until its receiver reports ready.
#[derive(Debug)]
pub struct PendingSession {
    device_id: String,
    config: ShareConfig,
}

/// Sharing sessions this device started, by receiving device, kept across
/// a reconnection of that device (which restarts the plugin).
#[derive(Debug)]
pub struct PendingSessions {
    entries: Vec<PendingSession>,
}

impl PendingSessions {
    /// The device identifiers, in storage order.
    pub closed spec fn keys(&self) -> Seq<Seq<char>> {
        Seq::new(self.entries@.len(), |i: int| self.entries@[i].device_id@)
    }

    /// The kept configurations, by device.
    pub closed spec fn sessions(&self) -> Map<Seq<char>, ShareConfigView> {
        Map::new(
            |k: Seq<char>| self.keys().contains(k),
            |k: Seq<char>| self.entries@[self.keys().index_of(k)].config@,
        )
    }

    /// No device is kept twice.
    pub closed spec fn wf(&self) -> bool {
        no_duplicates(self.keys())
    }

    /// No sessions kept.
    pub fn new() -> (r: Self)
        ensures
            r.wf(),
            r.sessions() == Map::<Seq<char>, ShareConfigView>::empty(),
    {
        let r = PendingSessions { entries: Vec::new() };
        assert(r.keys() =~= Seq::<Seq<char>>::empty());
        assert(r.sessions() =~= Map::<Seq<char>, ShareConfigView>::empty());
        r
    }

    fn find(&self, device_id: &str) -> (r: Option<usize>)
        requires
            self.wf(),
        ensures
            match r {
                Some(i) => i < self.keys().len() && self.keys()[i as int] == device_id@
                    && self.keys().index_of(device_id@) == i,
                None => !self.keys().contains(device_id@),
            },
    {
        let mut i: usize = 0;
        while i < self.entries.len()
            invariant
                self.wf(),
                i <= self.entries@.len(),
                forall|j: int| 0 <= j < i ==> self.entries@[j].device_id@ != device_id@,
            decreases self.entries@.len() - i,
        {
            if str_eq(self.entries[i].device_id.as_str(), device_id) {
                proof {
                    assert(self.keys()[i as int] == device_id@);
                    let k = self.keys().index_of(device_id@);
                    assert(self.keys()[k] == device_id@);
                    assert(k == i as int);
                }
                return Some(i);
            }
            i = i + 1;
        }
        proof {
            if self.keys().contains(device_id@) {
                let k = choose|k: int| 0 <= k < self.keys().len() && self.keys()[k] == device_id@;
                assert(self.entries@[k].device_id@ == device_id@);
            }
        }
        None
    }

    /// Keeps `config` for `device_id`, replacing what was kept for it.
    pub fn store(&mut self, device_id: &str, config: ShareConfig)
        requires
            old(self).wf(),
        ensures
            final(self).wf(),
            final(self).sessions() == old(self).sessions().insert(device_id@, config@),
    {
        let ghost before_keys = self.keys();
        let ghost before = self.sessions();
        let ghost c = config@;
        match self.find(device_id) {
            Some(i) => {
                self.entries.set(i, PendingSession { device_id: owned(device_id), config });
                assert(self.keys() =~= before_keys);
                assert(self.sessions() =~= before.insert(device_id@, c)) by {
                    assert forall|k: Seq<char>| self.keys().contains(k) implies
                        self.sessions()[k] == before.insert(device_id@, c)[k] by {
                        let j = self.keys().index_of(k);
                        assert(self.keys()[j] == k);
                        if k == device_id@ {
                            assert(j == i);
                        }
                    }
                }
            },
            None => {
                self.entries.push(PendingSession { device_id: owned(device_id), config });
                let ghost n = before_keys.len() as int;
                assert(self.keys() =~= before_keys.push(device_id@));
                assert(self.sessions() =~= before.insert(device_id@, c)) by {
                    assert forall|k: Seq<char>| self.keys().contains(k) == before.insert(device_id@, c).contains_key(k) by {
                        if self.keys().contains(k) {
                            let j = choose|j: int| 0 <= j < self.keys().len() && self.keys()[j] == k;
                            if j < n {
                                assert(before_keys[j] == k);
                            }
                        }
                        if before_keys.contains(k) {
                            let j = choose|j: int| 0 <= j < before_keys.len() && before_keys[j] == k;
                            assert(self.keys()[j] == k);
                        }
                        if k == device_id@ {
                            assert(self.keys()[n] == k);
                        }
                    }
                    assert forall|k: Seq<char>| self.keys().contains(k) implies
                        self.sessions()[k] == before.insert(device_id@, c)[k] by {
                        let j = self.keys().index_of(k);
                        assert(self.keys()[j] == k);
                        if k == device_id@ {
                            assert(j == n);
                        } else {
                            assert(j < n);
                            assert(before_keys[j] == k);
                            let j0 = before_keys.index_of(k);
                            assert(before_keys[j0] == k);
                            assert(j0 == j);
                        }
                    }
                }
            },
        }
    }

    /// Removes and returns what was kept for `device_id`.
    pub fn take(&mut self, device_id: &str) -> (r: Option<ShareConfig>)
        requires
            old(self).wf(),
        ensures
            final(self).wf(),
            final(self).sessions() == old(self).sessions().remove(device_id@),
            match r {
                Some(c) => old(self).sessions().contains_key(device_id@) && c@ == old(self).sessions()[device_id@],
                None => !old(self).sessions().contains_key(device_id@),
            },
    {
        let ghost before_keys = self.keys();
        let ghost before = self.sessions();
        match self.find(device_id) {
            Some(i) => {
                let e = self.entries.remove(i);
                let ghost after_keys = self.keys();
                assert(after_keys =~= before_keys.remove(i as int));
                assert forall|a: int, b: int| 0 <= a < after_keys.len() && 0 <= b < after_keys.len() && a != b
                    implies after_keys[a] != after_keys[b] by {
                    let a2 = if a < i { a } else { a + 1 };
                    let b2 = if b < i { b } else { b + 1 };
                    assert(after_keys[a] == before_keys[a2]);
                    assert(after_keys[b] == before_keys[b2]);
                }
                assert(self.sessions() =~= before.remove(device_id@)) by {
                    assert forall|k: Seq<char>| self.keys().contains(k) == before.remove(device_id@).contains_key(k) by {
                        if self.keys().contains(k) {
                            let j = choose|j: int| 0 <= j < after_keys.len() && after_keys[j] == k;
                            let j2 = if j < i { j } else { j + 1 };
                            assert(before_keys[j2] == k);
                            assert(j2 != i);
                        }
                        if before_keys.contains(k) && k != device_id@ {
                            let j = choose|j: int| 0 <= j < before_keys.len() && before_keys[j] == k;
                            assert(j != i);
                            let j2 = if j < i { j } else { j - 1 };
                            assert(after_keys[j2] == k);
                        }
                    }
                    assert forall|k: Seq<char>| self.keys().contains(k) implies
                        self.sessions()[k] == before.remove(device_id@)[k] by {
                        let j = after_keys.index_of(k);
                        assert(after_keys[j] == k);
                        let j2 = if j < i { j } else { j + 1 };
                        assert(before_keys[j2] == k);
                        let j0 = before_keys.index_of(k);
                        assert(before_keys[j0] == k);
                        assert(j0 == j2);
                    }
                }
                Some(e.config)
            },
            None => {
                assert(before.remove(device_id@) =~= before);
                None
            },
        }
    }

    /// Forgets what was kept for `device_id`.
    pub fn clear(&mut self, device_id: &str)
        requires
            old(self).wf(),
        ensures
            final(self).wf(),
            final(self).sessions() == old(self).sessions().remove(device_id@),
    {
        let _ = self.take(device_id);
    }
}

/// After keeping a configuration for a device, taking it gives that
/// configuration back and leaves nothing kept for the device; the other
/// devices keep theirs.
pub proof fn lemma_pending_store_take(kept: Map<Seq<char>, ShareConfigView>, device: Seq<char>, config: ShareConfigView, other: Seq<char>)
    requires
        other != device,
    ensures
        kept.insert(device, config).contains_key(device),
        kept.insert(device, config)[device] == config,
        !kept.insert(device, config).remove(device).contains_key(device),
        kept.insert(device, config).remove(device).contains_key(other) == kept.contains_key(other),
        kept.contains_key(other) ==> kept.insert(device, config).remove(device)[other] == kept[other],
{
}

/// Parameters of the capture started for the first viewer.
#[derive(Debug, Clone, Copy, PartialEq, Eq, Structural)]
pub struct CapturePlan {
    /// Frames per second.
    pub fps: u32,
    /// Starting bitrate in kbps.
    pub bitrate_kbps: u32,
    /// Whether system audio is captured.
    pub include_audio: bool,
    /// Whether the bitrate adapts while capturing.
    pub adaptive_bitrate: bool,
    /// Bitrate aimed at while viewers are connected, in kbps.
    pub target_bitrate_kbps: u32,
    /// Bitrate used while no viewer is connected, in kbps.
    pub min_bitrate_kbps: u32,
    /// Highest bitrate, in kbps.
    pub max_bitrate_kbps: u32,
}

/// The capture parameters for configuration `c`: the configured rate and
/// bitrate, adapting between `MIN_CAPTURE_BITRATE_KBPS` and twice the
/// configured bitrate, at most `MAX_CAPTURE_BITRATE_KBPS`.
pub open spec fn capture_plan_of(c: ShareConfigView) -> CapturePlan {
    let doubled: int = if c.bitrate_kbps * 2 > u32::MAX { u32::MAX as int } else { c.bitrate_kbps * 2 };
    CapturePlan {
        fps: c.fps as u32,
        bitrate_kbps: c.bitrate_kbps,
        include_audio: c.include_audio,
        adaptive_bitrate: c.adaptive_bitrate,
        target_bitrate_kbps: c.bitrate_kbps,
        min_bitrate_kbps: MIN_CAPTURE_BITRATE_KBPS,
        max_bitrate_kbps: (if doubled < MAX_CAPTURE_BITRATE_KBPS { doubled } else { MAX_CAPTURE_BITRATE_KBPS as int }) as u32,
    }
}

/// The capture parameters for `config`.
pub fn capture_plan(config: &ShareConfig) -> (r: CapturePlan)
    ensures
        r == capture_plan_of(config@),
{
    let doubled: u32 = if config.bitrate_kbps > u32::MAX / 2 { u32::MAX } else { config.bitrate_kbps * 2 };
    CapturePlan {
        fps: config.fps as u32,
        bitrate_kbps: config.bitrate_kbps,
        include_audio: config.include_audio,
        adaptive_bitrate: config.adaptive_bitrate,
        target_bitrate_kbps: config.bitrate_kbps,
        min_bitrate_kbps: MIN_CAPTURE_BITRATE_KBPS,
        max_bitrate_kbps: if doubled < MAX_CAPTURE_BITRATE_KBPS { doubled } else { MAX_CAPTURE_BITRATE_KBPS },
    }
}

/// The bitrate the capture switches to at a periodic check, `None` to keep
/// `current`: with no receiver it drops to the minimum; with receivers and
/// below target it grows by a tenth, capped at the maximum.
pub open spec fn adaptive_bitrate_of(plan: CapturePlan, receivers: usize, current: u32) -> Option<u32> {
    if receivers == 0 && current > plan.min_bitrate_kbps {
        Some(plan.min_bitrate_kbps)
    } else if receivers > 0 && current < plan.target_bitrate_kbps {
        let grown: int = current * 11 / 10;
        let capped: int = if grown < plan.max_bitrate_kbps { grown } else { plan.max_bitrate_kbps as int };
        if capped != current {
            Some(capped as u32)
        } else {
            None
        }
    } else {
        None
    }
}

/// The capture loop's periodic bitrate decision.  A tenth is added in whole
/// kbps, rounding down.
pub fn adaptive_bitrate_step(plan: &CapturePlan, receivers: usize, current: u32) -> (r: Option<u32>)
    ensures
        r == adaptive_bitrate_of(*plan, receivers, current),
{
    if receivers == 0 && current > plan.min_bitrate_kbps {
        Some(plan.min_bitrate_kbps)
    } else if receivers > 0 && current < plan.target_bitrate_kbps {
        let grown: u64 = (current as u64) * 11 / 10;
        let capped: u64 = if grown < plan.max_bitrate_kbps as u64 { grown } else { plan.max_bitrate_kbps as u64 };
        if capped != current as u64 {
            Some(capped as u32)
        } else {
            None
        }
    } else {
        None
    }
}

/// What the screen-share capture loop does at one turn.
#[derive(Debug, Clone, Copy, PartialEq, Eq, Structural)]
pub enum ShareCaptureTick {
    /// Stop was requested: leave the loop.
    Exit,
    /// Pause became requested: pause the pipeline, then wait 100 ms.
    PauseThenWait,
    /// Still paused: wait 100 ms.
    Wait,
    /// The pause was lifted: resume the pipeline, then capture.
    ResumeThenCapture,
    /// Capture.
    Capture,
}

/// The capture loop's decision from the stop flag, the pause flag and
/// whether the pipeline is paused; the pipeline is paused after
/// `PauseThenWait` and running after `ResumeThenCapture`.
pub fn share_capture_tick(stop_requested: bool, pause_requested: bool, pipeline_paused: bool) -> (r: ShareCaptureTick)
    ensures
        r == (if stop_requested {
            ShareCaptureTick::Exit
        } else if pause_requested {
            if pipeline_paused { ShareCaptureTick::Wait } else { ShareCaptureTick::PauseThenWait }
        } else if pipeline_paused {
            ShareCaptureTick::ResumeThenCapture
        } else {
            ShareCaptureTick::Capture
        }),
{
    if stop_requested {
        ShareCaptureTick::Exit
    } else if pause_requested {
        if pipeline_paused { ShareCaptureTick::Wait } else { ShareCaptureTick::PauseThenWait }
    } else if pipeline_paused {
        ShareCaptureTick::ResumeThenCapture
    } else {
        ShareCaptureTick::Capture
    }
}

/// Milliseconds between bitrate checks of an adaptive capture.
pub const BITRATE_CHECK_INTERVAL_MS: u64 = 2000;

/// Frame interval of the capture loop, in milliseconds (30 frames per
/// second).
pub const CAPTURE_FRAME_INTERVAL_MS: u64 = 33;

/// How long the capture loop waits when no frame was ready, given the
/// nanoseconds since the last frame: the rest of the frame interval, or
/// nothing once it has passed.
pub fn frame_pacing_wait_nanos(since_last_frame_nanos: u64) -> (r: u64)
    ensures
        r == (if since_last_frame_nanos < CAPTURE_FRAME_INTERVAL_MS * 1_000_000 {
            CAPTURE_FRAME_INTERVAL_MS * 1_000_000 - since_last_frame_nanos
        } else {
            0
        }),
{
    let interval: u64 = CAPTURE_FRAME_INTERVAL_MS * 1_000_000;
    if since_last_frame_nanos < interval {
        interval - since_last_frame_nanos
    } else {
        0
    }
}

/// Whether an adaptive capture checks its bitrate, given the milliseconds
/// since the last check.
pub fn bitrate_check_due(adaptive: bool, since_last_check_ms: u64) -> (r: bool)
    ensures
        r == (adaptive && since_last_check_ms >= BITRATE_CHECK_INTERVAL_MS),
{
    adaptive && since_last_check_ms >= BITRATE_CHECK_INTERVAL_MS
}

/// Signals the plugin raises for the desktop (as internal packets).
#[derive(Debug)]
pub enum InternalSignal {
    /// A remote share started and the viewer UI should open
    /// (`cconnect.internal.screenshare.requested`).
    Requested,
    /// The presenter's cursor moved (`cconnect.internal.screenshare.cursor`).
    Cursor(CursorPosition),
    /// An annotation arrived (`cconnect.internal.screenshare.annotation`),
    /// with missing end coordinates as 0.
    Annotation { annotation_type: String, x1: i32, y1: i32, x2: i32, y2: i32, color: String, width: u8 },
    /// The remote share stopped (`cconnect.internal.screenshare.stopped`).
    Stopped,
    /// This device started streaming (`cconnect.internal.screenshare.started`).
    Started,
    /// A device asks to view this screen
    /// (`cconnect.internal.screenshare.share_requested`).
    ShareRequested { requester_name: String, requester_id: String },
}

/// A signal as plain values.
pub enum SignalView {
    Requested,
    Cursor(CursorPosition),
    Annotation { annotation_type: Seq<char>, x1: i32, y1: i32, x2: i32, y2: i32, color: Seq<char>, width: u8 },
    Stopped,
    Started,
    ShareRequested { requester_name: Seq<char>, requester_id: Seq<char> },
}

impl View for InternalSignal {
    type V = SignalView;

    open spec fn view(&self) -> SignalView {
        match self {
            InternalSignal::Requested => SignalView::Requested,
            InternalSignal::Cursor(p) => SignalView::Cursor(*p),
            InternalSignal::Annotation { annotation_type, x1, y1, x2, y2, color, width } => SignalView::Annotation {
                annotation_type: annotation_type@,
                x1: *x1,
                y1: *y1,
                x2: *x2,
                y2: *y2,
                color: color@,
                width: *width,
            },
            InternalSignal::Stopped => SignalView::Stopped,
            InternalSignal::Started => SignalView::Started,
            InternalSignal::ShareRequested { requester_name, requester_id } => SignalView::ShareRequested {
                requester_name: requester_name@,
                requester_id: requester_id@,
            },
        }
    }
}

/// What the runtime does on the plugin's behalf, in order.
#[derive(Debug)]
pub enum ScreenShareAction {
    /// Send `cconnect.screenshare.ready` with body `{"tcpPort": port}`.
    SendReady { device_id: String, tcp_port: u16 },
    /// Send `cconnect.screenshare.start` with the configuration as body.
    SendStart { device_id: String, config: ShareConfig },
    /// Send `cconnect.screenshare.request` asking the device to share.
    SendShareRequest { device_id: String },
    /// Emit an internal signal concerning a device.
    Emit { device_id: String, signal: InternalSignal },
    /// Set the flag the streaming tasks stop on.
    SetStopFlag(bool),
    /// Set the flag the capture pauses on.
    SetPauseFlag(bool),
    /// Abort the streaming task of a viewer.
    AbortViewer { viewer_id: String },
    /// Let the capture task wind down briefly, then abort it.
    StopCapture,
    /// Drop the channel frames are broadcast on.
    DropFrameSender,
    /// Open the frame broadcast channel, ask the desktop portal for the
    /// screen and start capturing with the plan.
    StartCapture(CapturePlan),
    /// Start a task streaming the broadcast frames to a viewer.
    SpawnViewer { viewer_id: String, host: String, port: u16 },
}

/// An action as plain values.
pub enum ActionView {
    SendReady(Seq<char>, u16),
    SendStart(Seq<char>, ShareConfigView),
    SendShareRequest(Seq<char>),
    Emit(Seq<char>, SignalView),
    SetStopFlag(bool),
    SetPauseFlag(bool),
    AbortViewer(Seq<char>),
    StopCapture,
    DropFrameSender,
    StartCapture(CapturePlan),
    SpawnViewer(Seq<char>, Seq<char>, u16),
}

impl View for ScreenShareAction {
    type V = ActionView;

    open spec fn view(&self) -> ActionView {
        match self {
            ScreenShareAction::SendReady { device_id, tcp_port } => ActionView::SendReady(device_id@, *tcp_port),
            ScreenShareAction::SendStart { device_id, config } => ActionView::SendStart(device_id@, config@),
            ScreenShareAction::SendShareRequest { device_id } => ActionView::SendShareRequest(device_id@),
            ScreenShareAction::Emit { device_id, signal } => ActionView::Emit(device_id@, signal@),
            ScreenShareAction::SetStopFlag(b) => ActionView::SetStopFlag(*b),
            ScreenShareAction::SetPauseFlag(b) => ActionView::SetPauseFlag(*b),
            ScreenShareAction::AbortViewer { viewer_id } => ActionView::AbortViewer(viewer_id@),
            ScreenShareAction::StopCapture => ActionView::StopCapture,
            ScreenShareAction::DropFrameSender => ActionView::DropFrameSender,
            ScreenShareAction::StartCapture(p) => ActionView::StartCapture(*p),
            ScreenShareAction::SpawnViewer { viewer_id, host, port } => ActionView::SpawnViewer(viewer_id@, host@, *port),
        }
    }
}

/// The views of a list of actions.
pub open spec fn actions_view(v: Seq<ScreenShareAction>) -> Seq<ActionView> {
    Seq::new(v.len(), |i: int| v[i]@)
}

/// The screen-share plugin as plain values.
pub struct ScreenShareView {
    /// The device the plugin is attached to.
    pub device_id: Option<Seq<char>>,
    /// Whether the plugin handles packets.
    pub enabled: bool,
    /// The session this device is sharing, if any.
    pub session: Option<SessionView>,
    /// Whether this device is viewing a remote share.
    pub receiving: bool,
    /// Whether packets can be sent.
    pub has_packet_sender: bool,
    /// The local port the viewer UI listens on, once known.
    pub local_port: Option<u16>,
    /// Whether the capture task runs.
    pub capture_running: bool,
    /// Viewers with a streaming task.
    pub streaming_viewers: Seq<Seq<char>>,
    /// The stop flag handed to the streaming tasks.
    pub stop_requested: bool,
    /// The pause flag handed to the capture task.
    pub paused: bool,
}

/// Emitting `signal` about `device`: done only with a packet sender.
pub open spec fn emit_actions(v: ScreenShareView, device: Seq<char>, signal: SignalView) -> Seq<ActionView> {
    if v.has_packet_sender {
        seq![ActionView::Emit(device, signal)]
    } else {
        Seq::empty()
    }
}

/// Aborting the streaming tasks of `viewers`, in order.
pub open spec fn abort_actions(viewers: Seq<Seq<char>>) -> Seq<ActionView> {
    Seq::new(viewers.len(), |i: int| ActionView::AbortViewer(viewers[i]))
}

/// Stopping all streaming: raise the stop flag, clear the pause flag, abort
/// every viewer task, stop the capture if it runs, drop the channel.
pub open spec fn stop_streaming_actions(v: ScreenShareView) -> Seq<ActionView> {
    seq![ActionView::SetStopFlag(true), ActionView::SetPauseFlag(false)]
        + abort_actions(v.streaming_viewers)
        + (if v.capture_running { seq![ActionView::StopCapture] } else { Seq::empty() })
        + seq![ActionView::DropFrameSender]
}

/// The plugin after all streaming stopped.
pub open spec fn after_stop_streaming(v: ScreenShareView) -> ScreenShareView {
    ScreenShareView {
        stop_requested: true,
        paused: false,
        streaming_viewers: Seq::empty(),
        capture_running: false,
        ..v
    }
}

/// The plugin after sharing stopped: streaming stopped, no session.
pub open spec fn after_stop_sharing(v: ScreenShareView) -> ScreenShareView {
    ScreenShareView { session: None, ..after_stop_streaming(v) }
}

/// A session just started with configuration `c`.
pub open spec fn fresh_session(c: ShareConfigView) -> SessionView {
    SessionView {
        config: c,
        viewers: Seq::empty(),
        frames_sent: 0,
        bytes_sent: 0,
        cursor_position: None,
        annotations: Seq::empty(),
    }
}

/// The plugin and actions after starting to stream to `viewer` at
/// `host:port`, in a plugin that has a session: the first viewer starts the
/// capture (clearing the stop flag); every viewer gets a streaming task.
pub open spec fn start_streaming_of(v: ScreenShareView, host: Seq<char>, port: u16, viewer: Seq<char>) -> (ScreenShareView, Seq<ActionView>) {
    let first = !v.capture_running;
    let pre = if first {
        seq![ActionView::SetStopFlag(false), ActionView::StartCapture(capture_plan_of(v.session.unwrap().config))]
    } else {
        Seq::empty()
    };
    (
        ScreenShareView {
            capture_running: true,
            stop_requested: if first { false } else { v.stop_requested },
            streaming_viewers: seq_insert_unique(v.streaming_viewers, viewer),
            ..v
        },
        pre.push(ActionView::SpawnViewer(viewer, host, port)),
    )
}

/// The plugin and actions after `viewer`'s stream is removed: its task is
/// aborted, and when no viewer streams any more all streaming stops.
pub open spec fn remove_viewer_stream_of(v: ScreenShareView, viewer: Seq<char>) -> (ScreenShareView, Seq<ActionView>) {
    let aborted = if v.streaming_viewers.contains(viewer) {
        seq![ActionView::AbortViewer(viewer)]
    } else {
        Seq::empty()
    };
    let v1 = ScreenShareView { streaming_viewers: seq_remove_value(v.streaming_viewers, viewer), ..v };
    if v1.streaming_viewers.len() == 0 {
        (after_stop_streaming(v1), aborted + stop_streaming_actions(v1))
    } else {
        (v1, aborted)
    }
}

/// A packet the plugin received, with its body read.
#[derive(Debug)]
pub enum ScreenShareEvent {
    /// `cconnect.screenshare.start` with its configuration.
    Start(ShareConfig),
    /// `cconnect.screenshare.frame`.
    Frame,
    /// `cconnect.screenshare.cursor` with the position.
    Cursor(CursorPosition),
    /// `cconnect.screenshare.annotation` with the annotation.
    Annotation(Annotation),
    /// `cconnect.screenshare.stop`.
    Stop,
    /// `cconnect.screenshare.ready` with its `tcpPort` field, when it is an
    /// unsigned number.
    Ready { tcp_port: Option<u64> },
    /// `cconnect.screenshare.request` or `kdeconnect.screenshare.request`.
    Request,
    /// A start, cursor or annotation packet whose body could not be read.
    Malformed,
    /// Any other packet.
    Other,
}

/// Kinds of packet the plugin tells apart by type.
#[derive(Debug, Clone, Copy, PartialEq, Eq, Structural)]
pub enum ScreenSharePacketKind {
    Start,
    Frame,
    Cursor,
    Annotation,
    Stop,
    Ready,
    Request,
    Other,
}

/// The kind of a packet type.
pub open spec fn screenshare_packet_kind_of(t: Seq<char>) -> ScreenSharePacketKind {
    if t == "cconnect.screenshare.start"@ {
        ScreenSharePacketKind::Start
    } else if t == "cconnect.screenshare.frame"@ {
        ScreenSharePacketKind::Frame
    } else if t == "cconnect.screenshare.cursor"@ {
        ScreenSharePacketKind::Cursor
    } else if t == "cconnect.screenshare.annotation"@ {
        ScreenSharePacketKind::Annotation
    } else if t == "cconnect.screenshare.stop"@ {
        ScreenSharePacketKind::Stop
    } else if t == "cconnect.screenshare.ready"@ {
        ScreenSharePacketKind::Ready
    } else if t == "cconnect.screenshare.request"@ || t == "kdeconnect.screenshare.request"@ {
        ScreenSharePacketKind::Request
    } else {
        ScreenSharePacketKind::Other
    }
}

/// Tells which screen-share packet a packet type names.
pub fn screenshare_packet_kind(packet_type: &str) -> (r: ScreenSharePacketKind)
    ensures
        r == screenshare_packet_kind_of(packet_type@),
{
    if str_eq(packet_type, "cconnect.screenshare.start") {
        ScreenSharePacketKind::Start
    } else if str_eq(packet_type, "cconnect.screenshare.frame") {
        ScreenSharePacketKind::Frame
    } else if str_eq(packet_type, "cconnect.screenshare.cursor") {
        ScreenSharePacketKind::Cursor
    } else if str_eq(packet_type, "cconnect.screenshare.annotation") {
        ScreenSharePacketKind::Annotation
    } else if str_eq(packet_type, "cconnect.screenshare.stop") {
        ScreenSharePacketKind::Stop
    } else if str_eq(packet_type, "cconnect.screenshare.ready") {
        ScreenSharePacketKind::Ready
    } else if str_eq(packet_type, "cconnect.screenshare.request") || str_eq(packet_type, "kdeconnect.screenshare.request") {
        ScreenSharePacketKind::Request
    } else {
        ScreenSharePacketKind::Other
    }
}

/// A received packet as plain values.
pub enum EventView {
    Start(ShareConfigView),
    Frame,
    Cursor(CursorPosition),
    Annotation(AnnotationView),
    Stop,
    Ready(Option<u64>),
    Request,
    Malformed,
    Other,
}

impl View for ScreenShareEvent {
    type V = EventView;

    open spec fn view(&self) -> EventView {
        match self {
            ScreenShareEvent::Start(c) => EventView::Start(c@),
            ScreenShareEvent::Frame => EventView::Frame,
            ScreenShareEvent::Cursor(p) => EventView::Cursor(*p),
            ScreenShareEvent::Annotation(a) => EventView::Annotation(a@),
            ScreenShareEvent::Stop => EventView::Stop,
            ScreenShareEvent::Ready { tcp_port } => EventView::Ready(*tcp_port),
            ScreenShareEvent::Request => EventView::Request,
            ScreenShareEvent::Malformed => EventView::Malformed,
            ScreenShareEvent::Other => EventView::Other,
        }
    }
}

/// How handling a packet ended.
pub enum PacketOutcome {
    /// Handled (possibly ignored).
    Handled,
    /// The body could not be read.
    InvalidPacket,
    /// The viewer's device has no host address.
    NoHostAddress,
}

/// The port a ready packet names: its `tcpPort` truncated to 16 bits, 0
/// when absent.
pub open spec fn ready_port(p: Option<u64>) -> u16 {
    match p {
        Some(x) => x as u16,
        None => 0,
    }
}

/// The signal for a received annotation, missing end coordinates as 0.
pub open spec fn annotation_signal(a: AnnotationView) -> SignalView {
    SignalView::Annotation {
        annotation_type: a.annotation_type,
        x1: a.x1,
        y1: a.y1,
        x2: match a.x2 { Some(x) => x, None => 0 },
        y2: match a.y2 { Some(y) => y, None => 0 },
        color: a.color,
        width: a.width,
    }
}

/// A receiver `dev` reports ready on `port`: the session is restored from
/// the kept one if needed (nothing happens when there is neither), the
/// kept one is forgotten, `dev` joins as a viewer if room is left, and
/// streaming to it starts at its host.
pub open spec fn ready_of(
    v: ScreenShareView,
    pending: Map<Seq<char>, ShareConfigView>,
    dev: Seq<char>,
    host: Option<Seq<char>>,
    port: u16,
) -> (ScreenShareView, Map<Seq<char>, ShareConfigView>, Seq<ActionView>, PacketOutcome) {
    if v.session is None && !pending.contains_key(dev) {
        (v, pending, Seq::empty(), PacketOutcome::Handled)
    } else {
        let v1 = if v.session is None {
            ScreenShareView { session: Some(fresh_session(pending[dev])), ..v }
        } else {
            v
        };
        let p1 = pending.remove(dev);
        let v2 = ScreenShareView { session: Some(session_with_viewer(v1.session.unwrap(), dev)), ..v1 };
        match host {
            None => (v2, p1, Seq::empty(), PacketOutcome::NoHostAddress),
            Some(h) => {
                let (v3, acts) = start_streaming_of(v2, h, port, dev);
                (v3, p1, acts + emit_actions(v3, dev, SignalView::Started), PacketOutcome::Handled)
            },
        }
    }
}

/// The plugin, kept sessions, actions and outcome after the packet `ev`
/// from device `dev` (named `name`, at `host`).
pub open spec fn handle_packet_of(
    v: ScreenShareView,
    pending: Map<Seq<char>, ShareConfigView>,
    ev: EventView,
    dev: Seq<char>,
    name: Seq<char>,
    host: Option<Seq<char>>,
) -> (ScreenShareView, Map<Seq<char>, ShareConfigView>, Seq<ActionView>, PacketOutcome) {
    if !v.enabled {
        (v, pending, Seq::empty(), PacketOutcome::Handled)
    } else {
        match ev {
            EventView::Start(_) => (
                ScreenShareView { receiving: true, ..v },
                pending,
                match v.local_port {
                    Some(port) => if v.has_packet_sender { seq![ActionView::SendReady(dev, port)] } else { Seq::empty() },
                    None => emit_actions(v, dev, SignalView::Requested),
                },
                PacketOutcome::Handled,
            ),
            EventView::Cursor(p) => (v, pending, emit_actions(v, dev, SignalView::Cursor(p)), PacketOutcome::Handled),
            EventView::Annotation(a) => (v, pending, emit_actions(v, dev, annotation_signal(a)), PacketOutcome::Handled),
            EventView::Stop => {
                let v1 = ScreenShareView { receiving: false, ..v };
                let (v2, acts) = remove_viewer_stream_of(v1, dev);
                let v3 = ScreenShareView {
                    session: match v2.session {
                        Some(s) => Some(session_without_viewer(s, dev)),
                        None => None,
                    },
                    ..v2
                };
                (v3, pending, emit_actions(v, dev, SignalView::Stopped) + acts, PacketOutcome::Handled)
            },
            EventView::Ready(p) => ready_of(v, pending, dev, host, ready_port(p)),
            EventView::Request => (
                v,
                pending,
                emit_actions(v, dev, SignalView::ShareRequested { requester_name: name, requester_id: dev }),
                PacketOutcome::Handled,
            ),
            EventView::Malformed => (v, pending, Seq::empty(), PacketOutcome::InvalidPacket),
            _ => (v, pending, Seq::empty(), PacketOutcome::Handled),
        }
    }
}

/// The plugin and actions after sharing starts with `c`: a running session
/// is stopped first.
pub open spec fn start_sharing_of(v: ScreenShareView, c: ShareConfigView) -> (ScreenShareView, Seq<ActionView>) {
    if v.session is Some {
        (ScreenShareView { session: Some(fresh_session(c)), ..after_stop_streaming(v) }, stop_streaming_actions(v))
    } else {
        (ScreenShareView { session: Some(fresh_session(c)), ..v }, Seq::empty())
    }
}

/// A plugin just created: detached, disabled, idle.
pub open spec fn initial_screenshare() -> ScreenShareView {
    ScreenShareView {
        device_id: None,
        enabled: false,
        session: None,
        receiving: false,
        has_packet_sender: false,
        local_port: None,
        capture_running: false,
        streaming_viewers: Seq::empty(),
        stop_requested: false,
        paused: false,
    }
}

/// Packet types the screen-share plugin accepts.
pub open spec fn screenshare_incoming_capabilities() -> Seq<Seq<char>> {
    seq![
        "cconnect.screenshare"@,
        "kdeconnect.screenshare"@,
        "cconnect.screenshare.start"@,
        "cconnect.screenshare.frame"@,
        "cconnect.screenshare.cursor"@,
        "cconnect.screenshare.annotation"@,
        "cconnect.screenshare.stop"@,
        "cconnect.screenshare.ready"@,
        "cconnect.screenshare.request"@,
        "kdeconnect.screenshare.request"@,
        "kdeconnect.screenshare.start"@,
        "kdeconnect.screenshare.frame"@,
        "kdeconnect.screenshare.cursor"@,
        "kdeconnect.screenshare.annotation"@,
        "kdeconnect.screenshare.stop"@,
        "kdeconnect.screenshare.ready"@,
    ]
}

/// Packet types the screen-share plugin sends.
pub open spec fn screenshare_outgoing_capabilities() -> Seq<Seq<char>> {
    seq![
        "cconnect.screenshare"@,
        "cconnect.screenshare.start"@,
        "cconnect.screenshare.ready"@,
        "cconnect.screenshare.stop"@,
        "cconnect.screenshare.request"@,
    ]
}

/// The accepted packet types, in order.
pub fn incoming_capability_list() -> (r: Vec<String>)
    ensures
        string_views(r@) == screenshare_incoming_capabilities(),
{
    let mut v: Vec<String> = Vec::new();
    v.push(owned("cconnect.screenshare"));
    v.push(owned("kdeconnect.screenshare"));
    v.push(owned("cconnect.screenshare.start"));
    v.push(owned("cconnect.screenshare.frame"));
    v.push(owned("cconnect.screenshare.cursor"));
    v.push(owned("cconnect.screenshare.annotation"));
    v.push(owned("cconnect.screenshare.stop"));
    v.push(owned("cconnect.screenshare.ready"));
    v.push(owned("cconnect.screenshare.request"));
    v.push(owned("kdeconnect.screenshare.request"));
    v.push(owned("kdeconnect.screenshare.start"));
    v.push(owned("kdeconnect.screenshare.frame"));
    v.push(owned("kdeconnect.screenshare.cursor"));
    v.push(owned("kdeconnect.screenshare.annotation"));
    v.push(owned("kdeconnect.screenshare.stop"));
    v.push(owned("kdeconnect.screenshare.ready"));
    assert(string_views(v@) =~= screenshare_incoming_capabilities());
    v
}

fn outgoing_capability_list() -> (r: Vec<String>)
    ensures
        string_views(r@) == screenshare_outgoing_capabilities(),
{
    let mut v: Vec<String> = Vec::new();
    v.push(owned("cconnect.screenshare"));
    v.push(owned("cconnect.screenshare.start"));
    v.push(owned("cconnect.screenshare.ready"));
    v.push(owned("cconnect.screenshare.stop"));
    v.push(owned("cconnect.screenshare.request"));
    assert(string_views(v@) =~= screenshare_outgoing_capabilities());
    v
}

/// Screen-share plugin state.
#[derive(Debug)]
pub struct ScreenSharePlugin {
    device_id: Option<String>,
    enabled: bool,
    active_session: Option<ShareSession>,
    receiving: bool,
    has_packet_sender: bool,
    local_port: Option<u16>,
    capture_running: bool,
    streaming_viewers: Vec<String>,
    stop_requested: bool,
    paused: bool,
}

impl ScreenSharePlugin {
    /// The plugin as plain values.
    pub closed spec fn spec_view(&self) -> ScreenShareView {
        ScreenShareView {
            device_id: opt_view(self.device_id),
            enabled: self.enabled,
            session: match self.active_session {
                Some(s) => Some(s.spec_view()),
                None => None,
            },
            receiving: self.receiving,
            has_packet_sender: self.has_packet_sender,
            local_port: self.local_port,
            capture_running: self.capture_running,
            streaming_viewers: string_views(self.streaming_viewers@),
            stop_requested: self.stop_requested,
            paused: self.paused,
        }
    }

    /// The session (if any) keeps its bounds, and no viewer streams twice.
    pub closed spec fn wf(&self) -> bool {
        &&& (self.active_session matches Some(s) ==> s.wf())
        &&& no_duplicates(self.spec_view().streaming_viewers)
    }

    /// A session never serves more than `MAX_VIEWERS` viewers, none twice,
    /// nor keeps more than `MAX_ANNOTATIONS` annotations; no viewer has two
    /// streaming tasks.
    pub proof fn lemma_bounds(&self)
        requires
            self.wf(),
        ensures
            self.spec_view().session matches Some(s) ==> s.viewers.len() <= MAX_VIEWERS
                && no_duplicates(s.viewers) && s.annotations.len() <= MAX_ANNOTATIONS,
            no_duplicates(self.spec_view().streaming_viewers),
    {
    }

    /// A plugin not attached to any device.
    pub fn new() -> (r: Self)
        ensures
            r.wf(),
            r.spec_view() == initial_screenshare(),
    {
        let r = ScreenSharePlugin {
            device_id: None,
            enabled: false,
            active_session: None,
            receiving: false,
            has_packet_sender: false,
            local_port: None,
            capture_running: false,
            streaming_viewers: Vec::new(),
            stop_requested: false,
            paused: false,
        };
        assert(string_views(r.streaming_viewers@) =~= Seq::<Seq<char>>::empty());
        r
    }

    /// The plugin name.
    pub fn name(&self) -> (r: &'static str)
        ensures
            r@ == "screenshare"@,
    {
        "screenshare"
    }

    /// Packet types the plugin accepts.
    pub fn incoming_capabilities(&self) -> (r: Vec<String>)
        ensures
            string_views(r@) == screenshare_incoming_capabilities(),
    {
        incoming_capability_list()
    }

    /// Packet types the plugin sends.
    pub fn outgoing_capabilities(&self) -> (r: Vec<String>)
        ensures
            string_views(r@) == screenshare_outgoing_capabilities(),
    {
        outgoing_capability_list()
    }

    /// Attaches the plugin to a device, with a packet sender.
    pub fn init(&mut self, device_id: &str)
        requires
            old(self).wf(),
        ensures
            final(self).wf(),
            final(self).spec_view() == (ScreenShareView {
                device_id: Some(device_id@),
                has_packet_sender: true,
                ..old(self).spec_view()
            }),
    {
        self.device_id = Some(owned(device_id));
        self.has_packet_sender = true;
    }

    /// Enables packet handling.
    pub fn start(&mut self)
        requires
            old(self).wf(),
        ensures
            final(self).wf(),
            final(self).spec_view() == (ScreenShareView { enabled: true, ..old(self).spec_view() }),
    {
        self.enabled = true;
    }

    /// Disables packet handling, stops sharing and stops receiving.
    pub fn stop(&mut self) -> (r: Vec<ScreenShareAction>)
        requires
            old(self).wf(),
        ensures
            final(self).wf(),
            final(self).spec_view() == (ScreenShareView {
                enabled: false,
                receiving: false,
                ..after_stop_sharing(old(self).spec_view())
            }),
            actions_view(r@) == stop_streaming_actions(old(self).spec_view()),
    {
        self.enabled = false;
        let r = self.stop_sharing();
        self.receiving = false;
        r
    }

    /// Stops every streaming task and the capture.
    pub fn stop_streaming(&mut self) -> (r: Vec<ScreenShareAction>)
        requires
            old(self).wf(),
        ensures
            final(self).wf(),
            final(self).spec_view() == after_stop_streaming(old(self).spec_view()),
            actions_view(r@) == stop_streaming_actions(old(self).spec_view()),
    {
        let ghost v0 = self.spec_view();
        let mut acts: Vec<ScreenShareAction> = Vec::new();
        acts.push(ScreenShareAction::SetStopFlag(true));
        acts.push(ScreenShareAction::SetPauseFlag(false));
        self.stop_requested = true;
        self.paused = false;
        let mut viewers: Vec<String> = Vec::new();
        std::mem::swap(&mut viewers, &mut self.streaming_viewers);
        let ghost head = seq![ActionView::SetStopFlag(true), ActionView::SetPauseFlag(false)];
        assert(actions_view(acts@) =~= head);
        let mut i: usize = 0;
        while i < viewers.len()
            invariant
                i <= viewers@.len(),
                string_views(viewers@) == v0.streaming_viewers,
                actions_view(acts@) == head + abort_actions(v0.streaming_viewers.take(i as int)),
            decreases viewers@.len() - i,
        {
            let ghost prev = actions_view(acts@);
            acts.push(ScreenShareAction::AbortViewer { viewer_id: owned(viewers[i].as_str()) });
            assert(string_views(viewers@)[i as int] == viewers@[i as int]@);
            assert(actions_view(acts@) =~= prev.push(ActionView::AbortViewer(v0.streaming_viewers[i as int])));
            assert(abort_actions(v0.streaming_viewers.take(i + 1)) =~= abort_actions(v0.streaming_viewers.take(i as int)).push(
                ActionView::AbortViewer(v0.streaming_viewers[i as int]),
            ));
            assert(actions_view(acts@) =~= head + abort_actions(v0.streaming_viewers.take(i + 1)));
            i = i + 1;
        }
        assert(v0.streaming_viewers.take(i as int) =~= v0.streaming_viewers);
        let ghost mid = actions_view(acts@);
        if self.capture_running {
            acts.push(ScreenShareAction::StopCapture);
            self.capture_running = false;
            assert(actions_view(acts@) =~= mid + seq![ActionView::StopCapture]);
        } else {
            assert(mid + Seq::<ActionView>::empty() =~= mid);
        }
        let ghost mid2 = actions_view(acts@);
        acts.push(ScreenShareAction::DropFrameSender);
        assert(actions_view(acts@) =~= mid2 + seq![ActionView::DropFrameSender]);
        assert(string_views(self.streaming_viewers@) =~= Seq::<Seq<char>>::empty());
        assert(actions_view(acts@) =~= stop_streaming_actions(v0));
        acts
    }

    /// Stops streaming and ends the session.
    pub fn stop_sharing(&mut self) -> (r: Vec<ScreenShareAction>)
        requires
            old(self).wf(),
        ensures
            final(self).wf(),
            final(self).spec_view() == after_stop_sharing(old(self).spec_view()),
            actions_view(r@) == stop_streaming_actions(old(self).spec_view()),
    {
        let r = self.stop_streaming();
        self.active_session = None;
        r
    }

    /// Stops sharing at the user's request, forgetting the session kept
    /// for the attached device.
    pub fn stop_sharing_explicit(&mut self, pending: &mut PendingSessions) -> (r: Vec<ScreenShareAction>)
        requires
            old(self).wf(),
            old(pending).wf(),
        ensures
            final(self).wf(),
            final(pending).wf(),
            final(self).spec_view() == after_stop_sharing(old(self).spec_view()),
            actions_view(r@) == stop_streaming_actions(old(self).spec_view()),
            final(pending).sessions() == (match old(self).spec_view().device_id {
                Some(d) => old(pending).sessions().remove(d),
                None => old(pending).sessions(),
            }),
    {
        match &self.device_id {
            Some(d) => pending.clear(d.as_str()),
            None => {},
        }
        self.stop_sharing()
    }

    /// Starts sharing with `config`, stopping a running session first.
    pub fn start_sharing(&mut self, config: ShareConfig) -> (r: Result<Vec<ScreenShareAction>, ScreenShareError>)
        requires
            old(self).wf(),
        ensures
            final(self).wf(),
            match first_broken_rule(config@) {
                Some(rule) => r matches Err(ScreenShareError::Config(e)) && config_error_matches(e, config@, rule)
                    && final(self).spec_view() == old(self).spec_view(),
                None => r matches Ok(acts)
                    && final(self).spec_view() == start_sharing_of(old(self).spec_view(), config@).0
                    && actions_view(acts@) == start_sharing_of(old(self).spec_view(), config@).1,
            },
    {
        match config.validate() {
            Err(e) => return Err(ScreenShareError::Config(e)),
            Ok(()) => {},
        }
        let acts = if self.active_session.is_some() {
            self.stop_sharing()
        } else {
            let a: Vec<ScreenShareAction> = Vec::new();
            assert(actions_view(a@) =~= Seq::<ActionView>::empty());
            a
        };
        self.active_session = Some(ShareSession::new(config));
        Ok(acts)
    }

    fn set_pause_state(&mut self, paused: bool) -> (r: Result<Vec<ScreenShareAction>, ScreenShareError>)
        requires
            old(self).wf(),
        ensures
            final(self).wf(),
            old(self).spec_view().session is None ==> (r matches Err(ScreenShareError::NoActiveSession)
                && final(self).spec_view() == old(self).spec_view()),
            old(self).spec_view().session is Some ==> (r matches Ok(acts)
                && actions_view(acts@) == seq![ActionView::SetPauseFlag(paused)]
                && final(self).spec_view() == (ScreenShareView { paused: paused, ..old(self).spec_view() })),
    {
        if self.active_session.is_none() {
            return Err(ScreenShareError::NoActiveSession);
        }
        self.paused = paused;
        let mut acts: Vec<ScreenShareAction> = Vec::new();
        acts.push(ScreenShareAction::SetPauseFlag(paused));
        assert(actions_view(acts@) =~= seq![ActionView::SetPauseFlag(paused)]);
        Ok(acts)
    }

    /// Pauses the capture of the running session.
    pub fn pause_sharing(&mut self) -> (r: Result<Vec<ScreenShareAction>, ScreenShareError>)
        requires
            old(self).wf(),
        ensures
            final(self).wf(),
            old(self).spec_view().session is None ==> (r matches Err(ScreenShareError::NoActiveSession)
                && final(self).spec_view() == old(self).spec_view()),
            old(self).spec_view().session is Some ==> (r matches Ok(acts)
                && actions_view(acts@) == seq![ActionView::SetPauseFlag(true)]
                && final(self).spec_view() == (ScreenShareView { paused: true, ..old(self).spec_view() })),
    {
        self.set_pause_state(true)
    }

    /// Resumes the capture of the running session.
    pub fn resume_sharing(&mut self) -> (r: Result<Vec<ScreenShareAction>, ScreenShareError>)
        requires
            old(self).wf(),
        ensures
            final(self).wf(),
            old(self).spec_view().session is None ==> (r matches Err(ScreenShareError::NoActiveSession)
                && final(self).spec_view() == old(self).spec_view()),
            old(self).spec_view().session is Some ==> (r matches Ok(acts)
                && actions_view(acts@) == seq![ActionView::SetPauseFlag(false)]
                && final(self).spec_view() == (ScreenShareView { paused: false, ..old(self).spec_view() })),
    {
        self.set_pause_state(false)
    }

    /// Whether the capture is paused.
    pub fn is_paused(&self) -> (r: bool)
        ensures
            r == self.spec_view().paused,
    {
        self.paused
    }

    /// Adds a viewer to the running session.
    pub fn add_viewer(&mut self, viewer_id: &str) -> (r: Result<(), ScreenShareError>)
        requires
            old(self).wf(),
        ensures
            final(self).wf(),
            match old(self).spec_view().session {
                None => r matches Err(ScreenShareError::NoActiveSession) && final(self).spec_view() == old(self).spec_view(),
                Some(s) => final(self).spec_view() == (ScreenShareView {
                        session: Some(session_with_viewer(s, viewer_id@)),
                        ..old(self).spec_view()
                    })
                    && (r is Ok <==> s.viewers.len() < MAX_VIEWERS)
                    && (r is Err ==> r matches Err(ScreenShareError::MaxViewersReached)),
            },
    {
        match &mut self.active_session {
            Some(session) => session.add_viewer(viewer_id),
            None => Err(ScreenShareError::NoActiveSession),
        }
    }

    /// Removes a viewer from the running session, if any.
    pub fn remove_viewer(&mut self, viewer_id: &str)
        requires
            old(self).wf(),
        ensures
            final(self).wf(),
            final(self).spec_view() == (ScreenShareView {
                session: match old(self).spec_view().session {
                    Some(s) => Some(session_without_viewer(s, viewer_id@)),
                    None => None,
                },
                ..old(self).spec_view()
            }),
    {
        match &mut self.active_session {
            Some(session) => session.remove_viewer(viewer_id),
            None => {},
        }
    }

    /// Records the presenter's cursor in the running session, if any.
    pub fn update_cursor(&mut self, position: CursorPosition)
        requires
            old(self).wf(),
        ensures
            final(self).wf(),
            final(self).spec_view() == (ScreenShareView {
                session: match old(self).spec_view().session {
                    Some(s) => Some(SessionView { cursor_position: Some(position), ..s }),
                    None => None,
                },
                ..old(self).spec_view()
            }),
    {
        match &mut self.active_session {
            Some(session) => session.set_cursor(position),
            None => {},
        }
    }

    /// Adds an annotation to the running session, if any.
    pub fn add_annotation(&mut self, annotation: Annotation)
        requires
            old(self).wf(),
        ensures
            final(self).wf(),
            final(self).spec_view() == (ScreenShareView {
                session: match old(self).spec_view().session {
                    Some(s) => Some(SessionView { annotations: annotations_after_add(s.annotations, annotation@), ..s }),
                    None => None,
                },
                ..old(self).spec_view()
            }),
    {
        match &mut self.active_session {
            Some(session) => session.add_annotation(annotation),
            None => {},
        }
    }

    /// Drops the annotations of the running session, if any.
    pub fn clear_annotations(&mut self)
        requires
            old(self).wf(),
        ensures
            final(self).wf(),
            final(self).spec_view() == (ScreenShareView {
                session: match old(self).spec_view().session {
                    Some(s) => Some(SessionView { annotations: Seq::empty(), ..s }),
                    None => None,
                },
                ..old(self).spec_view()
            }),
    {
        match &mut self.active_session {
            Some(session) => session.clear_annotations(),
            None => {},
        }
    }

    /// Statistics of the running session, if any.
    pub fn get_stats(&self) -> (r: Option<ShareStats>)
        requires
            self.wf(),
        ensures
            match self.spec_view().session {
                None => r is None,
                Some(s) => r matches Some(st) && exists|elapsed_nanos: u64| st == #[trigger] stats_of(s, whole_seconds(elapsed_nanos)),
            },
    {
        match &self.active_session {
            Some(session) => Some(session.get_stats()),
            None => None,
        }
    }

    /// Records the port the viewer UI listens on; when a remote share is
    /// already being received, the ready packet is sent at once.
    pub fn set_local_port(&mut self, port: u16) -> (r: Vec<ScreenShareAction>)
        requires
            old(self).wf(),
        ensures
            final(self).wf(),
            final(self).spec_view() == (ScreenShareView { local_port: Some(port), ..old(self).spec_view() }),
            actions_view(r@) == (if old(self).spec_view().receiving && old(self).spec_view().has_packet_sender
                && old(self).spec_view().device_id is Some {
                seq![ActionView::SendReady(old(self).spec_view().device_id.unwrap(), port)]
            } else {
                Seq::empty()
            }),
    {
        self.local_port = Some(port);
        let mut acts: Vec<ScreenShareAction> = Vec::new();
        if self.receiving && self.has_packet_sender {
            match &self.device_id {
                Some(d) => {
                    acts.push(ScreenShareAction::SendReady { device_id: owned(d.as_str()), tcp_port: port });
                },
                None => {},
            }
        }
        assert(actions_view(acts@) =~= (if self.spec_view().receiving && self.spec_view().has_packet_sender
            && self.spec_view().device_id is Some {
            seq![ActionView::SendReady(self.spec_view().device_id.unwrap(), port)]
        } else {
            Seq::<ActionView>::empty()
        }));
        acts
    }

    /// Whether this device is sharing.
    pub fn is_sharing(&self) -> (r: bool)
        ensures
            r == self.spec_view().session is Some,
    {
        self.active_session.is_some()
    }

    /// Whether this device is viewing a remote share.
    pub fn is_receiving(&self) -> (r: bool)
        ensures
            r == self.spec_view().receiving,
    {
        self.receiving
    }

    /// Number of viewers with a streaming task.
    pub fn viewer_count(&self) -> (r: usize)
        ensures
            r == self.spec_view().streaming_viewers.len(),
    {
        self.streaming_viewers.len()
    }
}

impl ScreenSharePlugin {
    /// Appends the emission of `signal` about `device`, when packets can be
    /// sent.
    fn emit(&self, acts: &mut Vec<ScreenShareAction>, device: &str, signal: InternalSignal)
        ensures
            actions_view(final(acts)@) == actions_view(old(acts)@) + emit_actions(self.spec_view(), device@, signal@),
    {
        let ghost before = actions_view(acts@);
        let ghost sig = signal@;
        if self.has_packet_sender {
            acts.push(ScreenShareAction::Emit { device_id: owned(device), signal });
            assert(actions_view(acts@) =~= before + seq![ActionView::Emit(device@, sig)]);
        } else {
            assert(actions_view(acts@) =~= before + Seq::<ActionView>::empty());
        }
    }

    /// Starts sharing with `config` and asks the attached device to view
    /// it, keeping the configuration for that device across a reconnection.
    /// The second part of the result says whether that request could be
    /// made; the actions are performed either way.
    pub fn share_to_device(&mut self, config: ShareConfig, pending: &mut PendingSessions) -> (r: (
        Vec<ScreenShareAction>,
        Result<(), ScreenShareError>,
    ))
        requires
            old(self).wf(),
            old(pending).wf(),
        ensures
            final(self).wf(),
            final(pending).wf(),
            match first_broken_rule(config@) {
                Some(rule) => r.1 matches Err(ScreenShareError::Config(e)) && config_error_matches(e, config@, rule)
                    && r.0@.len() == 0 && final(self).spec_view() == old(self).spec_view()
                    && final(pending).sessions() == old(pending).sessions(),
                None => {
                    let (v1, acts) = start_sharing_of(old(self).spec_view(), config@);
                    &&& final(self).spec_view() == v1
                    &&& if !v1.has_packet_sender {
                        &&& r.1 matches Err(ScreenShareError::NoPacketSender)
                        &&& actions_view(r.0@) == acts
                        &&& final(pending).sessions() == old(pending).sessions()
                    } else if v1.device_id is None {
                        &&& r.1 matches Err(ScreenShareError::NoDeviceId)
                        &&& actions_view(r.0@) == acts
                        &&& final(pending).sessions() == old(pending).sessions()
                    } else {
                        &&& r.1 is Ok
                        &&& actions_view(r.0@) == acts.push(ActionView::SendStart(v1.device_id.unwrap(), config@))
                        &&& final(pending).sessions() == old(pending).sessions().insert(v1.device_id.unwrap(), config@)
                    }
                },
            },
    {
        match config.validate() {
            Err(e) => {
                let a: Vec<ScreenShareAction> = Vec::new();
                return (a, Err(ScreenShareError::Config(e)));
            },
            Ok(()) => {},
        }
        let mut acts = match self.start_sharing(config.duplicate()) {
            Ok(a) => a,
            Err(e) => return (Vec::new(), Err(e)),
        };
        if !self.has_packet_sender {
            return (acts, Err(ScreenShareError::NoPacketSender));
        }
        match &self.device_id {
            Some(d) => {
                let ghost before = actions_view(acts@);
                let ghost c = config@;
                pending.store(d.as_str(), config.duplicate());
                acts.push(ScreenShareAction::SendStart { device_id: owned(d.as_str()), config });
                assert(actions_view(acts@) =~= before.push(ActionView::SendStart(d@, c)));
                (acts, Ok(()))
            },
            None => (acts, Err(ScreenShareError::NoDeviceId)),
        }
    }

    /// Asks the attached device to share its screen with this one.
    pub fn request_screen_share(&self) -> (r: Result<ScreenShareAction, ScreenShareError>)
        ensures
            !self.spec_view().has_packet_sender ==> r matches Err(ScreenShareError::NoPacketSender),
            self.spec_view().has_packet_sender && self.spec_view().device_id is None ==> r matches Err(
                ScreenShareError::NoDeviceId,
            ),
            self.spec_view().has_packet_sender && self.spec_view().device_id is Some ==> (r matches Ok(a)
                && a@ == ActionView::SendShareRequest(self.spec_view().device_id.unwrap())),
    {
        if !self.has_packet_sender {
            return Err(ScreenShareError::NoPacketSender);
        }
        match &self.device_id {
            Some(d) => Ok(ScreenShareAction::SendShareRequest { device_id: owned(d.as_str()) }),
            None => Err(ScreenShareError::NoDeviceId),
        }
    }

    /// Starts streaming the running session to `viewer_id` at `host:port`;
    /// the first viewer starts the capture.
    pub fn start_streaming_to_device(&mut self, host: String, port: u16, viewer_id: String) -> (r: Result<
        Vec<ScreenShareAction>,
        ScreenShareError,
    >)
        requires
            old(self).wf(),
        ensures
            final(self).wf(),
            old(self).spec_view().session is None ==> (r matches Err(ScreenShareError::NoActiveSession)
                && final(self).spec_view() == old(self).spec_view()),
            old(self).spec_view().session is Some ==> (r matches Ok(acts)
                && final(self).spec_view() == start_streaming_of(old(self).spec_view(), host@, port, viewer_id@).0
                && actions_view(acts@) == start_streaming_of(old(self).spec_view(), host@, port, viewer_id@).1),
    {
        let ghost v0 = self.spec_view();
        let plan = match &self.active_session {
            Some(session) => capture_plan(session.config()),
            None => return Err(ScreenShareError::NoActiveSession),
        };
        let mut acts: Vec<ScreenShareAction> = Vec::new();
        if !self.capture_running {
            self.stop_requested = false;
            acts.push(ScreenShareAction::SetStopFlag(false));
            acts.push(ScreenShareAction::StartCapture(plan));
            self.capture_running = true;
        }
        let ghost pre = actions_view(acts@);
        assert(pre =~= (if !v0.capture_running {
            seq![ActionView::SetStopFlag(false), ActionView::StartCapture(capture_plan_of(v0.session.unwrap().config))]
        } else {
            Seq::<ActionView>::empty()
        }));
        insert_unique(&mut self.streaming_viewers, viewer_id.as_str());
        let ghost h = host@;
        let ghost vid = viewer_id@;
        acts.push(ScreenShareAction::SpawnViewer { viewer_id, host, port });
        assert(actions_view(acts@) =~= pre.push(ActionView::SpawnViewer(vid, h, port)));
        Ok(acts)
    }

    /// Ends the streaming task of `viewer_id`; with no viewer left, all
    /// streaming stops.
    pub fn remove_viewer_stream(&mut self, viewer_id: &str) -> (r: Vec<ScreenShareAction>)
        requires
            old(self).wf(),
        ensures
            final(self).wf(),
            final(self).spec_view() == remove_viewer_stream_of(old(self).spec_view(), viewer_id@).0,
            actions_view(r@) == remove_viewer_stream_of(old(self).spec_view(), viewer_id@).1,
    {
        let mut acts: Vec<ScreenShareAction> = Vec::new();
        let found = remove_value(&mut self.streaming_viewers, viewer_id);
        if found {
            acts.push(ScreenShareAction::AbortViewer { viewer_id: owned(viewer_id) });
        }
        let ghost aborted = actions_view(acts@);
        assert(aborted =~= (if found { seq![ActionView::AbortViewer(viewer_id@)] } else { Seq::<ActionView>::empty() }));
        if self.streaming_viewers.len() == 0 {
            let more = self.stop_streaming();
            let ghost m = actions_view(more@);
            let mut more = more;
            acts.append(&mut more);
            assert(actions_view(acts@) =~= aborted + m);
        }
        acts
    }

    /// Handles a packet from device `device_id` (named `device_name`,
    /// reachable at `device_host`).  The actions are performed whatever
    /// the second part of the result says.
    pub fn handle_packet(
        &mut self,
        event: ScreenShareEvent,
        device_id: &str,
        device_name: &str,
        device_host: Option<String>,
        pending: &mut PendingSessions,
    ) -> (r: (Vec<ScreenShareAction>, Result<(), ScreenShareError>))
        requires
            old(self).wf(),
            old(pending).wf(),
        ensures
            final(self).wf(),
            final(pending).wf(),
            ({
                let (v, p, acts, outcome) = handle_packet_of(
                    old(self).spec_view(),
                    old(pending).sessions(),
                    event@,
                    device_id@,
                    device_name@,
                    opt_view(device_host),
                );
                &&& final(self).spec_view() == v
                &&& final(pending).sessions() == p
                &&& actions_view(r.0@) == acts
                &&& match outcome {
                    PacketOutcome::Handled => r.1 is Ok,
                    PacketOutcome::InvalidPacket => r.1 matches Err(ScreenShareError::InvalidPacket),
                    PacketOutcome::NoHostAddress => r.1 matches Err(ScreenShareError::NoHostAddress),
                }
            }),
    {
        let ghost v0 = self.spec_view();
        let mut acts: Vec<ScreenShareAction> = Vec::new();
        assert(actions_view(acts@) =~= Seq::<ActionView>::empty());
        if !self.enabled {
            return (acts, Ok(()));
        }
        match event {
            ScreenShareEvent::Start(_config) => {
                self.receiving = true;
                match self.local_port {
                    Some(port) => {
                        if self.has_packet_sender {
                            acts.push(ScreenShareAction::SendReady { device_id: owned(device_id), tcp_port: port });
                            assert(actions_view(acts@) =~= seq![ActionView::SendReady(device_id@, port)]);
                        }
                    },
                    None => {
                        self.emit(&mut acts, device_id, InternalSignal::Requested);
                        assert(actions_view(acts@) =~= emit_actions(v0, device_id@, SignalView::Requested));
                    },
                }
                (acts, Ok(()))
            },
            ScreenShareEvent::Cursor(position) => {
                self.emit(&mut acts, device_id, InternalSignal::Cursor(position));
                assert(actions_view(acts@) =~= emit_actions(v0, device_id@, SignalView::Cursor(position)));
                (acts, Ok(()))
            },
            ScreenShareEvent::Annotation(a) => {
                let ghost av = a@;
                let signal = InternalSignal::Annotation {
                    annotation_type: a.annotation_type,
                    x1: a.x1,
                    y1: a.y1,
                    x2: match a.x2 { Some(x) => x, None => 0 },
                    y2: match a.y2 { Some(y) => y, None => 0 },
                    color: a.color,
                    width: a.width,
                };
                assert(signal@ == annotation_signal(av));
                self.emit(&mut acts, device_id, signal);
                assert(actions_view(acts@) =~= emit_actions(v0, device_id@, annotation_signal(av)));
                (acts, Ok(()))
            },
            ScreenShareEvent::Stop => {
                self.emit(&mut acts, device_id, InternalSignal::Stopped);
                let ghost emitted = actions_view(acts@);
                assert(emitted =~= emit_actions(v0, device_id@, SignalView::Stopped));
                self.receiving = false;
                let more = self.remove_viewer_stream(device_id);
                let ghost m = actions_view(more@);
                let mut more = more;
                acts.append(&mut more);
                assert(actions_view(acts@) =~= emitted + m);
                self.remove_viewer(device_id);
                (acts, Ok(()))
            },
            ScreenShareEvent::Ready { tcp_port } => {
                let port: u16 = match tcp_port {
                    Some(p) => p as u16,
                    None => 0,
                };
                self.ready(device_id, device_host, port, pending)
            },
            ScreenShareEvent::Request => {
                self.emit(
                    &mut acts,
                    device_id,
                    InternalSignal::ShareRequested { requester_name: owned(device_name), requester_id: owned(device_id) },
                );
                assert(actions_view(acts@) =~= emit_actions(
                    v0,
                    device_id@,
                    SignalView::ShareRequested { requester_name: device_name@, requester_id: device_id@ },
                ));
                (acts, Ok(()))
            },
            ScreenShareEvent::Malformed => (acts, Err(ScreenShareError::InvalidPacket)),
            ScreenShareEvent::Frame => (acts, Ok(())),
            ScreenShareEvent::Other => (acts, Ok(())),
        }
    }

    fn ready(&mut self, device_id: &str, device_host: Option<String>, port: u16, pending: &mut PendingSessions) -> (r: (
        Vec<ScreenShareAction>,
        Result<(), ScreenShareError>,
    ))
        requires
            old(self).wf(),
            old(pending).wf(),
        ensures
            final(self).wf(),
            final(pending).wf(),
            ({
                let (v, p, acts, outcome) = ready_of(
                    old(self).spec_view(),
                    old(pending).sessions(),
                    device_id@,
                    opt_view(device_host),
                    port,
                );
                &&& final(self).spec_view() == v
                &&& final(pending).sessions() == p
                &&& actions_view(r.0@) == acts
                &&& match outcome {
                    PacketOutcome::Handled => r.1 is Ok,
                    PacketOutcome::InvalidPacket => r.1 matches Err(ScreenShareError::InvalidPacket),
                    PacketOutcome::NoHostAddress => r.1 matches Err(ScreenShareError::NoHostAddress),
                }
            }),
    {
        let mut acts: Vec<ScreenShareAction> = Vec::new();
        assert(actions_view(acts@) =~= Seq::<ActionView>::empty());
        if self.active_session.is_none() {
            match pending.take(device_id) {
                Some(config) => {
                    self.active_session = Some(ShareSession::new(config));
                },
                None => return (acts, Ok(())),
            }
        } else {
            pending.clear(device_id);
        }
        let _ = self.add_viewer(device_id);
        let host = match device_host {
            Some(h) => h,
            None => return (acts, Err(ScreenShareError::NoHostAddress)),
        };
        let streamed = match self.start_streaming_to_device(host, port, owned(device_id)) {
            Ok(a) => a,
            Err(e) => return (acts, Err(e)),
        };
        let mut acts = streamed;
        self.emit(&mut acts, device_id, InternalSignal::Started);
        (acts, Ok(()))
    }
}

impl Default for ScreenSharePlugin {
    fn default() -> (r: Self)
        ensures
            r.wf(),
            r.spec_view() == initial_screenshare(),
    {
        ScreenSharePlugin::new()
    }
}

/// Creates screen-share plugins.
#[derive(Debug)]
pub struct ScreenSharePluginFactory;

impl ScreenSharePluginFactory {
    /// The plugin name.
    pub fn name(&self) -> (r: &'static str)
        ensures
            r@ == "screenshare"@,
    {
        "screenshare"
    }

    /// Packet types the plugin accepts.
    pub fn incoming_capabilities(&self) -> (r: Vec<String>)
        ensures
            string_views(r@) == screenshare_incoming_capabilities(),
    {
        incoming_capability_list()
    }

    /// Packet types the plugin sends.
    pub fn outgoing_capabilities(&self) -> (r: Vec<String>)
        ensures
            string_views(r@) == screenshare_outgoing_capabilities(),
    {
        outgoing_capability_list()
    }

    /// A new plugin.
    pub fn create(&self) -> (r: ScreenSharePlugin)
        ensures
            r.wf(),
            r.spec_view() == initial_screenshare(),
    {
        ScreenSharePlugin::new()
    }
}

/// The default configuration breaks no rule.
pub proof fn lemma_default_config_valid()
    ensures
        first_broken_rule(default_share_config()) is None,
{
    reveal_strlit("medium");
    reveal_strlit("low");
    assert(default_share_config().quality != "low"@) by {
        assert(default_share_config().quality[0] != "low"@[0]);
    }
}

/// After sharing stops, nothing is shared, streamed or captured.
pub proof fn lemma_stop_sharing_idle(v: ScreenShareView)
    ensures
        after_stop_sharing(v).session is None,
        after_stop_sharing(v).streaming_viewers.len() == 0,
        !after_stop_sharing(v).capture_running,
        after_stop_sharing(v).stop_requested,
        !after_stop_sharing(v).paused,
{
}

/// A new annotation is always kept, as the latest, and at most
/// `MAX_ANNOTATIONS` are kept.
pub proof fn lemma_annotation_kept(s: Seq<AnnotationView>, a: AnnotationView)
    requires
        s.len() <= MAX_ANNOTATIONS,
    ensures
        annotations_after_add(s, a).len() <= MAX_ANNOTATIONS,
        annotations_after_add(s, a).last() == a,
{
}

/// At a bitrate check with viewers connected a new bitrate never exceeds
/// the plan's maximum, nor drops below the current one while that is within
/// the maximum; with none the bitrate only drops, to the minimum.
pub proof fn lemma_adaptive_bitrate_bounds(plan: CapturePlan, receivers: usize, current: u32)
    ensures
        adaptive_bitrate_of(plan, receivers, current) matches Some(b) ==> (
            if receivers == 0 { b == plan.min_bitrate_kbps && b < current }
            else { b <= plan.max_bitrate_kbps && (current <= plan.max_bitrate_kbps ==> current <= b) }
        ),
{
}

} // verus!
