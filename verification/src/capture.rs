//! The screen-capture session behind remote desktop: which step of the
//! Desktop Portal handshake it is at, which PipeWire node it streams from,
//! and what each request does in each state.
//!
//! The portal calls, the PipeWire thread and the frame channel belong to
//! the runtime; it reports their results here and acts on the answers.
use crate::frame::{CaptureState, MonitorInfo, PixelFormat, RawFrame};
use crate::text::owned;
use vstd::prelude::*;

verus! {

/// Stream size assumed until the portal reports one.
pub const DEFAULT_STREAM_WIDTH: u32 = 1920;

/// Stream height assumed until the portal reports one.
pub const DEFAULT_STREAM_HEIGHT: u32 = 1080;

/// Why a capture request was refused.
#[derive(Debug, Clone, Copy, PartialEq, Eq)]
pub enum CaptureError {
    /// A permission request or capture is already under way.
    AlreadyActive,
    /// Capture needs a granted permission.
    PermissionNotGranted,
    /// The portal gave no PipeWire node.
    NoPipewireNode,
    /// No capture is running.
    NotActive,
    /// The frame channel was never set up.
    ChannelNotInitialized,
    /// The capture thread hung up.
    ChannelClosed,
}

/// How waiting for the next frame ended.
#[derive(Debug)]
pub enum FrameWait {
    /// A frame arrived.
    Received(RawFrame),
    /// The capture thread closed the channel.
    Closed,
    /// No frame within the wait.
    TimedOut,
    /// There is no channel to wait on.
    NoChannel,
}

/// A capture session as plain values.
pub struct CaptureView {
    pub state: CaptureState,
    pub selected_monitors: Seq<Seq<char>>,
    pub session_handle: Option<Seq<char>>,
    pub pipewire_node: Option<u32>,
    pub stream_width: u32,
    pub stream_height: u32,
}

/// Wayland screen capture through the Desktop Portal and PipeWire.
#[derive(Debug)]
pub struct WaylandCapture {
    state: CaptureState,
    selected_monitors: Vec<String>,
    session_handle: Option<String>,
    pipewire_node: Option<u32>,
    stream_width: u32,
    stream_height: u32,
}

/// The views of a list of strings.
pub open spec fn string_seq(v: Seq<String>) -> Seq<Seq<char>> {
    Seq::new(v.len(), |i: int| v[i]@)
}

fn same_state(a: CaptureState, b: CaptureState) -> (r: bool)
    ensures
        r == (a == b),
{
    match (a, b) {
        (CaptureState::Idle, CaptureState::Idle) => true,
        (CaptureState::PermissionRequested, CaptureState::PermissionRequested) => true,
        (CaptureState::PermissionGranted, CaptureState::PermissionGranted) => true,
        (CaptureState::Capturing, CaptureState::Capturing) => true,
        (CaptureState::Paused, CaptureState::Paused) => true,
        (CaptureState::Error, CaptureState::Error) => true,
        _ => false,
    }
}

/// `len` zero bytes.
fn zeroes(len: usize) -> (r: Vec<u8>)
    ensures
        r@ == Seq::new(len as nat, |i: int| 0u8),
{
    let mut v: Vec<u8> = Vec::new();
    let mut i: usize = 0;
    while i < len
        invariant
            i <= len,
            v@ == Seq::new(i as nat, |k: int| 0u8),
        decreases len - i,
    {
        v.push(0u8);
        i = i + 1;
        assert(v@ =~= Seq::new(i as nat, |k: int| 0u8));
    }
    v
}

impl WaylandCapture {
    /// The session as plain values.
    pub closed spec fn view(&self) -> CaptureView {
        CaptureView {
            state: self.state,
            selected_monitors: string_seq(self.selected_monitors@),
            session_handle: match self.session_handle { Some(s) => Some(s@), None => None },
            pipewire_node: self.pipewire_node,
            stream_width: self.stream_width,
            stream_height: self.stream_height,
        }
    }

    /// An idle session with no monitor selected and the default stream size.
    pub fn new() -> (r: Self)
        ensures
            r.view().state == CaptureState::Idle,
            r.view().selected_monitors == Seq::<Seq<char>>::empty(),
            r.view().session_handle is None,
            r.view().pipewire_node is None,
            r.view().stream_width == DEFAULT_STREAM_WIDTH,
            r.view().stream_height == DEFAULT_STREAM_HEIGHT,
    {
        let r = WaylandCapture {
            state: CaptureState::Idle,
            selected_monitors: Vec::new(),
            session_handle: None,
            pipewire_node: None,
            stream_width: DEFAULT_STREAM_WIDTH,
            stream_height: DEFAULT_STREAM_HEIGHT,
        };
        assert(string_seq(r.selected_monitors@) =~= Seq::<Seq<char>>::empty());
        r
    }

    /// The monitors on offer: the portal lets the user pick in its own
    /// dialog, so this is one placeholder for all of them.
    pub fn enumerate_monitors(&self) -> (r: Vec<MonitorInfo>)
        ensures
            r@.len() == 1,
            r@[0].id@ == "0"@,
            r@[0].name@ == "Available Displays"@,
            r@[0].width == 1920 && r@[0].height == 1080,
            r@[0].refresh_rate == 60,
            r@[0].is_primary,
    {
        let mut v: Vec<MonitorInfo> = Vec::new();
        v.push(MonitorInfo {
            id: owned("0"),
            name: owned("Available Displays"),
            width: 1920,
            height: 1080,
            refresh_rate: 60,
            is_primary: true,
        });
        v
    }

    /// Chooses the monitors to capture.
    pub fn select_monitors(&mut self, monitor_ids: Vec<String>)
        ensures
            final(self).view() == (CaptureView { selected_monitors: string_seq(monitor_ids@), ..old(self).view() }),
    {
        self.selected_monitors = monitor_ids;
    }

    /// Starts a permission request: only from idle, which it leaves for
    /// `PermissionRequested`; the portal dialog follows, and its answer is
    /// reported with `permission_granted`.  A failed dialog leaves the
    /// session waiting.
    pub fn request_permission(&mut self) -> (r: Result<(), CaptureError>)
        ensures
            old(self).view().state == CaptureState::Idle ==> (r is Ok
                && final(self).view() == (CaptureView { state: CaptureState::PermissionRequested, ..old(self).view() })),
            old(self).view().state != CaptureState::Idle ==> (r == Err::<(), CaptureError>(CaptureError::AlreadyActive)
                && final(self).view() == old(self).view()),
    {
        if !same_state(self.state, CaptureState::Idle) {
            return Err(CaptureError::AlreadyActive);
        }
        self.state = CaptureState::PermissionRequested;
        Ok(())
    }

    /// The portal granted capture of PipeWire node `node`, with the stream
    /// size when it gave one (each side taken as an unsigned 32-bit
    /// number), in portal session `session`.
    pub fn permission_granted(&mut self, node: u32, size: Option<(i32, i32)>, session: String)
        ensures
            final(self).view() == (CaptureView {
                state: CaptureState::PermissionGranted,
                session_handle: Some(session@),
                pipewire_node: Some(node),
                stream_width: match size { Some((w, h)) => w as u32, None => old(self).view().stream_width },
                stream_height: match size { Some((w, h)) => h as u32, None => old(self).view().stream_height },
                ..old(self).view()
            }),
    {
        if let Some((w, h)) = size {
            self.stream_width = w as u32;
            self.stream_height = h as u32;
        }
        self.state = CaptureState::PermissionGranted;
        self.session_handle = Some(session);
        self.pipewire_node = Some(node);
    }

    /// Starts capturing: needs a granted permission and a node, and hands
    /// back the node to stream from.
    pub fn start_capture(&mut self) -> (r: Result<u32, CaptureError>)
        ensures
            old(self).view().state != CaptureState::PermissionGranted ==> (
                r == Err::<u32, CaptureError>(CaptureError::PermissionNotGranted) && final(self).view() == old(self).view()),
            old(self).view().state == CaptureState::PermissionGranted ==> match old(self).view().pipewire_node {
                None => r == Err::<u32, CaptureError>(CaptureError::NoPipewireNode) && final(self).view() == old(self).view(),
                Some(n) => r == Ok::<u32, CaptureError>(n)
                    && final(self).view() == (CaptureView { state: CaptureState::Capturing, ..old(self).view() }),
            },
    {
        if !same_state(self.state, CaptureState::PermissionGranted) {
            return Err(CaptureError::PermissionNotGranted);
        }
        match self.pipewire_node {
            None => Err(CaptureError::NoPipewireNode),
            Some(n) => {
                self.state = CaptureState::Capturing;
                Ok(n)
            },
        }
    }

    /// The frame a capture request yields, given how the wait for it
    /// ended: refused unless capturing; the frame that arrived; an error
    /// when the channel is missing or closed; a black RGBA frame of the
    /// stream size when the wait timed out.
    pub fn capture_frame(&self, wait: FrameWait) -> (r: Result<RawFrame, CaptureError>)
        requires
            self.view().stream_width as int * self.view().stream_height as int * 4 <= u32::MAX,
            self.view().stream_width as int * 4 <= u32::MAX,
        ensures
            self.view().state != CaptureState::Capturing ==> r == Err::<RawFrame, CaptureError>(CaptureError::NotActive),
            self.view().state == CaptureState::Capturing ==> match wait {
                FrameWait::Received(f) => r == Ok::<RawFrame, CaptureError>(f),
                FrameWait::Closed => r == Err::<RawFrame, CaptureError>(CaptureError::ChannelClosed),
                FrameWait::NoChannel => r == Err::<RawFrame, CaptureError>(CaptureError::ChannelNotInitialized),
                FrameWait::TimedOut => r matches Ok(f) && {
                    &&& f.width == self.view().stream_width
                    &&& f.height == self.view().stream_height
                    &&& f.format == PixelFormat::RGBA
                    &&& f.data@ == Seq::new((self.view().stream_width * self.view().stream_height * 4) as nat, |i: int| 0u8)
                },
            },
    {
        if !same_state(self.state, CaptureState::Capturing) {
            return Err(CaptureError::NotActive);
        }
        match wait {
            FrameWait::Received(f) => Ok(f),
            FrameWait::Closed => Err(CaptureError::ChannelClosed),
            FrameWait::NoChannel => Err(CaptureError::ChannelNotInitialized),
            FrameWait::TimedOut => {
                let width = self.stream_width;
                let height = self.stream_height;
                let len = width * height * 4;
                let data = zeroes(len as usize);
                Ok(RawFrame::new(width, height, PixelFormat::RGBA, data))
            },
        }
    }

    /// Stops a running capture: back to idle, with no portal session or
    /// node.  Returns whether there was one; otherwise nothing changes.
    pub fn stop_capture(&mut self) -> (r: bool)
        ensures
            r == (old(self).view().state == CaptureState::Capturing),
            r ==> final(self).view() == (CaptureView {
                state: CaptureState::Idle,
                session_handle: None,
                pipewire_node: None,
                ..old(self).view()
            }),
            !r ==> final(self).view() == old(self).view(),
    {
        if !same_state(self.state, CaptureState::Capturing) {
            return false;
        }
        self.state = CaptureState::Idle;
        self.session_handle = None;
        self.pipewire_node = None;
        true
    }

    /// The current state.
    pub fn state(&self) -> (r: CaptureState)
        ensures
            r == self.view().state,
    {
        self.state
    }

    /// Whether frames are being captured.
    pub fn is_capturing(&self) -> (r: bool)
        ensures
            r == (self.view().state == CaptureState::Capturing),
    {
        same_state(self.state, CaptureState::Capturing)
    }

    /// The monitors chosen for capture.
    pub fn selected_monitors(&self) -> (r: &Vec<String>)
        ensures
            string_seq(r@) == self.view().selected_monitors,
    {
        &self.selected_monitors
    }

    /// The current stream size.
    pub fn stream_size(&self) -> (r: (u32, u32))
        ensures
            r == (self.view().stream_width, self.view().stream_height),
    {
        (self.stream_width, self.stream_height)
    }
}

/// The byte range of a buffer chunk holding frame data: from `offset`,
/// `size` bytes, when it is not empty and lies within the buffer's
/// `buffer_len` bytes.
pub fn chunk_range(offset: usize, size: usize, buffer_len: usize) -> (r: Option<(usize, usize)>)
    requires
        offset + size <= usize::MAX,
    ensures
        r == (if size > 0 && offset + size <= buffer_len { Some((offset, (offset + size) as usize)) } else { None }),
{
    if size > 0 && offset + size <= buffer_len {
        Some((offset, offset + size))
    } else {
        None
    }
}

/// The size of a captured buffer: its width from the row stride (four
/// bytes a pixel) and its height from the data size and stride; the
/// stream size where the stride is unknown (0).
pub fn frame_dimensions(stride: usize, size: usize, width: u32, height: u32) -> (r: (u32, u32))
    ensures
        r.0 == (if stride > 0 { (stride / 4) as u32 } else { width }),
        r.1 == (if size > 0 && stride > 0 { (size / stride) as u32 } else { height }),
{
    let w = if stride > 0 { (stride / 4) as u32 } else { width };
    let h = if size > 0 && stride > 0 { (size / stride) as u32 } else { height };
    (w, h)
}

} // verus!
