//! Screen-share capture settings: the GStreamer pipeline description a
//! capture configuration stands for, and the bitrates the encoder accepts.
//!
//! The runtime hands the description to GStreamer and drives the pipeline.
use crate::text::{decimal, decimal_signed, i64_to_decimal, owned, u64_to_decimal};
use vstd::prelude::*;

verus! {

/// Lowest encoder bitrate, in kbps.
pub const MIN_ENCODER_BITRATE_KBPS: u32 = 100;

/// Highest encoder bitrate, in kbps.
pub const MAX_ENCODER_BITRATE_KBPS: u32 = 50000;

/// Screen capture configuration.
#[derive(Debug, Clone, Copy, PartialEq, Eq, Structural)]
pub struct CaptureConfig {
    /// Target frame rate.
    pub fps: u32,
    /// Target bitrate in kbps.
    pub bitrate_kbps: u32,
    /// Video width (0 = as captured).
    pub width: u32,
    /// Video height (0 = as captured).
    pub height: u32,
    /// PipeWire node id, from the portal session.
    pub pipewire_node_id: Option<u32>,
    /// PipeWire file descriptor, from the portal session.
    pub pipewire_fd: Option<i32>,
    /// Whether audio is captured too.
    pub include_audio: bool,
    /// Whether the cursor travels as metadata rather than in the video.
    pub cursor_metadata_mode: bool,
}

impl Default for CaptureConfig {
    fn default() -> (r: Self)
        ensures
            r == (CaptureConfig {
                fps: 30,
                bitrate_kbps: 2000,
                width: 0,
                height: 0,
                pipewire_node_id: None,
                pipewire_fd: None,
                include_audio: false,
                cursor_metadata_mode: false,
            }),
    {
        CaptureConfig {
            fps: 30,
            bitrate_kbps: 2000,
            width: 0,
            height: 0,
            pipewire_node_id: None,
            pipewire_fd: None,
            include_audio: false,
            cursor_metadata_mode: false,
        }
    }
}

/// The size part of the raw-video caps: `,width=W,height=H` when both are
/// set, nothing otherwise.
pub open spec fn resolution_caps_of(c: CaptureConfig) -> Seq<char> {
    if c.width > 0 && c.height > 0 {
        ",width="@ + decimal(c.width as nat) + ",height="@ + decimal(c.height as nat)
    } else {
        Seq::empty()
    }
}

/// The encoding tail shared by both pipelines: H.264 at the configured
/// bitrate, tuned for latency, into the application sink.
pub open spec fn encoder_tail(bitrate_kbps: u32) -> Seq<char> {
    " ! x264enc name=encoder tune=zerolatency bitrate="@ + decimal(bitrate_kbps as nat)
        + " speed-preset=ultrafast key-int-max=30 ! video/x-h264,stream-format=byte-stream ! appsink name=sink emit-signals=true drop=true max-buffers=2"@
}

/// The pipeline description for a configuration: the portal's PipeWire
/// stream when both its descriptor and node are known (audio is not part
/// of it either way), else a live test pattern at 1280x720.
pub open spec fn pipeline_description_of(c: CaptureConfig) -> Seq<char> {
    match (c.pipewire_fd, c.pipewire_node_id) {
        (Some(fd), Some(node)) => "pipewiresrc fd="@ + decimal_signed(fd as int) + " path="@ + decimal(node as nat)
            + " do-timestamp=true keepalive-time=1000 ! videoconvert ! videoscale ! video/x-raw,framerate="@
            + decimal(c.fps as nat) + "/1"@ + resolution_caps_of(c) + encoder_tail(c.bitrate_kbps),
        _ => "videotestsrc pattern=smpte is-live=true ! video/x-raw,framerate="@ + decimal(c.fps as nat)
            + "/1,width=1280,height=720 ! videoconvert"@ + encoder_tail(c.bitrate_kbps),
    }
}

/// The size part of the raw-video caps for `config`.
pub fn resolution_caps(config: &CaptureConfig) -> (r: String)
    ensures
        r@ == resolution_caps_of(*config),
{
    if config.width > 0 && config.height > 0 {
        let mut s = owned(",width=");
        s.append(u64_to_decimal(config.width as u64).as_str());
        s.append(",height=");
        s.append(u64_to_decimal(config.height as u64).as_str());
        assert(s@ =~= resolution_caps_of(*config));
        s
    } else {
        let s = String::new();
        assert(s@ =~= resolution_caps_of(*config));
        s
    }
}

fn append_encoder_tail(s: &mut String, bitrate_kbps: u32)
    ensures
        final(s)@ == old(s)@ + encoder_tail(bitrate_kbps),
{
    s.append(" ! x264enc name=encoder tune=zerolatency bitrate=");
    s.append(u64_to_decimal(bitrate_kbps as u64).as_str());
    s.append(" speed-preset=ultrafast key-int-max=30 ! video/x-h264,stream-format=byte-stream ! appsink name=sink emit-signals=true drop=true max-buffers=2");
    assert(s@ =~= old(s)@ + encoder_tail(bitrate_kbps));
}

/// The GStreamer pipeline description for `config`.
pub fn pipeline_description(config: &CaptureConfig) -> (r: String)
    ensures
        r@ == pipeline_description_of(*config),
{
    match (config.pipewire_fd, config.pipewire_node_id) {
        (Some(fd), Some(node)) => {
            let mut s = owned("pipewiresrc fd=");
            s.append(i64_to_decimal(fd as i64).as_str());
            s.append(" path=");
            s.append(u64_to_decimal(node as u64).as_str());
            s.append(" do-timestamp=true keepalive-time=1000 ! videoconvert ! videoscale ! video/x-raw,framerate=");
            s.append(u64_to_decimal(config.fps as u64).as_str());
            s.append("/1");
            let caps = resolution_caps(config);
            s.append(caps.as_str());
            append_encoder_tail(&mut s, config.bitrate_kbps);
            assert(s@ =~= pipeline_description_of(*config));
            s
        },
        _ => {
            let mut s = owned("videotestsrc pattern=smpte is-live=true ! video/x-raw,framerate=");
            s.append(u64_to_decimal(config.fps as u64).as_str());
            s.append("/1,width=1280,height=720 ! videoconvert");
            append_encoder_tail(&mut s, config.bitrate_kbps);
            assert(s@ =~= pipeline_description_of(*config));
            s
        },
    }
}

/// The bitrate the encoder is set to for a requested one: clamped to
/// `MIN_ENCODER_BITRATE_KBPS..=MAX_ENCODER_BITRATE_KBPS`.
pub fn clamp_encoder_bitrate(bitrate_kbps: u32) -> (r: u32)
    ensures
        r == (if bitrate_kbps < MIN_ENCODER_BITRATE_KBPS {
            MIN_ENCODER_BITRATE_KBPS
        } else if bitrate_kbps > MAX_ENCODER_BITRATE_KBPS {
            MAX_ENCODER_BITRATE_KBPS
        } else {
            bitrate_kbps
        }),
{
    if bitrate_kbps < MIN_ENCODER_BITRATE_KBPS {
        MIN_ENCODER_BITRATE_KBPS
    } else if bitrate_kbps > MAX_ENCODER_BITRATE_KBPS {
        MAX_ENCODER_BITRATE_KBPS
    } else {
        bitrate_kbps
    }
}

} // verus!
