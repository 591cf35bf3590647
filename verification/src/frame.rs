//! Frame types of the remote-desktop capture pipeline.
use crate::clock::instant_now;
use crate::text::{lowercase_of, str_eq, to_lowercase};
use vstd::prelude::*;

verus! {

/// Pixel format of frame data.
#[derive(Debug, Clone, Copy, PartialEq, Eq)]
pub enum PixelFormat {
    /// RGBA, 8 bits per channel.
    RGBA,
    /// BGRA, 8 bits per channel.
    BGRA,
    /// RGB, 8 bits per channel (no alpha).
    RGB,
    /// BGR, 8 bits per channel (no alpha).
    BGR,
}

/// Bytes per pixel of each format.
pub open spec fn bytes_per_pixel_of(f: PixelFormat) -> u32 {
    match f {
        PixelFormat::RGBA | PixelFormat::BGRA => 4,
        PixelFormat::RGB | PixelFormat::BGR => 3,
    }
}

impl PixelFormat {
    /// Bytes per pixel of this format.
    pub fn bytes_per_pixel(&self) -> (r: u32)
        ensures
            r == bytes_per_pixel_of(*self),
    {
        match self {
            PixelFormat::RGBA | PixelFormat::BGRA => 4,
            PixelFormat::RGB | PixelFormat::BGR => 3,
        }
    }

    /// Format name.
    pub fn as_str(&self) -> (r: &'static str)
        ensures
            r@ == (match *self {
                PixelFormat::RGBA => "RGBA"@,
                PixelFormat::BGRA => "BGRA"@,
                PixelFormat::RGB => "RGB"@,
                PixelFormat::BGR => "BGR"@,
            }),
    {
        match self {
            PixelFormat::RGBA => "RGBA",
            PixelFormat::BGRA => "BGRA",
            PixelFormat::RGB => "RGB",
            PixelFormat::BGR => "BGR",
        }
    }
}

/// Raw uncompressed frame from screen capture.
#[derive(Debug, Clone)]
pub struct RawFrame {
    /// Frame width in pixels.
    pub width: u32,
    /// Frame height in pixels.
    pub height: u32,
    /// Pixel format.
    pub format: PixelFormat,
    /// Raw pixel data.
    pub data: Vec<u8>,
    /// Capture time, on the monotonic clock.
    pub timestamp: std::time::Instant,
    /// Bytes per row.
    pub stride: u32,
}

/// The RGBA bytes of `data`, read as pixels of `format`: RGBA data as it
/// is; otherwise channels reordered to red, green, blue, alpha, an opaque
/// alpha added where the format has none, and trailing bytes that do not
/// fill a pixel dropped.
pub open spec fn rgba_of(format: PixelFormat, data: Seq<u8>) -> Seq<u8> {
    if format is RGBA {
        data
    } else {
        converted_rgba(format, data)
    }
}

/// The pixels of `data` in `format`, converted to RGBA.
pub open spec fn converted_rgba(format: PixelFormat, data: Seq<u8>) -> Seq<u8> {
    let bpp = bytes_per_pixel_of(format) as int;
    let n = (data.len() as int) / bpp;
    Seq::new((n * 4) as nat, |k: int| {
        let p = k / 4;
        let c = k % 4;
        match format {
            PixelFormat::RGBA => data[p * 4 + c],
            PixelFormat::BGRA => if c == 3 { data[p * 4 + 3] } else { data[p * 4 + 2 - c] },
            PixelFormat::RGB => if c == 3 { 255u8 } else { data[p * 3 + c] },
            PixelFormat::BGR => if c == 3 { 255u8 } else { data[p * 3 + 2 - c] },
        }
    })
}

impl RawFrame {
    /// A frame captured now.
    pub fn new(width: u32, height: u32, format: PixelFormat, data: Vec<u8>) -> (r: Self)
        requires
            width * bytes_per_pixel_of(format) <= u32::MAX,
        ensures
            r.width == width,
            r.height == height,
            r.format == format,
            r.data@ == data@,
            r.stride == width * bytes_per_pixel_of(format),
    {
        let stride = width * format.bytes_per_pixel();
        Self { width, height, format, data, timestamp: instant_now(), stride }
    }

    /// Frame size in bytes.
    pub fn size(&self) -> (r: usize)
        ensures
            r == self.data@.len(),
    {
        self.data.len()
    }

    /// The pixel data as RGBA bytes, the buffer an RGBA image is built from.
    pub fn rgba_data(&self) -> (r: Vec<u8>)
        ensures
            r@ == rgba_of(self.format, self.data@),
    {
        if let PixelFormat::RGBA = self.format {
            let mut copy: Vec<u8> = Vec::new();
            let mut i: usize = 0;
            while i < self.data.len()
                invariant
                    i <= self.data@.len(),
                    copy@ == self.data@.take(i as int),
                decreases self.data@.len() - i,
            {
                copy.push(self.data[i]);
                i = i + 1;
                assert(copy@ =~= self.data@.take(i as int));
            }
            assert(self.data@.take(i as int) =~= self.data@);
            return copy;
        }
        let bpp: usize = if self.format.bytes_per_pixel() == 4 { 4 } else { 3 };
        let len = self.data.len();
        let n = len / bpp;
        let mut out: Vec<u8> = Vec::new();
        let mut p: usize = 0;
        let mut base: usize = 0;
        while p < n
            invariant
                base == p * bpp,
                len == self.data@.len(),
                bpp == bytes_per_pixel_of(self.format),
                n == (self.data@.len() as int) / (bpp as int),
                p <= n,
                !(self.format is RGBA),
                out@.len() == p * 4,
                forall|k: int| 0 <= k < p * 4 ==> out@[k] == #[trigger] converted_rgba(self.format, self.data@)[k],
            decreases n - p,
        {
            assert(p * bpp + bpp <= self.data@.len()) by (nonlinear_arith)
                requires p < n, n == (self.data@.len() as int) / (bpp as int), bpp > 0;
            assert(base + bpp <= self.data@.len());
            let (r, g, b, a) = match self.format {
                PixelFormat::RGBA => (self.data[base], self.data[base + 1], self.data[base + 2], self.data[base + 3]),
                PixelFormat::BGRA => (self.data[base + 2], self.data[base + 1], self.data[base], self.data[base + 3]),
                PixelFormat::RGB => (self.data[base], self.data[base + 1], self.data[base + 2], 255u8),
                PixelFormat::BGR => (self.data[base + 2], self.data[base + 1], self.data[base], 255u8),
            };
            let ghost old_out = out@;
            out.push(r);
            out.push(g);
            out.push(b);
            out.push(a);
            proof {
                let full = converted_rgba(self.format, self.data@);
                assert(full.len() == n * 4);
                assert forall|k: int| 0 <= k < (p + 1) * 4 implies out@[k] == #[trigger] full[k] by {
                    if k >= p * 4 {
                        assert(k / 4 == p as int) by (nonlinear_arith) requires p * 4 <= k < (p + 1) * 4;
                        assert(k % 4 == k - p * 4) by (nonlinear_arith) requires p * 4 <= k < (p + 1) * 4;
                    } else {
                        assert(out@[k] == old_out[k]);
                    }
                }
            }
            p = p + 1;
            base = base + bpp;
            assert(base == p * bpp) by (nonlinear_arith) requires base == (p - 1) * bpp + bpp;
        }
        proof {
            let full = converted_rgba(self.format, self.data@);
            assert(out@ =~= full);
        }
        out
    }
}

/// Video encoding type.
#[derive(Debug, Clone, Copy, PartialEq, Eq)]
pub enum EncodingType {
    /// Raw uncompressed.
    Raw,
    /// H.264 compressed.
    H264,
    /// LZ4 lossless compression.
    LZ4,
    /// Hextile encoding (VNC standard).
    Hextile,
}

/// The compression ratio of an encoded frame, kept as the two sizes it is
/// the quotient of: `original_size / encoded_size`.
#[derive(Debug, Clone, Copy, PartialEq, Eq)]
pub struct CompressionRatio {
    /// Size of the frame before encoding, in bytes (never 0).
    pub original_size: usize,
    /// Size of the encoded data, in bytes (never 0).
    pub encoded_size: usize,
}

/// Encoded frame ready for transmission.
#[derive(Debug, Clone)]
pub struct EncodedFrame {
    /// Original frame width.
    pub width: u32,
    /// Original frame height.
    pub height: u32,
    /// Encoding type used.
    pub encoding: EncodingType,
    /// Encoded data.
    pub data: Vec<u8>,
    /// Capture time of the source frame, on the monotonic clock.
    pub timestamp: std::time::Instant,
    /// Compression ratio, where known.
    pub compression_ratio: Option<CompressionRatio>,
}

impl EncodedFrame {
    /// An encoded frame without a compression ratio.
    pub fn new(width: u32, height: u32, encoding: EncodingType, data: Vec<u8>, timestamp: std::time::Instant) -> (r: Self)
        ensures
            r.width == width,
            r.height == height,
            r.encoding == encoding,
            r.data@ == data@,
            r.timestamp == timestamp,
            r.compression_ratio is None,
    {
        Self { width, height, encoding, data, timestamp, compression_ratio: None }
    }

    /// Records the compression ratio against the original size; left unset
    /// when the encoded data is empty or the original size is 0.
    pub fn with_compression_ratio(self, original_size: usize) -> (r: Self)
        ensures
            r.width == self.width,
            r.height == self.height,
            r.encoding == self.encoding,
            r.data@ == self.data@,
            r.timestamp == self.timestamp,
            r.compression_ratio == (if self.data@.len() > 0 && original_size > 0 {
                Some(CompressionRatio { original_size, encoded_size: self.data@.len() as usize })
            } else {
                self.compression_ratio
            }),
    {
        let mut s = self;
        if s.data.len() > 0 && original_size > 0 {
            s.compression_ratio = Some(CompressionRatio { original_size, encoded_size: s.data.len() });
        }
        s
    }

    /// Encoded size in bytes.
    pub fn size(&self) -> (r: usize)
        ensures
            r == self.data@.len(),
    {
        self.data.len()
    }
}

/// Quality preset for encoding.
#[derive(Debug, Clone, Copy, PartialEq, Eq)]
pub enum QualityPreset {
    /// Low quality, high compression.
    Low,
    /// Medium quality, balanced (the default).
    Medium,
    /// High quality, low compression.
    High,
}

impl Default for QualityPreset {
    fn default() -> (r: Self)
        ensures
            r == QualityPreset::Medium,
    {
        QualityPreset::Medium
    }
}

/// Target bitrate in bits per second: a quarter, a half or all of the
/// pixel rate.
pub open spec fn target_bitrate_of(q: QualityPreset, width: u32, height: u32, fps: u32) -> int {
    let rate = width * height * fps;
    match q {
        QualityPreset::Low => rate / 4,
        QualityPreset::Medium => rate / 2,
        QualityPreset::High => rate,
    }
}

/// Target bitrates, in bits per second, for a `width` x `height` stream at
/// `fps` frames per second: about one bit per pixel per frame at high
/// quality, a half at medium and a quarter at low, rounded down; a better
/// preset never asks for less.
pub proof fn lemma_target_bitrate(width: u32, height: u32, fps: u32)
    ensures
        ({
            let rate = width as int * height as int * fps as int;
            let low = target_bitrate_of(QualityPreset::Low, width, height, fps);
            let medium = target_bitrate_of(QualityPreset::Medium, width, height, fps);
            let high = target_bitrate_of(QualityPreset::High, width, height, fps);
            &&& high == rate
            &&& 2 * medium <= rate < 2 * medium + 2
            &&& 4 * low <= rate < 4 * low + 4
            &&& low <= medium <= high
        }),
{
    let rate = width as int * height as int * fps as int;
    assert(rate >= 0) by (nonlinear_arith)
        requires rate == width as int * height as int * fps as int;
}

/// The preset a lower-case name stands for.
pub open spec fn quality_named(s: Seq<char>) -> Option<QualityPreset> {
    if s == "low"@ {
        Some(QualityPreset::Low)
    } else if s == "medium"@ {
        Some(QualityPreset::Medium)
    } else if s == "high"@ {
        Some(QualityPreset::High)
    } else {
        None
    }
}

impl QualityPreset {
    /// Target bitrate for this preset (bits per second).
    pub fn target_bitrate(&self, width: u32, height: u32, fps: u32) -> (r: u32)
        requires
            width * height <= u32::MAX,
            width * height * fps <= u32::MAX,
        ensures
            r == target_bitrate_of(*self, width, height, fps),
    {
        let pixels = width * height;
        let rate = pixels * fps;
        match self {
            QualityPreset::Low => rate / 4,
            QualityPreset::Medium => rate / 2,
            QualityPreset::High => rate,
        }
    }

    /// The preset named by a lower-case name.
    pub fn from_lowercase(s: &str) -> (r: Option<Self>)
        ensures
            r == quality_named(s@),
    {
        proof {
            reveal_strlit("low");
            reveal_strlit("medium");
            reveal_strlit("high");
        }
        if str_eq(s, "low") {
            Some(QualityPreset::Low)
        } else if str_eq(s, "medium") {
            Some(QualityPreset::Medium)
        } else if str_eq(s, "high") {
            Some(QualityPreset::High)
        } else {
            None
        }
    }

    /// The preset named by `s`, compared without regard to case.
    pub fn from_str(s: &str) -> (r: Option<Self>)
        ensures
            r == quality_named(lowercase_of(s@)),
    {
        let lower = to_lowercase(s);
        Self::from_lowercase(lower.as_str())
    }

    /// The preset's name.
    pub fn as_str(&self) -> (r: &'static str)
        ensures
            r@ == (match *self {
                QualityPreset::Low => "low"@,
                QualityPreset::Medium => "medium"@,
                QualityPreset::High => "high"@,
            }),
    {
        match self {
            QualityPreset::Low => "low",
            QualityPreset::Medium => "medium",
            QualityPreset::High => "high",
        }
    }
}

/// A preset's name names that preset.
pub proof fn lemma_quality_name_roundtrip(q: QualityPreset)
    ensures
        quality_named((match q {
            QualityPreset::Low => "low"@,
            QualityPreset::Medium => "medium"@,
            QualityPreset::High => "high"@,
        })) == Some(q),
{
    reveal_strlit("low");
    reveal_strlit("medium");
    reveal_strlit("high");
    assert("low"@.len() == 3);
    assert("medium"@.len() == 6);
    assert("high"@.len() == 4);
    assert("medium"@ != "low"@);
}

/// Screen capture session state.
#[derive(Debug, Clone, Copy, PartialEq, Eq)]
pub enum CaptureState {
    /// No active capture session.
    Idle,
    /// Permission requested from the user.
    PermissionRequested,
    /// Permission granted, ready to capture.
    PermissionGranted,
    /// Actively capturing frames.
    Capturing,
    /// Capture paused.
    Paused,
    /// Error state.
    Error,
}

/// Monitor information.
#[derive(Debug, Clone)]
pub struct MonitorInfo {
    /// Monitor identifier.
    pub id: String,
    /// Monitor name (e.g. "HDMI-1").
    pub name: String,
    /// Width in pixels.
    pub width: u32,
    /// Height in pixels.
    pub height: u32,
    /// Refresh rate in Hz.
    pub refresh_rate: u32,
    /// Whether this is the primary monitor.
    pub is_primary: bool,
}

} // verus!
