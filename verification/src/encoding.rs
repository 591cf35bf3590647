//! Frame encoding for VNC framebuffer updates: raw copy, LZ4 block
//! compression and Hextile (RFC 6143 section 7.7.4).  H.264 encoding needs
//! a floating-point colour conversion and the OpenH264 codec; the encoder
//! hands that step out (`EncodeStep::NeedsH264`) and records its result.
use crate::frame::{
    bytes_per_pixel_of, target_bitrate_of, EncodedFrame, EncodingType, QualityPreset, RawFrame,
};
use crate::clock::{instant_now, nanos_since};
use vstd::prelude::*;

verus! {

/// Largest input that LZ4 block compression accepts (`LZ4_MAX_INPUT_SIZE`).
pub const LZ4_MAX_INPUT_SIZE: usize = 0x7E00_0000;

/// The four little-endian bytes of a length below 2^32.
pub open spec fn le32_bytes(n: nat) -> Seq<u8> {
    seq![(n % 256) as u8, ((n / 256) % 256) as u8, ((n / 65536) % 256) as u8, ((n / 16777216) % 256) as u8]
}

/// Calls `lz4::block::compress` with the default mode and the size
/// prepended.  Per the crate's source it fails exactly when the input is
/// longer than `LZ4_MAX_INPUT_SIZE` (LZ4 guarantees success for a buffer of
/// `LZ4_compressBound` bytes, which is what the crate allocates); the
/// output opens with the input length as four little-endian bytes followed
/// by a non-empty block.  Nothing else is said of the compressed bytes:
/// LZ4's match search hashes by the target's word size and byte order, so
/// the same input may compress differently on another machine.
#[verifier::external_body]
fn lz4_compress(src: &[u8]) -> (r: Result<Vec<u8>, ()>)
    ensures
        r is Ok <==> src@.len() <= LZ4_MAX_INPUT_SIZE,
        r matches Ok(v) ==> v@.len() > 4 && v@.subrange(0, 4) == le32_bytes(src@.len()),
{
    match lz4::block::compress(src, None, true) {
        Ok(v) => Ok(v),
        Err(_) => Err(()),
    }
}

/// Encoding failures.
#[derive(Debug, Clone, Copy, PartialEq, Eq)]
pub enum EncodeError {
    /// LZ4 compression refused the input (longer than `LZ4_MAX_INPUT_SIZE`).
    Lz4InputTooLong,
}

/// Encoder statistics.
#[derive(Debug, Clone, Copy, PartialEq, Eq)]
pub struct EncoderStats {
    /// Total frames encoded.
    pub frames_encoded: u64,
    /// Total time spent encoding, in nanoseconds.
    pub total_encode_time_nanos: u64,
    /// Total input bytes (raw frames).
    pub total_input_bytes: usize,
    /// Total output bytes (encoded frames).
    pub total_output_bytes: usize,
}

impl EncoderStats {
    /// All counters zero.
    pub fn zero() -> (r: Self)
        ensures
            r == (EncoderStats { frames_encoded: 0, total_encode_time_nanos: 0, total_input_bytes: 0, total_output_bytes: 0 }),
    {
        EncoderStats { frames_encoded: 0, total_encode_time_nanos: 0, total_input_bytes: 0, total_output_bytes: 0 }
    }

    /// Average encoding time per frame, in whole nanoseconds (0 before the
    /// first frame).
    pub fn avg_encode_time(&self) -> (r: u64)
        ensures
            self.frames_encoded == 0 ==> r == 0,
            self.frames_encoded > 0 ==> r == self.total_encode_time_nanos / self.frames_encoded,
    {
        if self.frames_encoded == 0 {
            0
        } else {
            self.total_encode_time_nanos / self.frames_encoded
        }
    }
}

impl Default for EncoderStats {
    fn default() -> (r: Self)
        ensures
            r == (EncoderStats { frames_encoded: 0, total_encode_time_nanos: 0, total_input_bytes: 0, total_output_bytes: 0 }),
    {
        Self::zero()
    }
}

/// The encoding each quality preset prefers.
pub open spec fn preferred_encoding_for(q: QualityPreset) -> EncodingType {
    match q {
        QualityPreset::Low => EncodingType::H264,
        QualityPreset::Medium => EncodingType::LZ4,
        QualityPreset::High => EncodingType::Raw,
    }
}

/// Frame encoder with support for multiple encoding types.
#[derive(Debug, Clone)]
pub struct FrameEncoder {
    quality: QualityPreset,
    preferred_encoding: EncodingType,
    stats: EncoderStats,
}

/// One step of encoding a frame.
#[derive(Debug)]
pub enum EncodeStep {
    /// The frame was encoded (or refused) here.
    Done(Result<EncodedFrame, EncodeError>),
    /// The preferred encoding is H.264: convert the frame to YUV 4:2:0 and
    /// encode it at this bitrate (bits per second), then call
    /// `finish_h264`.
    NeedsH264 { bitrate_bps: u32 },
}

/// What encoding `frame` with encoding `enc` at preset `q` gives: H.264 is
/// handed out with the preset's bitrate for 30 fps; raw is a copy; LZ4 is
/// the size-prefixed block, refused for an input longer than
/// `LZ4_MAX_INPUT_SIZE`; Hextile is `hextile_bytes`.  An encoded frame keeps
/// the frame's size and timestamp.
pub open spec fn step_result(enc: EncodingType, q: QualityPreset, frame: RawFrame, r: EncodeStep) -> bool {
    &&& (enc == EncodingType::H264 <==> r is NeedsH264)
    &&& (r matches EncodeStep::NeedsH264 { bitrate_bps } ==> bitrate_bps == target_bitrate_of(q, frame.width, frame.height, 30))
    &&& (enc == EncodingType::Raw ==> (r matches EncodeStep::Done(Ok(e)) && e.data@ == frame.data@ && e.encoding == EncodingType::Raw))
    &&& (enc == EncodingType::LZ4 ==> (r matches EncodeStep::Done(res) && (res is Err <==> frame.data@.len() > LZ4_MAX_INPUT_SIZE)
        && (res matches Ok(e) ==> e.data@.len() > 4 && e.data@.subrange(0, 4) == le32_bytes(frame.data@.len())
            && e.encoding == EncodingType::LZ4)))
    &&& (enc == EncodingType::Hextile ==> (r matches EncodeStep::Done(Ok(e)) && e.data@ == hextile_bytes(frame)
        && e.encoding == EncodingType::Hextile))
    &&& (r matches EncodeStep::Done(Ok(e)) ==> e.width == frame.width && e.height == frame.height && e.timestamp == frame.timestamp)
}

/// Hextile sub-encoding flag: the tile is sent raw.
pub const HEXTILE_RAW: u8 = 1;

/// Hextile sub-encoding flag: a background colour follows.
pub const HEXTILE_BACKGROUND_SPECIFIED: u8 = 2;

/// Hextile tile edge, in pixels.
pub const TILE_SIZE: u32 = 16;

/// Whether every whole pixel of `pixels` equals the first one; `false` when
/// there is not a whole pixel.
pub open spec fn tile_uniform(pixels: Seq<u8>, bpp: int) -> bool {
    pixels.len() >= bpp && forall|p: int, c: int| 0 <= p < (pixels.len() as int) / bpp && 0 <= c < bpp
        ==> #[trigger] pixels[p * bpp + c] == pixels[c]
}

/// The first pixel of `pixels`, empty when there is not a whole pixel.
pub open spec fn first_pixel(pixels: Seq<u8>, bpp: int) -> Seq<u8> {
    if pixels.len() < bpp { Seq::empty() } else { pixels.subrange(0, bpp) }
}

/// The Hextile encoding of one tile's pixels: a solid tile is its
/// background colour, any other tile is sent raw.
pub open spec fn tile_encoding(pixels: Seq<u8>, bpp: int) -> Seq<u8> {
    if tile_uniform(pixels, bpp) {
        seq![HEXTILE_BACKGROUND_SPECIFIED] + first_pixel(pixels, bpp)
    } else {
        seq![HEXTILE_RAW] + pixels
    }
}

/// Hextile tile (RFC 6143, Hextile): a tile whose pixels all have one
/// colour is sent as the BackgroundSpecified flag (2) and that colour once;
/// any other tile as the Raw flag (1) and all its pixel bytes unchanged.
pub proof fn lemma_tile_encoding_layout(pixels: Seq<u8>, bpp: int)
    requires
        bpp > 0,
    ensures
        ({
            let t = tile_encoding(pixels, bpp);
            &&& t.len() >= 1 && (t[0] == 1 || t[0] == 2)
            &&& t[0] == 2 ==> t.len() == 1 + bpp && forall|p: int, c: int|
                0 <= p < (pixels.len() as int) / bpp && 0 <= c < bpp ==> #[trigger] pixels[p * bpp + c] == t[1 + c]
            &&& t[0] == 1 ==> t.subrange(1, t.len() as int) == pixels
            &&& (pixels.len() >= bpp && forall|p: int, c: int|
                0 <= p < (pixels.len() as int) / bpp && 0 <= c < bpp ==> #[trigger] pixels[p * bpp + c] == pixels[c])
                ==> t[0] == 2
        }),
{
    let t = tile_encoding(pixels, bpp);
    if tile_uniform(pixels, bpp) {
        assert(t[0] == 2);
        assert forall|p: int, c: int| 0 <= p < (pixels.len() as int) / bpp && 0 <= c < bpp
            implies #[trigger] pixels[p * bpp + c] == t[1 + c] by {
            assert(pixels[p * bpp + c] == pixels[c]);
            assert(t[1 + c] == pixels.subrange(0, bpp)[c]);
        }
    } else {
        assert(t[0] == 1);
        assert(t.subrange(1, t.len() as int) =~= pixels);
    }
}

/// Row `row` of the tile at (`tx`, `ty`) of width `tw`: the bytes of that
/// row of the frame, or nothing when the row runs past the frame data.
pub open spec fn tile_row(data: Seq<u8>, width: u32, bpp: int, tx: int, ty: int, tw: int, row: int) -> Seq<u8> {
    let start = ((ty + row) * width + tx) * bpp;
    let end = start + tw * bpp;
    if end <= data.len() { data.subrange(start, end) } else { Seq::empty() }
}

/// The first `rows` rows of a tile, concatenated.
pub open spec fn tile_rows(data: Seq<u8>, width: u32, bpp: int, tx: int, ty: int, tw: int, rows: int) -> Seq<u8>
    decreases rows,
{
    if rows <= 0 {
        Seq::empty()
    } else {
        tile_rows(data, width, bpp, tx, ty, tw, rows - 1) + tile_row(data, width, bpp, tx, ty, tw, rows - 1)
    }
}

/// Number of tiles along an edge of `len` pixels.
pub open spec fn tile_count(len: u32) -> int {
    (len + 15) / 16
}

/// Tile number `k` of a frame, row-major: its pixels' bytes.
pub open spec fn tile_pixels(f: RawFrame, k: int) -> Seq<u8> {
    let ntx = tile_count(f.width);
    let tx = (k % ntx) * 16;
    let ty = (k / ntx) * 16;
    let tw = if f.width - tx < 16 { f.width - tx } else { 16 };
    let th = if f.height - ty < 16 { f.height - ty } else { 16 };
    tile_rows(f.data@, f.width, bytes_per_pixel_of(f.format) as int, tx, ty, tw, th)
}

/// Whether every pixel offset the Hextile pass over a `width` x `height`
/// frame computes fits in `u32`: the largest is the start of the last tile
/// of the last row, `(height - 1) * width + 16 * (tile_count(width) - 1)`.
pub open spec fn hextile_offsets_fit(width: u32, height: u32) -> bool {
    width == 0 || height == 0 || (height - 1) * width + 16 * (tile_count(width) - 1) <= u32::MAX
}

/// The Hextile encodings of the first `k` tiles, concatenated.
pub open spec fn hextile_prefix(f: RawFrame, k: int) -> Seq<u8>
    decreases k,
{
    if k <= 0 {
        Seq::empty()
    } else {
        hextile_prefix(f, k - 1) + tile_encoding(tile_pixels(f, k - 1), bytes_per_pixel_of(f.format) as int)
    }
}

/// The Hextile encoding of a whole frame: its 16x16 tiles, row by row.
pub open spec fn hextile_bytes(f: RawFrame) -> Seq<u8> {
    hextile_prefix(f, tile_count(f.width) * tile_count(f.height))
}

impl FrameEncoder {
    /// The quality preset.
    pub closed spec fn quality(&self) -> QualityPreset {
        self.quality
    }

    /// The encoding used for the next frame.
    pub closed spec fn encoding(&self) -> EncodingType {
        self.preferred_encoding
    }

    /// The statistics so far.
    pub closed spec fn stats_value(&self) -> EncoderStats {
        self.stats
    }

    /// An encoder for the quality preset, with the encoding that preset
    /// prefers and zeroed statistics.
    pub fn new(quality: QualityPreset) -> (r: Self)
        ensures
            r.quality() == quality,
            r.encoding() == preferred_encoding_for(quality),
            r.stats_value() == EncoderStats::zero_spec(),
    {
        let preferred_encoding = match quality {
            QualityPreset::Low => EncodingType::H264,
            QualityPreset::Medium => EncodingType::LZ4,
            QualityPreset::High => EncodingType::Raw,
        };
        Self { quality, preferred_encoding, stats: EncoderStats::zero() }
    }

    /// Encodes as raw (uncompressed) pixels: a copy of the data.
    pub fn encode_raw(&self, frame: &RawFrame) -> (r: EncodedFrame)
        ensures
            r.width == frame.width && r.height == frame.height && r.timestamp == frame.timestamp,
            r.encoding == EncodingType::Raw,
            r.data@ == frame.data@,
            r.compression_ratio == (if frame.data@.len() > 0 {
                Some(crate::frame::CompressionRatio { original_size: frame.data@.len() as usize, encoded_size: frame.data@.len() as usize })
            } else {
                None
            }),
    {
        let encoded = EncodedFrame::new(frame.width, frame.height, EncodingType::Raw, frame.data.clone(), frame.timestamp);
        encoded.with_compression_ratio(frame.size())
    }

    /// Encodes with LZ4 block compression (input size prepended).
    pub fn encode_lz4(&self, frame: &RawFrame) -> (r: Result<EncodedFrame, EncodeError>)
        ensures
            r is Err <==> frame.data@.len() > LZ4_MAX_INPUT_SIZE,
            r matches Ok(e) ==> {
                &&& e.width == frame.width && e.height == frame.height && e.timestamp == frame.timestamp
                &&& e.encoding == EncodingType::LZ4
                &&& e.data@.len() > 4 && e.data@.subrange(0, 4) == le32_bytes(frame.data@.len())
                &&& e.compression_ratio == (if e.data@.len() > 0 && frame.data@.len() > 0 {
                    Some(crate::frame::CompressionRatio { original_size: frame.data@.len() as usize, encoded_size: e.data@.len() as usize })
                } else {
                    None
                })
            },
    {
        match lz4_compress(frame.data.as_slice()) {
            Ok(compressed) => Ok(self.finish_lz4(frame, compressed)),
            Err(_) => Err(EncodeError::Lz4InputTooLong),
        }
    }

    /// Whether a tile's pixels are all equal to the first pixel, and that
    /// first pixel.
    pub fn analyze_tile(&self, pixels: &[u8], bytes_per_pixel: usize) -> (r: (bool, Vec<u8>))
        requires
            bytes_per_pixel > 0,
        ensures
            r.0 == tile_uniform(pixels@, bytes_per_pixel as int),
            r.1@ == first_pixel(pixels@, bytes_per_pixel as int),
    {
        let bpp = bytes_per_pixel;
        if pixels.len() < bpp {
            return (false, Vec::new());
        }
        let mut first: Vec<u8> = Vec::new();
        let mut c: usize = 0;
        while c < bpp
            invariant
                c <= bpp,
                bpp <= pixels@.len(),
                first@ == pixels@.subrange(0, c as int),
            decreases bpp - c,
        {
            first.push(pixels[c]);
            c = c + 1;
            assert(first@ =~= pixels@.subrange(0, c as int));
        }
        assert(first@ =~= first_pixel(pixels@, bpp as int));
        let len = pixels.len();
        let n = len / bpp;
        let mut p: usize = 0;
        let mut base: usize = 0;
        while p < n
            invariant
                len == pixels@.len(),
                first@ == first_pixel(pixels@, bpp as int),
                bpp == bytes_per_pixel,
                bpp > 0,
                bpp <= pixels@.len(),
                n == (pixels@.len() as int) / (bpp as int),
                p <= n,
                base == p * bpp,
                forall|q: int, cc: int| 0 <= q < p && 0 <= cc < bpp ==> #[trigger] pixels@[q * bpp + cc] == pixels@[cc],
            decreases n - p,
        {
            assert(base + bpp <= pixels@.len()) by (nonlinear_arith)
                requires p < n, n == (pixels@.len() as int) / (bpp as int), bpp > 0, base == p * bpp;
            let mut c: usize = 0;
            while c < bpp
                invariant
                    len == pixels@.len(),
                    first@ == first_pixel(pixels@, bpp as int),
                    bpp == bytes_per_pixel,
                    p < n,
                    n == (pixels@.len() as int) / (bpp as int),
                    bpp > 0,
                    c <= bpp,
                    base + bpp <= pixels@.len(),
                    base == p * bpp,
                    forall|cc: int| 0 <= cc < c ==> #[trigger] pixels@[base + cc] == pixels@[cc],
                decreases bpp - c,
            {
                if pixels[base + c] != pixels[c] {
                    assert(!tile_uniform(pixels@, bpp as int)) by {
                        assert(0 <= p < (pixels@.len() as int) / (bpp as int));
                        assert(base + c == p * bpp + c);
                        assert(pixels@[p * bpp + c] != pixels@[c as int]);
                    }
                    return (false, first);
                }
                c = c + 1;
            }
            assert forall|q: int, cc: int| 0 <= q < p + 1 && 0 <= cc < bpp implies #[trigger] pixels@[q * bpp + cc] == pixels@[cc] by {
                if q == p {
                    assert(q * bpp + cc == base + cc);
                }
            }
            p = p + 1;
            base = base + bpp;
            assert(base == p * bpp) by (nonlinear_arith) requires base == (p - 1) * bpp + bpp;
        }
        (true, first)
    }

    /// Appends the Hextile encoding of the tile at (`tile_x`, `tile_y`).
    pub fn encode_hextile_tile(
        &self,
        frame: &RawFrame,
        tile_x: u32,
        tile_y: u32,
        tile_width: u32,
        tile_height: u32,
        output: &mut Vec<u8>,
    )
        requires
            tile_height > 0 ==> (tile_y + tile_height - 1) * frame.width + tile_x <= u32::MAX,
            tile_x as int + tile_width as int <= frame.width,
            tile_y as int + tile_height as int <= frame.height,
        ensures
            final(output)@ == old(output)@ + tile_encoding(
                tile_rows(frame.data@, frame.width, bytes_per_pixel_of(frame.format) as int,
                    tile_x as int, tile_y as int, tile_width as int, tile_height as int),
                bytes_per_pixel_of(frame.format) as int),
    {
        let bpp: usize = if frame.format.bytes_per_pixel() == 4 { 4 } else { 3 };
        let len = frame.data.len();
        let ghost bppi = bpp as int;
        let mut tile_pixels: Vec<u8> = Vec::new();
        let mut y: u32 = 0;
        while y < tile_height
            invariant
                bpp == bytes_per_pixel_of(frame.format),
                len == frame.data@.len(),
                tile_height > 0 ==> (tile_y + tile_height - 1) * frame.width + tile_x <= u32::MAX,
                tile_x as int + tile_width as int <= frame.width,
                tile_y as int + tile_height as int <= frame.height,
                y <= tile_height,
                tile_pixels@ == tile_rows(frame.data@, frame.width, bpp as int, tile_x as int, tile_y as int, tile_width as int, y as int),
            decreases tile_height - y,
        {
            assert((tile_y + y) * frame.width + tile_x <= (tile_y + tile_height - 1) * frame.width + tile_x) by (nonlinear_arith)
                requires y < tile_height;
            let row_start_px = (tile_y + y) * frame.width + tile_x;
            let start = row_start_px as usize;
            if start <= len / bpp && (tile_width as usize) <= len / bpp - start {
                assert(start * bpp + (tile_width as usize) * bpp <= len) by (nonlinear_arith)
                    requires start + tile_width <= (len as int) / (bpp as int), bpp > 0;
                let row_start = start * bpp;
                let row_end = row_start + (tile_width as usize) * bpp;
                let mut i = row_start;
                let ghost before = tile_pixels@;
                while i < row_end
                    invariant
                        row_start <= i <= row_end,
                        row_end <= frame.data@.len(),
                        tile_pixels@ == before + frame.data@.subrange(row_start as int, i as int),
                    decreases row_end - i,
                {
                    tile_pixels.push(frame.data[i]);
                    i = i + 1;
                    assert(tile_pixels@ =~= before + frame.data@.subrange(row_start as int, i as int));
                }
                assert(tile_row(frame.data@, frame.width, bpp as int, tile_x as int, tile_y as int, tile_width as int, y as int)
                    == frame.data@.subrange(row_start as int, row_end as int));
            } else {
                assert(((tile_y + y) * frame.width + tile_x) * bpp + tile_width * bpp > len) by (nonlinear_arith)
                    requires !(row_start_px <= (len as int) / (bpp as int) && tile_width <= (len as int) / (bpp as int) - row_start_px), bpp > 0,
                        row_start_px == (tile_y + y) * frame.width + tile_x;
            }
            y = y + 1;
        }
        let (is_uniform, background) = self.analyze_tile(tile_pixels.as_slice(), bpp);
        let ghost before_out = output@;
        if is_uniform {
            output.push(HEXTILE_BACKGROUND_SPECIFIED);
            crate::bytes::push_slice(output, background.as_slice());
        } else {
            output.push(HEXTILE_RAW);
            crate::bytes::push_slice(output, tile_pixels.as_slice());
        }
        assert(output@ =~= before_out + tile_encoding(tile_pixels@, bpp as int));
    }

    /// Encodes with Hextile: the frame's 16x16 tiles, row by row, each a
    /// solid background colour or raw pixels.
    pub fn encode_hextile(&self, frame: &RawFrame) -> (r: EncodedFrame)
        requires
            hextile_offsets_fit(frame.width, frame.height),
        ensures
            r.width == frame.width && r.height == frame.height && r.timestamp == frame.timestamp,
            r.encoding == EncodingType::Hextile,
            r.data@ == hextile_bytes(*frame),
            r.compression_ratio == (if r.data@.len() > 0 && frame.data@.len() > 0 {
                Some(crate::frame::CompressionRatio { original_size: frame.data@.len() as usize, encoded_size: r.data@.len() as usize })
            } else {
                None
            }),
    {
        let ntx: u32 = frame.width / 16 + if frame.width % 16 == 0 { 0 } else { 1 };
        let nty: u32 = frame.height / 16 + if frame.height % 16 == 0 { 0 } else { 1 };
        assert(ntx == tile_count(frame.width) && nty == tile_count(frame.height));
        let mut encoded_data: Vec<u8> = Vec::new();
        let mut ty: u32 = 0;
        while ty < nty
            invariant
                hextile_offsets_fit(frame.width, frame.height),
                ntx == tile_count(frame.width),
                nty == tile_count(frame.height),
                ty <= nty,
                encoded_data@ == hextile_prefix(*frame, ty * ntx),
            decreases nty - ty,
        {
            let mut tx: u32 = 0;
            while tx < ntx
                invariant
                    hextile_offsets_fit(frame.width, frame.height),
                    ntx == tile_count(frame.width),
                    nty == tile_count(frame.height),
                    ty < nty,
                    tx <= ntx,
                    encoded_data@ == hextile_prefix(*frame, ty * ntx + tx),
                decreases ntx - tx,
            {
                let px = tx * 16;
                let py = ty * 16;
                let tile_width = if frame.width - px < 16 { frame.width - px } else { 16 };
                let tile_height = if frame.height - py < 16 { frame.height - py } else { 16 };
                assert((py + tile_height - 1) * frame.width + px <= (frame.height - 1) * frame.width + 16 * (ntx - 1)) by (nonlinear_arith)
                    requires py + tile_height <= frame.height, px <= 16 * (ntx - 1), tile_height >= 1;
                proof {
                    let k = ty * ntx + tx;
                    assert(k % (ntx as int) == tx && k / (ntx as int) == ty) by (nonlinear_arith)
                        requires k == ty * ntx + tx, tx < ntx, ty >= 0;
                }
                self.encode_hextile_tile(frame, px, py, tile_width, tile_height, &mut encoded_data);
                tx = tx + 1;
            }
            assert((ty + 1) * ntx == ty * ntx + ntx) by (nonlinear_arith);
            ty = ty + 1;
        }
        assert(nty * ntx == tile_count(frame.width) * tile_count(frame.height)) by (nonlinear_arith)
            requires ntx == tile_count(frame.width), nty == tile_count(frame.height);
        let encoded = EncodedFrame::new(frame.width, frame.height, EncodingType::Hextile, encoded_data, frame.timestamp);
        encoded.with_compression_ratio(frame.size())
    }

    /// Encodes the frame with the preferred encoding, or, for H.264, asks
    /// for the frame to be encoded at the preset's bitrate for 30 fps.
    pub fn encode_step(&self, frame: &RawFrame) -> (r: EncodeStep)
        requires
            self.encoding() == EncodingType::H264 ==> frame.width as int * frame.height as int * 30 <= u32::MAX,
            self.encoding() == EncodingType::Hextile ==> hextile_offsets_fit(frame.width, frame.height),
        ensures
            step_result(self.encoding(), self.quality(), *frame, r),
    {
        match self.preferred_encoding {
            EncodingType::Raw => EncodeStep::Done(Ok(self.encode_raw(frame))),
            EncodingType::LZ4 => EncodeStep::Done(self.encode_lz4(frame)),
            EncodingType::Hextile => EncodeStep::Done(Ok(self.encode_hextile(frame))),
            EncodingType::H264 => {
                assert(frame.width * frame.height <= u32::MAX) by (nonlinear_arith)
                    requires frame.width * frame.height * 30 <= u32::MAX;
                EncodeStep::NeedsH264 { bitrate_bps: self.quality.target_bitrate(frame.width, frame.height, 30) }
            },
        }
    }

    /// Encodes the frame with the preferred encoding, timing the work, and
    /// records a frame encoded here in the statistics (its input and output
    /// sizes and the time taken).  A refused frame and an H.264 frame,
    /// which is encoded elsewhere and recorded with `record_encoded`, leave
    /// the statistics unchanged.
    pub fn encode(&mut self, frame: &RawFrame) -> (r: EncodeStep)
        requires
            old(self).encoding() == EncodingType::H264 ==> frame.width as int * frame.height as int * 30 <= u32::MAX,
            old(self).encoding() == EncodingType::Hextile ==> hextile_offsets_fit(frame.width, frame.height),
        ensures
            final(self).quality() == old(self).quality(),
            final(self).encoding() == old(self).encoding(),
            step_result(old(self).encoding(), old(self).quality(), *frame, r),
            match r {
                EncodeStep::Done(Ok(e)) => {
                    let before = old(self).stats_value();
                    let after = final(self).stats_value();
                    &&& after.frames_encoded == before.frames_encoded.saturating_add(1)
                    &&& after.total_input_bytes == before.total_input_bytes.saturating_add(frame.data@.len() as usize)
                    &&& after.total_output_bytes == before.total_output_bytes.saturating_add(e.data@.len() as usize)
                    &&& after.total_encode_time_nanos >= before.total_encode_time_nanos
                },
                _ => final(self).stats_value() == old(self).stats_value(),
            },
    {
        let start = instant_now();
        let step = self.encode_step(frame);
        if let EncodeStep::Done(Ok(e)) = &step {
            let elapsed = nanos_since(&start);
            self.record_encoded(frame.size(), e.size(), elapsed);
        }
        step
    }

    /// Wraps LZ4 output (the size-prefixed block) for `frame` as an encoded
    /// frame.
    pub fn finish_lz4(&self, frame: &RawFrame, data: Vec<u8>) -> (r: EncodedFrame)
        ensures
            r.width == frame.width && r.height == frame.height && r.timestamp == frame.timestamp,
            r.encoding == EncodingType::LZ4,
            r.data@ == data@,
            r.compression_ratio == (if data@.len() > 0 && frame.data@.len() > 0 {
                Some(crate::frame::CompressionRatio { original_size: frame.data@.len() as usize, encoded_size: data@.len() as usize })
            } else {
                None
            }),
    {
        let encoded = EncodedFrame::new(frame.width, frame.height, EncodingType::LZ4, data, frame.timestamp);
        encoded.with_compression_ratio(frame.size())
    }

    /// Wraps H.264 output for `frame` as an encoded frame.
    pub fn finish_h264(&self, frame: &RawFrame, data: Vec<u8>) -> (r: EncodedFrame)
        ensures
            r.width == frame.width && r.height == frame.height && r.timestamp == frame.timestamp,
            r.encoding == EncodingType::H264,
            r.data@ == data@,
            r.compression_ratio == (if data@.len() > 0 && frame.data@.len() > 0 {
                Some(crate::frame::CompressionRatio { original_size: frame.data@.len() as usize, encoded_size: data@.len() as usize })
            } else {
                None
            }),
    {
        let encoded = EncodedFrame::new(frame.width, frame.height, EncodingType::H264, data, frame.timestamp);
        encoded.with_compression_ratio(frame.size())
    }

    /// Records one encoded frame in the statistics (each counter saturates
    /// at its maximum).
    pub fn record_encoded(&mut self, input_bytes: usize, output_bytes: usize, elapsed_nanos: u64)
        ensures
            final(self).quality() == old(self).quality(),
            final(self).encoding() == old(self).encoding(),
            final(self).stats_value() == (EncoderStats {
                frames_encoded: old(self).stats_value().frames_encoded.saturating_add(1),
                total_encode_time_nanos: old(self).stats_value().total_encode_time_nanos.saturating_add(elapsed_nanos),
                total_input_bytes: old(self).stats_value().total_input_bytes.saturating_add(input_bytes),
                total_output_bytes: old(self).stats_value().total_output_bytes.saturating_add(output_bytes),
            }),
    {
        self.stats = EncoderStats {
            frames_encoded: self.stats.frames_encoded.saturating_add(1),
            total_encode_time_nanos: self.stats.total_encode_time_nanos.saturating_add(elapsed_nanos),
            total_input_bytes: self.stats.total_input_bytes.saturating_add(input_bytes),
            total_output_bytes: self.stats.total_output_bytes.saturating_add(output_bytes),
        };
    }

    /// Encoder statistics.
    pub fn stats(&self) -> (r: &EncoderStats)
        ensures
            *r == self.stats_value(),
    {
        &self.stats
    }

    /// Resets the statistics to zero.
    pub fn reset_stats(&mut self)
        ensures
            final(self).quality() == old(self).quality(),
            final(self).encoding() == old(self).encoding(),
            final(self).stats_value() == EncoderStats::zero_spec(),
    {
        self.stats = EncoderStats::zero();
    }

    /// Changes the quality preset, and the preferred encoding with it.
    pub fn set_quality(&mut self, quality: QualityPreset)
        ensures
            final(self).quality() == quality,
            final(self).encoding() == preferred_encoding_for(quality),
            final(self).stats_value() == old(self).stats_value(),
    {
        self.quality = quality;
        self.preferred_encoding = match quality {
            QualityPreset::Low => EncodingType::H264,
            QualityPreset::Medium => EncodingType::LZ4,
            QualityPreset::High => EncodingType::Raw,
        };
    }

    /// Changes the encoding type.
    pub fn set_encoding(&mut self, encoding: EncodingType)
        ensures
            final(self).quality() == old(self).quality(),
            final(self).encoding() == encoding,
            final(self).stats_value() == old(self).stats_value(),
    {
        self.preferred_encoding = encoding;
    }

    /// The quality preset.
    pub fn quality_preset(&self) -> (r: QualityPreset)
        ensures
            r == self.quality(),
    {
        self.quality
    }

    /// The encoding used for the next frame.
    pub fn preferred_encoding(&self) -> (r: EncodingType)
        ensures
            r == self.encoding(),
    {
        self.preferred_encoding
    }
}

impl EncoderStats {
    /// All counters zero, as a value.
    pub open spec fn zero_spec() -> EncoderStats {
        EncoderStats { frames_encoded: 0, total_encode_time_nanos: 0, total_input_bytes: 0, total_output_bytes: 0 }
    }
}

} // verus!
