//! The screen-mirroring stream format, and the cursor metadata PipeWire
//! attaches to captured buffers.
//!
//! A stream is a sequence of frames, each a 17-byte header followed by its
//! payload: the magic `CSMR`, the frame type, the presentation timestamp in
//! nanoseconds (8 bytes, big-endian) and the payload size (4 bytes,
//! big-endian).
use crate::bytes::{be32, be64, from_be32, from_be64, lemma_be32_roundtrip, lemma_be64_roundtrip, push_be32, push_be64, push_slice, u32_from_be, u64_from_be};
use vstd::prelude::*;

verus! {

/// Size of a frame header in bytes.
pub const FRAME_HEADER_SIZE: usize = 17;

/// Largest payload a receiver accepts, in bytes (10 MiB).
pub const MAX_FRAME_SIZE: u32 = 10_485_760;

/// The magic bytes opening every frame.
pub open spec fn magic() -> Seq<u8> {
    seq![0x43u8, 0x53u8, 0x4Du8, 0x52u8]
}

/// Kind of a frame.
#[derive(Debug, Clone, Copy, PartialEq, Eq, Structural)]
pub enum FrameType {
    /// Encoded video.
    Video,
    /// Cursor position.
    Cursor,
    /// Annotation data.
    Annotation,
    /// End of the stream.
    EndOfStream,
}

/// The byte of a frame type.
pub open spec fn frame_type_byte(t: FrameType) -> u8 {
    match t {
        FrameType::Video => 0x01,
        FrameType::Cursor => 0x02,
        FrameType::Annotation => 0x03,
        FrameType::EndOfStream => 0xFF,
    }
}

/// The frame type of a byte; unknown bytes are taken as video.
pub open spec fn frame_type_of_byte(b: u8) -> FrameType {
    if b == 0x02 {
        FrameType::Cursor
    } else if b == 0x03 {
        FrameType::Annotation
    } else if b == 0xFF {
        FrameType::EndOfStream
    } else {
        FrameType::Video
    }
}

impl FrameType {
    /// The byte of this frame type.
    pub fn to_u8(self) -> (r: u8)
        ensures
            r == frame_type_byte(self),
    {
        match self {
            FrameType::Video => 0x01,
            FrameType::Cursor => 0x02,
            FrameType::Annotation => 0x03,
            FrameType::EndOfStream => 0xFF,
        }
    }
}

impl From<u8> for FrameType {
    fn from(value: u8) -> (r: Self) {
        if value == 0x02 {
            FrameType::Cursor
        } else if value == 0x03 {
            FrameType::Annotation
        } else if value == 0xFF {
            FrameType::EndOfStream
        } else {
            FrameType::Video
        }
    }
}

impl vstd::std_specs::convert::FromSpecImpl<u8> for FrameType {
    open spec fn obeys_from_spec() -> bool {
        true
    }

    open spec fn from_spec(v: u8) -> FrameType {
        frame_type_of_byte(v)
    }
}

/// Reading back the byte of a frame type gives the type.
pub proof fn lemma_frame_type_roundtrip(t: FrameType)
    ensures
        frame_type_of_byte(frame_type_byte(t)) == t,
{
}

/// The header of a frame of type byte `t`, timestamp `ts` and payload size
/// `len`.
pub open spec fn frame_header(t: u8, ts: u64, len: u32) -> Seq<u8> {
    magic() + seq![t] + be64(ts) + be32(len)
}

/// A whole frame: header and payload.  The size field holds the payload
/// length modulo 2^32.
pub open spec fn frame_bytes(t: FrameType, ts: u64, payload: Seq<u8>) -> Seq<u8> {
    frame_header(frame_type_byte(t), ts, (payload.len() % 0x1_0000_0000) as u32) + payload
}

/// The bytes of a frame of type `frame_type` stamped `timestamp_ns`
/// carrying `payload`.
pub fn encode_frame(frame_type: FrameType, timestamp_ns: u64, payload: &[u8]) -> (r: Vec<u8>)
    ensures
        r@ == frame_bytes(frame_type, timestamp_ns, payload@),
{
    let mut out: Vec<u8> = Vec::new();
    out.push(0x43);
    out.push(0x53);
    out.push(0x4D);
    out.push(0x52);
    out.push(frame_type.to_u8());
    push_be64(&mut out, timestamp_ns);
    let len64: u64 = payload.len() as u64;
    let len32: u32 = (len64 % 0x1_0000_0000) as u32;
    push_be32(&mut out, len32);
    push_slice(&mut out, payload);
    assert(out@ =~= frame_bytes(frame_type, timestamp_ns, payload@));
    out
}

/// The 9-byte payload of a cursor frame: x and y (big-endian two's
/// complement), then 1 when visible, 0 when not.
pub open spec fn cursor_payload_of(x: i32, y: i32, visible: bool) -> Seq<u8> {
    be32(x as u32) + be32(y as u32) + seq![if visible { 1u8 } else { 0u8 }]
}

/// The payload of a cursor frame.
pub fn cursor_payload(x: i32, y: i32, visible: bool) -> (r: Vec<u8>)
    ensures
        r@ == cursor_payload_of(x, y, visible),
{
    let mut out: Vec<u8> = Vec::new();
    push_be32(&mut out, x as u32);
    push_be32(&mut out, y as u32);
    out.push(if visible { 1u8 } else { 0u8 });
    assert(out@ =~= cursor_payload_of(x, y, visible));
    out
}

/// What a frame header says.
#[derive(Debug, Clone, Copy, PartialEq, Eq, Structural)]
pub struct FrameHeader {
    /// The frame type byte, as sent.
    pub frame_type: u8,
    /// Presentation timestamp in nanoseconds.
    pub timestamp_ns: u64,
    /// Payload size in bytes.
    pub payload_size: u32,
}

/// Why a frame header was refused.
#[derive(Debug, Clone, Copy, PartialEq, Eq, Structural)]
pub enum FrameHeaderError {
    /// The header does not open with `CSMR`.
    InvalidMagic,
    /// The payload is larger than `MAX_FRAME_SIZE`; the announced size.
    PayloadTooLarge(u32),
}

/// What reading header bytes `h` gives.
pub open spec fn parse_frame_header_of(h: Seq<u8>) -> Result<FrameHeader, FrameHeaderError> {
    let size = from_be32(h[13], h[14], h[15], h[16]);
    if h.subrange(0, 4) != magic() {
        Err(FrameHeaderError::InvalidMagic)
    } else if size > MAX_FRAME_SIZE {
        Err(FrameHeaderError::PayloadTooLarge(size))
    } else {
        Ok(FrameHeader { frame_type: h[4], timestamp_ns: from_be64(h.subrange(5, 13)), payload_size: size })
    }
}

/// Reads a frame header: checks the magic and the payload size limit.
pub fn parse_frame_header(header: &[u8; 17]) -> (r: Result<FrameHeader, FrameHeaderError>)
    ensures
        r == parse_frame_header_of(header@),
{
    let h: &[u8] = header.as_slice();
    let size = u32_from_be(h[13], h[14], h[15], h[16]);
    if !(h[0] == 0x43 && h[1] == 0x53 && h[2] == 0x4D && h[3] == 0x52) {
        proof {
            if h@.subrange(0, 4) == magic() {
                assert(h@.subrange(0, 4)[0] == h@[0]);
                assert(h@.subrange(0, 4)[1] == h@[1]);
                assert(h@.subrange(0, 4)[2] == h@[2]);
                assert(h@.subrange(0, 4)[3] == h@[3]);
            }
        }
        return Err(FrameHeaderError::InvalidMagic);
    }
    assert(h@.subrange(0, 4) =~= magic());
    if size > MAX_FRAME_SIZE {
        return Err(FrameHeaderError::PayloadTooLarge(size));
    }
    let ts = u64_from_be(h, 5);
    Ok(FrameHeader { frame_type: h[4], timestamp_ns: ts, payload_size: size })
}

/// Reading the header of a frame the sender wrote gives back its type,
/// timestamp and payload size, when the payload is within the limit.
pub proof fn lemma_frame_header_roundtrip(t: FrameType, ts: u64, payload: Seq<u8>)
    requires
        payload.len() <= MAX_FRAME_SIZE,
    ensures
        parse_frame_header_of(frame_bytes(t, ts, payload).subrange(0, 17)) == Ok::<FrameHeader, FrameHeaderError>(
            FrameHeader { frame_type: frame_type_byte(t), timestamp_ns: ts, payload_size: payload.len() as u32 },
        ),
{
    let h = frame_bytes(t, ts, payload).subrange(0, 17);
    let len = (payload.len() % 0x1_0000_0000) as u32;
    assert(len == payload.len());
    assert(h =~= frame_header(frame_type_byte(t), ts, len));
    assert(h.subrange(0, 4) =~= magic());
    assert(h.subrange(5, 13) =~= be64(ts));
    lemma_be64_roundtrip(ts);
    lemma_be32_roundtrip(len);
    assert(be32(len) =~= h.subrange(13, 17));
}

/// Stream frame layout: the bytes `C`, `S`, `M`, `R`; the frame type
/// (video 1, cursor 2, annotation 3, end of stream 255); the timestamp in
/// eight bytes and the payload size in four, both big-endian; then the
/// payload unchanged.
pub proof fn lemma_frame_layout(t: FrameType, ts: u64, payload: Seq<u8>)
    requires
        payload.len() <= u32::MAX,
    ensures
        ({
            let b = frame_bytes(t, ts, payload);
            &&& b.len() == 17 + payload.len()
            &&& b[0] == 0x43 && b[1] == 0x53 && b[2] == 0x4D && b[3] == 0x52
            &&& b[4] == (match t {
                FrameType::Video => 1u8,
                FrameType::Cursor => 2u8,
                FrameType::Annotation => 3u8,
                FrameType::EndOfStream => 255u8,
            })
            &&& from_be64(b.subrange(5, 13)) == ts
            &&& from_be32(b[13], b[14], b[15], b[16]) == payload.len()
            &&& b.subrange(17, b.len() as int) == payload
        }),
{
    let b = frame_bytes(t, ts, payload);
    let len = (payload.len() % 0x1_0000_0000) as u32;
    assert(len == payload.len());
    assert(b.subrange(5, 13) =~= be64(ts));
    lemma_be64_roundtrip(ts);
    lemma_be32_roundtrip(len);
    assert(b[13] == be32(len)[0] && b[14] == be32(len)[1] && b[15] == be32(len)[2] && b[16] == be32(len)[3]);
    assert(b.subrange(17, b.len() as int) =~= payload);
}

/// Cursor frame payload: x then y, each big-endian in four bytes (two's
/// complement), then 1 when the cursor is visible and 0 when not.
pub proof fn lemma_cursor_payload_layout(x: i32, y: i32, visible: bool)
    ensures
        ({
            let b = cursor_payload_of(x, y, visible);
            &&& b.len() == 9
            &&& from_be32(b[0], b[1], b[2], b[3]) as i32 == x
            &&& from_be32(b[4], b[5], b[6], b[7]) as i32 == y
            &&& b[8] == (if visible { 1u8 } else { 0u8 })
        }),
{
    let b = cursor_payload_of(x, y, visible);
    lemma_be32_roundtrip(x as u32);
    lemma_be32_roundtrip(y as u32);
    assert(b[0] == be32(x as u32)[0] && b[1] == be32(x as u32)[1] && b[2] == be32(x as u32)[2] && b[3] == be32(x as u32)[3]);
    assert(b[4] == be32(y as u32)[0] && b[5] == be32(y as u32)[1] && b[6] == be32(y as u32)[2] && b[7] == be32(y as u32)[3]);
    assert((x as u32) as i32 == x) by (bit_vector);
    assert((y as u32) as i32 == y) by (bit_vector);
}

/// Counters of a stream sender.
#[derive(Debug, Clone, Copy, PartialEq, Eq, Structural)]
pub struct FrameCounters {
    /// Frames sent.
    pub frames_sent: u64,
    /// Bytes sent, headers included.
    pub bytes_sent: u64,
    /// Bytes sent in the current throughput window.
    pub window_bytes: u64,
}

impl FrameCounters {
    /// Nothing sent yet.
    pub fn new() -> (r: Self)
        ensures
            r == (FrameCounters { frames_sent: 0, bytes_sent: 0, window_bytes: 0 }),
    {
        FrameCounters { frames_sent: 0, bytes_sent: 0, window_bytes: 0 }
    }

    /// Counts a frame with a payload of `payload_len` bytes, its header
    /// included.  The counters saturate.
    pub fn record_frame(&mut self, payload_len: usize)
        ensures
            final(self).frames_sent == (if old(self).frames_sent == u64::MAX { u64::MAX } else { (old(self).frames_sent + 1) as u64 }),
            final(self).bytes_sent == (if old(self).bytes_sent + 17 + payload_len > u64::MAX { u64::MAX } else { (old(self).bytes_sent + 17 + payload_len) as u64 }),
            final(self).window_bytes == (if old(self).window_bytes + 17 + payload_len > u64::MAX { u64::MAX } else { (old(self).window_bytes + 17 + payload_len) as u64 }),
    {
        let size: u64 = if (payload_len as u128) + 17 > u64::MAX as u128 { u64::MAX } else { (payload_len as u64) + 17 };
        self.frames_sent = self.frames_sent.saturating_add(1);
        self.bytes_sent = self.bytes_sent.saturating_add(size);
        self.window_bytes = self.window_bytes.saturating_add(size);
    }

    /// Frames and bytes sent.
    pub fn stats(&self) -> (r: (u64, u64))
        ensures
            r == (self.frames_sent, self.bytes_sent),
    {
        (self.frames_sent, self.bytes_sent)
    }
}

/// Type number of the cursor metadata (`SPA_META_Cursor`).
pub const SPA_META_CURSOR: u32 = 5;

/// Size in bytes of a cursor metadata record (`spa_meta_cursor`: id,
/// flags, position, hotspot, bitmap offset).
pub const SPA_META_CURSOR_SIZE: u32 = 28;

/// Cursor position taken from capture metadata.
#[derive(Debug, Clone, Copy, PartialEq, Eq, Structural)]
pub struct CursorUpdate {
    /// X coordinate on screen.
    pub x: i32,
    /// Y coordinate on screen.
    pub y: i32,
    /// Whether the cursor is visible (its id is not 0).
    pub visible: bool,
}

/// The cursor fields of a metadata record.
#[derive(Debug, Clone, Copy, PartialEq, Eq, Structural)]
pub struct CursorMeta {
    /// Cursor id; 0 means no cursor.
    pub id: u32,
    /// X coordinate.
    pub x: i32,
    /// Y coordinate.
    pub y: i32,
}

/// One metadata record of a captured buffer.
#[derive(Debug, Clone, Copy, PartialEq, Eq, Structural)]
pub struct MetaRecord {
    /// Metadata type number.
    pub meta_type: u32,
    /// Size of the record's data in bytes.
    pub size: u32,
    /// The data read as a cursor record; `None` when the data pointer is
    /// null.
    pub cursor: Option<CursorMeta>,
}

/// What the first cursor record of `metas` says: `None` without one, or
/// when it has no data or too little of it.
pub open spec fn cursor_of_metas(metas: Seq<MetaRecord>) -> Option<CursorUpdate>
    decreases metas.len(),
{
    if metas.len() == 0 {
        None
    } else if metas[0].meta_type != SPA_META_CURSOR {
        cursor_of_metas(metas.drop_first())
    } else if metas[0].size < SPA_META_CURSOR_SIZE {
        None
    } else {
        match metas[0].cursor {
            None => None,
            Some(c) => Some(CursorUpdate { x: c.x, y: c.y, visible: c.id != 0 }),
        }
    }
}

/// The cursor position in a buffer's metadata records.
pub fn extract_cursor_position(metas: &[MetaRecord]) -> (r: Option<CursorUpdate>)
    ensures
        r == cursor_of_metas(metas@),
{
    let mut i: usize = 0;
    assert(metas@.subrange(0, metas@.len() as int) =~= metas@);
    while i < metas.len()
        invariant
            i <= metas@.len(),
            cursor_of_metas(metas@) == cursor_of_metas(metas@.subrange(i as int, metas@.len() as int)),
        decreases metas@.len() - i,
    {
        let m = metas[i];
        let ghost rest = metas@.subrange(i as int, metas@.len() as int);
        assert(rest[0] == m);
        if m.meta_type == SPA_META_CURSOR {
            if m.size < SPA_META_CURSOR_SIZE {
                return None;
            }
            return match m.cursor {
                None => None,
                Some(c) => Some(CursorUpdate { x: c.x, y: c.y, visible: c.id != 0 }),
            };
        }
        assert(rest.drop_first() =~= metas@.subrange(i + 1, metas@.len() as int));
        i = i + 1;
    }
    assert(metas@.subrange(i as int, metas@.len() as int) =~= Seq::<MetaRecord>::empty());
    None
}

} // verus!
