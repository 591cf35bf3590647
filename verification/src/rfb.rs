//! RFB (Remote Framebuffer, VNC) protocol 3.8 message types, with their
//! exact wire layouts.
use crate::bytes::{be16, be32, from_be16, from_be32, lemma_be16_roundtrip, lemma_be32_roundtrip, push_be16, push_be32, push_slice, u16_from_be, u32_from_be};
use vstd::prelude::*;

verus! {

/// Security type: invalid.
pub const SECURITY_INVALID: u8 = 0;

/// Security type: none (no authentication).
pub const SECURITY_NONE: u8 = 1;

/// Security type: VNC authentication.
pub const SECURITY_VNC_AUTH: u8 = 2;

/// Security result: OK.
pub const SECURITY_RESULT_OK: u32 = 0;

/// Security result: failed.
pub const SECURITY_RESULT_FAILED: u32 = 1;

/// The protocol version greeting of RFB 3.8, `"RFB 003.008\n"`.
pub fn rfb_version_3_8() -> (r: [u8; 12])
    ensures
        r@ == seq![82u8, 70, 66, 32, 48, 48, 51, 46, 48, 48, 56, 10],
{
    [82u8, 70, 66, 32, 48, 48, 51, 46, 48, 48, 56, 10]
}

/// The protocol version greeting of RFB 3.3, `"RFB 003.003\n"`.
pub fn rfb_version_3_3() -> (r: [u8; 12])
    ensures
        r@ == seq![82u8, 70, 66, 32, 48, 48, 51, 46, 48, 48, 51, 10],
{
    [82u8, 70, 66, 32, 48, 48, 51, 46, 48, 48, 51, 10]
}

/// Error of a message parser: the input ended before the message did.
#[derive(Debug, Clone, Copy, PartialEq, Eq)]
pub enum RfbError {
    /// Fewer bytes were available than the message needs.
    UnexpectedEof,
}

/// Client-to-server message types.
#[derive(Debug, Clone, Copy, PartialEq, Eq)]
pub enum ClientMessage {
    /// Set pixel format (type 0).
    SetPixelFormat,
    /// Set encodings (type 2).
    SetEncodings,
    /// Framebuffer update request (type 3).
    FramebufferUpdateRequest,
    /// Key event (type 4).
    KeyEvent,
    /// Pointer event (type 5).
    PointerEvent,
    /// Client cut text (type 6).
    ClientCutText,
}

/// The message-type byte of each client message.
pub open spec fn client_message_code(m: ClientMessage) -> u8 {
    match m {
        ClientMessage::SetPixelFormat => 0,
        ClientMessage::SetEncodings => 2,
        ClientMessage::FramebufferUpdateRequest => 3,
        ClientMessage::KeyEvent => 4,
        ClientMessage::PointerEvent => 5,
        ClientMessage::ClientCutText => 6,
    }
}

impl ClientMessage {
    /// Parses a message type from its byte.
    pub fn from_u8(value: u8) -> (r: Option<Self>)
        ensures
            r matches Some(m) ==> client_message_code(m) == value,
            r is None <==> !(value == 0 || (2 <= value && value <= 6)),
    {
        match value {
            0 => Some(Self::SetPixelFormat),
            2 => Some(Self::SetEncodings),
            3 => Some(Self::FramebufferUpdateRequest),
            4 => Some(Self::KeyEvent),
            5 => Some(Self::PointerEvent),
            6 => Some(Self::ClientCutText),
            _ => None,
        }
    }

    /// The message-type byte.
    pub fn to_u8(self) -> (r: u8)
        ensures
            r == client_message_code(self),
    {
        match self {
            Self::SetPixelFormat => 0,
            Self::SetEncodings => 2,
            Self::FramebufferUpdateRequest => 3,
            Self::KeyEvent => 4,
            Self::PointerEvent => 5,
            Self::ClientCutText => 6,
        }
    }
}

/// Server-to-client message types.
#[derive(Debug, Clone, Copy, PartialEq, Eq)]
pub enum ServerMessage {
    /// Framebuffer update (type 0).
    FramebufferUpdate,
    /// Set colour map entries (type 1).
    SetColourMapEntries,
    /// Bell (type 2).
    Bell,
    /// Server cut text (type 3).
    ServerCutText,
}

impl ServerMessage {
    /// The message-type byte.
    pub fn to_u8(self) -> (r: u8)
        ensures
            r == (match self {
                ServerMessage::FramebufferUpdate => 0u8,
                ServerMessage::SetColourMapEntries => 1u8,
                ServerMessage::Bell => 2u8,
                ServerMessage::ServerCutText => 3u8,
            }),
    {
        match self {
            Self::FramebufferUpdate => 0,
            Self::SetColourMapEntries => 1,
            Self::Bell => 2,
            Self::ServerCutText => 3,
        }
    }
}

/// RFB encoding types.
#[derive(Debug, Clone, Copy, PartialEq, Eq)]
pub enum RfbEncoding {
    /// Raw encoding (0).
    Raw,
    /// CopyRect encoding (1).
    CopyRect,
    /// RRE encoding (2).
    RRE,
    /// Hextile encoding (5).
    Hextile,
    /// ZRLE encoding (16).
    ZRLE,
    /// Cursor pseudo-encoding (-239).
    Cursor,
    /// DesktopSize pseudo-encoding (-223).
    DesktopSize,
}

/// The wire number of each encoding.
pub open spec fn rfb_encoding_code(e: RfbEncoding) -> i32 {
    match e {
        RfbEncoding::Raw => 0i32,
        RfbEncoding::CopyRect => 1,
        RfbEncoding::RRE => 2,
        RfbEncoding::Hextile => 5,
        RfbEncoding::ZRLE => 16,
        RfbEncoding::Cursor => -239i32,
        RfbEncoding::DesktopSize => -223i32,
    }
}

impl RfbEncoding {
    /// Parses an encoding from its wire number.
    pub fn from_i32(value: i32) -> (r: Option<Self>)
        ensures
            r matches Some(e) ==> rfb_encoding_code(e) == value,
            r is None <==> !(value == 0 || value == 1 || value == 2 || value == 5 || value == 16
                || value == -239 || value == -223),
    {
        match value {
            0 => Some(Self::Raw),
            1 => Some(Self::CopyRect),
            2 => Some(Self::RRE),
            5 => Some(Self::Hextile),
            16 => Some(Self::ZRLE),
            -239 => Some(Self::Cursor),
            -223 => Some(Self::DesktopSize),
            _ => None,
        }
    }

    /// The wire number of the encoding.
    pub fn to_i32(self) -> (r: i32)
        ensures
            r == rfb_encoding_code(self),
    {
        match self {
            Self::Raw => 0,
            Self::CopyRect => 1,
            Self::RRE => 2,
            Self::Hextile => 5,
            Self::ZRLE => 16,
            Self::Cursor => -239,
            Self::DesktopSize => -223,
        }
    }
}

/// Each message type byte parses back to the message it came from.
pub proof fn lemma_client_message_roundtrip(m: ClientMessage)
    ensures
        client_message_code(m) == 0 || (2 <= client_message_code(m) <= 6),
        forall|n: ClientMessage| client_message_code(n) == client_message_code(m) ==> n == m,
{
}

/// Each encoding's wire number parses back to that encoding.
pub proof fn lemma_rfb_encoding_roundtrip(e: RfbEncoding)
    ensures
        forall|f: RfbEncoding| rfb_encoding_code(f) == rfb_encoding_code(e) ==> f == e,
{
}

/// Pixel format descriptor.
#[derive(Debug, Clone, Copy, PartialEq, Eq)]
pub struct PixelFormat {
    /// Bits per pixel (8, 16, or 32).
    pub bits_per_pixel: u8,
    /// Depth (number of useful bits in the pixel value).
    pub depth: u8,
    /// Big-endian flag.
    pub big_endian_flag: u8,
    /// True colour flag.
    pub true_colour_flag: u8,
    /// Red maximum value.
    pub red_max: u16,
    /// Green maximum value.
    pub green_max: u16,
    /// Blue maximum value.
    pub blue_max: u16,
    /// Red shift.
    pub red_shift: u8,
    /// Green shift.
    pub green_shift: u8,
    /// Blue shift.
    pub blue_shift: u8,
}

/// The 16-byte wire layout of a pixel format (the last three bytes are padding).
pub open spec fn pixel_format_bytes(pf: PixelFormat) -> Seq<u8> {
    seq![pf.bits_per_pixel, pf.depth, pf.big_endian_flag, pf.true_colour_flag]
        + be16(pf.red_max) + be16(pf.green_max) + be16(pf.blue_max)
        + seq![pf.red_shift, pf.green_shift, pf.blue_shift, 0u8, 0u8, 0u8]
}

/// The pixel format that a 16-byte wire record describes.
pub open spec fn pixel_format_of(b: Seq<u8>) -> PixelFormat {
    PixelFormat {
        bits_per_pixel: b[0],
        depth: b[1],
        big_endian_flag: b[2],
        true_colour_flag: b[3],
        red_max: from_be16(b[4], b[5]),
        green_max: from_be16(b[6], b[7]),
        blue_max: from_be16(b[8], b[9]),
        red_shift: b[10],
        green_shift: b[11],
        blue_shift: b[12],
    }
}

impl PixelFormat {
    /// The standard RGBA 32-bit pixel format, as a value.
    pub open spec fn rgba32_spec() -> PixelFormat {
        PixelFormat {
            bits_per_pixel: 32,
            depth: 24,
            big_endian_flag: 0,
            true_colour_flag: 1,
            red_max: 255,
            green_max: 255,
            blue_max: 255,
            red_shift: 0,
            green_shift: 8,
            blue_shift: 16,
        }
    }

    /// The standard RGBA 32-bit pixel format.
    pub fn rgba32() -> (r: Self)
        ensures
            r == Self::rgba32_spec(),
            r == (PixelFormat {
                bits_per_pixel: 32,
                depth: 24,
                big_endian_flag: 0,
                true_colour_flag: 1,
                red_max: 255,
                green_max: 255,
                blue_max: 255,
                red_shift: 0,
                green_shift: 8,
                blue_shift: 16,
            }),
    {
        Self {
            bits_per_pixel: 32,
            depth: 24,
            big_endian_flag: 0,
            true_colour_flag: 1,
            red_max: 255,
            green_max: 255,
            blue_max: 255,
            red_shift: 0,
            green_shift: 8,
            blue_shift: 16,
        }
    }

    /// Serializes to the 16-byte wire record.
    pub fn to_bytes(&self) -> (r: [u8; 16])
        ensures
            r@ == pixel_format_bytes(*self),
    {
        let r = [
            self.bits_per_pixel,
            self.depth,
            self.big_endian_flag,
            self.true_colour_flag,
            (self.red_max / 256) as u8,
            (self.red_max % 256) as u8,
            (self.green_max / 256) as u8,
            (self.green_max % 256) as u8,
            (self.blue_max / 256) as u8,
            (self.blue_max % 256) as u8,
            self.red_shift,
            self.green_shift,
            self.blue_shift,
            0u8,
            0u8,
            0u8,
        ];
        assert(r@ =~= pixel_format_bytes(*self));
        r
    }

    /// Parses the 16-byte wire record.
    pub fn from_bytes(bytes: &[u8; 16]) -> (r: Self)
        ensures
            r == pixel_format_of(bytes@),
    {
        Self {
            bits_per_pixel: bytes[0],
            depth: bytes[1],
            big_endian_flag: bytes[2],
            true_colour_flag: bytes[3],
            red_max: u16_from_be(bytes[4], bytes[5]),
            green_max: u16_from_be(bytes[6], bytes[7]),
            blue_max: u16_from_be(bytes[8], bytes[9]),
            red_shift: bytes[10],
            green_shift: bytes[11],
            blue_shift: bytes[12],
        }
    }
}

/// Parsing the serialized record of a pixel format gives the pixel format back.
pub proof fn lemma_pixel_format_roundtrip(pf: PixelFormat)
    ensures
        pixel_format_bytes(pf).len() == 16,
        pixel_format_of(pixel_format_bytes(pf)) == pf,
{
    lemma_be16_roundtrip(pf.red_max);
    lemma_be16_roundtrip(pf.green_max);
    lemma_be16_roundtrip(pf.blue_max);
    let b = pixel_format_bytes(pf);
    assert(b[4] == be16(pf.red_max)[0] && b[5] == be16(pf.red_max)[1]);
    assert(b[6] == be16(pf.green_max)[0] && b[7] == be16(pf.green_max)[1]);
    assert(b[8] == be16(pf.blue_max)[0] && b[9] == be16(pf.blue_max)[1]);
}

/// Server initialization message.
#[derive(Debug, Clone)]
pub struct ServerInit {
    /// Framebuffer width.
    pub width: u16,
    /// Framebuffer height.
    pub height: u16,
    /// Pixel format.
    pub pixel_format: PixelFormat,
    /// Desktop name.
    pub name: String,
}

/// The wire layout of a ServerInit message: width, height, pixel format,
/// the name's byte length as a 32-bit number, then the name's UTF-8 bytes.
pub open spec fn server_init_bytes(width: u16, height: u16, pf: PixelFormat, name: Seq<u8>) -> Seq<u8> {
    be16(width) + be16(height) + pixel_format_bytes(pf) + be32(name.len() as u32) + name
}

impl ServerInit {
    /// A ServerInit message with the standard RGBA 32-bit pixel format.
    pub fn new(width: u16, height: u16, name: String) -> (r: Self)
        ensures
            r.width == width,
            r.height == height,
            r.pixel_format == PixelFormat::rgba32_spec(),
            r.name == name,
    {
        Self { width, height, pixel_format: PixelFormat::rgba32(), name }
    }

    /// Serializes to bytes.
    pub fn to_bytes(&self) -> (r: Vec<u8>)
        ensures
            r@ == server_init_bytes(self.width, self.height, self.pixel_format, vstd::utf8::encode_utf8(self.name@)),
    {
        let mut bytes: Vec<u8> = Vec::new();
        push_be16(&mut bytes, self.width);
        push_be16(&mut bytes, self.height);
        let pf = self.pixel_format.to_bytes();
        push_slice(&mut bytes, &pf);
        let name = self.name.as_str();
        let name_bytes = name.as_bytes();
        push_be32(&mut bytes, name_bytes.len() as u32);
        push_slice(&mut bytes, name_bytes);
        assert(bytes@ =~= server_init_bytes(self.width, self.height, self.pixel_format, vstd::utf8::encode_utf8(self.name@)));
        bytes
    }
}

/// Framebuffer update request.
#[derive(Debug, Clone, Copy, PartialEq, Eq)]
pub struct FramebufferUpdateRequest {
    /// Incremental update flag.
    pub incremental: bool,
    /// X position.
    pub x: u16,
    /// Y position.
    pub y: u16,
    /// Width.
    pub width: u16,
    /// Height.
    pub height: u16,
}

/// The request that the nine bytes following the message type describe.
pub open spec fn framebuffer_update_request_of(b: Seq<u8>) -> FramebufferUpdateRequest {
    FramebufferUpdateRequest {
        incremental: b[0] != 0,
        x: from_be16(b[1], b[2]),
        y: from_be16(b[3], b[4]),
        width: from_be16(b[5], b[6]),
        height: from_be16(b[7], b[8]),
    }
}

impl FramebufferUpdateRequest {
    /// Reads the nine message bytes from the front of `reader`.
    pub fn from_reader(reader: &[u8]) -> (r: Result<Self, RfbError>)
        ensures
            reader@.len() < 9 <==> r is Err,
            r matches Ok(m) ==> m == framebuffer_update_request_of(reader@),
    {
        if reader.len() < 9 {
            return Err(RfbError::UnexpectedEof);
        }
        Ok(Self {
            incremental: reader[0] != 0,
            x: u16_from_be(reader[1], reader[2]),
            y: u16_from_be(reader[3], reader[4]),
            width: u16_from_be(reader[5], reader[6]),
            height: u16_from_be(reader[7], reader[8]),
        })
    }
}

/// Key event message.
#[derive(Debug, Clone, Copy, PartialEq, Eq)]
pub struct KeyEvent {
    /// Down flag (true = key press, false = key release).
    pub down: bool,
    /// Key symbol (X11 keysym).
    pub key: u32,
}

/// The key event that the seven bytes following the message type describe
/// (a flag, two bytes of padding, the keysym).
pub open spec fn key_event_of(b: Seq<u8>) -> KeyEvent {
    KeyEvent { down: b[0] != 0, key: from_be32(b[3], b[4], b[5], b[6]) }
}

impl KeyEvent {
    /// Reads the seven message bytes from the front of `reader`.
    pub fn from_reader(reader: &[u8]) -> (r: Result<Self, RfbError>)
        ensures
            reader@.len() < 7 <==> r is Err,
            r matches Ok(m) ==> m == key_event_of(reader@),
    {
        if reader.len() < 7 {
            return Err(RfbError::UnexpectedEof);
        }
        Ok(Self { down: reader[0] != 0, key: u32_from_be(reader[3], reader[4], reader[5], reader[6]) })
    }
}

/// Pointer event message.
#[derive(Debug, Clone, Copy, PartialEq, Eq)]
pub struct PointerEvent {
    /// Button mask (bit 0 = left, bit 1 = middle, bit 2 = right).
    pub button_mask: u8,
    /// X position.
    pub x: u16,
    /// Y position.
    pub y: u16,
}

/// The pointer event that the five bytes following the message type describe.
pub open spec fn pointer_event_of(b: Seq<u8>) -> PointerEvent {
    PointerEvent { button_mask: b[0], x: from_be16(b[1], b[2]), y: from_be16(b[3], b[4]) }
}

impl PointerEvent {
    /// Reads the five message bytes from the front of `reader`.
    pub fn from_reader(reader: &[u8]) -> (r: Result<Self, RfbError>)
        ensures
            reader@.len() < 5 <==> r is Err,
            r matches Ok(m) ==> m == pointer_event_of(reader@),
    {
        if reader.len() < 5 {
            return Err(RfbError::UnexpectedEof);
        }
        Ok(Self {
            button_mask: reader[0],
            x: u16_from_be(reader[1], reader[2]),
            y: u16_from_be(reader[3], reader[4]),
        })
    }
}

/// Rectangle in a framebuffer update.
#[derive(Debug, Clone)]
pub struct Rectangle {
    /// X position.
    pub x: u16,
    /// Y position.
    pub y: u16,
    /// Width.
    pub width: u16,
    /// Height.
    pub height: u16,
    /// Encoding type.
    pub encoding: i32,
    /// Pixel data.
    pub data: Vec<u8>,
}

/// Key event layout (RFC 6143, KeyEvent): the first body byte is the
/// down flag, any non-zero value pressing; two padding bytes follow; the
/// keysym is the big-endian number in body bytes 3 to 6.  So a body made
/// of a flag, any padding and a keysym's big-endian bytes parses back to
/// that flag and that keysym.
pub proof fn lemma_key_event_layout(b: Seq<u8>, down: u8, pad0: u8, pad1: u8, key: u32)
    ensures
        b.len() >= 7 ==> key_event_of(b).down == (b[0] != 0),
        b.len() >= 7 ==> key_event_of(b).key as int
            == b[3] as int * 0x100_0000 + b[4] as int * 0x1_0000 + b[5] as int * 0x100 + b[6] as int,
        key_event_of(seq![down, pad0, pad1] + be32(key)) == (KeyEvent { down: down != 0, key }),
{
    let m = seq![down, pad0, pad1] + be32(key);
    lemma_be32_roundtrip(key);
    assert(m[3] == be32(key)[0] && m[4] == be32(key)[1] && m[5] == be32(key)[2] && m[6] == be32(key)[3]);
    if b.len() >= 7 {
        let v = b[3] as int * 0x100_0000 + b[4] as int * 0x1_0000 + b[5] as int * 0x100 + b[6] as int;
        assert(0 <= v <= u32::MAX);
    }
}

/// Pointer event layout (RFC 6143, PointerEvent): the first body byte is
/// the button mask, x is the big-endian number in body bytes 1 and 2, y
/// that in bytes 3 and 4.  So a body made of a mask and the big-endian
/// bytes of x then y parses back to that mask, x and y.
pub proof fn lemma_pointer_event_layout(b: Seq<u8>, mask: u8, x: u16, y: u16)
    ensures
        b.len() >= 5 ==> pointer_event_of(b).button_mask == b[0],
        b.len() >= 5 ==> pointer_event_of(b).x as int == b[1] as int * 256 + b[2] as int,
        b.len() >= 5 ==> pointer_event_of(b).y as int == b[3] as int * 256 + b[4] as int,
        pointer_event_of(seq![mask] + be16(x) + be16(y)) == (PointerEvent { button_mask: mask, x, y }),
{
    let m = seq![mask] + be16(x) + be16(y);
    lemma_be16_roundtrip(x);
    lemma_be16_roundtrip(y);
    assert(m[1] == be16(x)[0] && m[2] == be16(x)[1] && m[3] == be16(y)[0] && m[4] == be16(y)[1]);
}

/// Update request layout (RFC 6143, FramebufferUpdateRequest): the first
/// body byte is the incremental flag, any non-zero value setting it; then
/// x, y, width and height, each big-endian in two bytes.  So a body made
/// of a flag and those four numbers' big-endian bytes parses back to them.
pub proof fn lemma_update_request_layout(b: Seq<u8>, inc: u8, x: u16, y: u16, w: u16, h: u16)
    ensures
        b.len() >= 9 ==> ({
            let r = framebuffer_update_request_of(b);
            &&& r.incremental == (b[0] != 0)
            &&& r.x as int == b[1] as int * 256 + b[2] as int
            &&& r.y as int == b[3] as int * 256 + b[4] as int
            &&& r.width as int == b[5] as int * 256 + b[6] as int
            &&& r.height as int == b[7] as int * 256 + b[8] as int
        }),
        framebuffer_update_request_of(seq![inc] + be16(x) + be16(y) + be16(w) + be16(h))
            == (FramebufferUpdateRequest { incremental: inc != 0, x, y, width: w, height: h }),
{
    let m = seq![inc] + be16(x) + be16(y) + be16(w) + be16(h);
    lemma_be16_roundtrip(x);
    lemma_be16_roundtrip(y);
    lemma_be16_roundtrip(w);
    lemma_be16_roundtrip(h);
    assert(m[1] == be16(x)[0] && m[2] == be16(x)[1] && m[3] == be16(y)[0] && m[4] == be16(y)[1]);
    assert(m[5] == be16(w)[0] && m[6] == be16(w)[1] && m[7] == be16(h)[0] && m[8] == be16(h)[1]);
}

/// Pixel format layout (RFC 6143, PIXEL_FORMAT): bits per pixel, depth,
/// big-endian flag, true-colour flag, then the red, green and blue maxima
/// big-endian in two bytes each, the red, green and blue shifts, and three
/// zero padding bytes.
pub proof fn lemma_pixel_format_layout(pf: PixelFormat)
    ensures
        ({
            let b = pixel_format_bytes(pf);
            &&& b.len() == 16
            &&& b[0] == pf.bits_per_pixel && b[1] == pf.depth
            &&& b[2] == pf.big_endian_flag && b[3] == pf.true_colour_flag
            &&& b[4] as int * 256 + b[5] as int == pf.red_max
            &&& b[6] as int * 256 + b[7] as int == pf.green_max
            &&& b[8] as int * 256 + b[9] as int == pf.blue_max
            &&& b[10] == pf.red_shift && b[11] == pf.green_shift && b[12] == pf.blue_shift
            &&& b[13] == 0 && b[14] == 0 && b[15] == 0
        }),
{
    lemma_pixel_format_roundtrip(pf);
    let b = pixel_format_bytes(pf);
    assert(b[4] == be16(pf.red_max)[0] && b[5] == be16(pf.red_max)[1]);
    assert(b[6] == be16(pf.green_max)[0] && b[7] == be16(pf.green_max)[1]);
    assert(b[8] == be16(pf.blue_max)[0] && b[9] == be16(pf.blue_max)[1]);
}

/// ServerInit layout (RFC 6143): the framebuffer width and height
/// big-endian in two bytes each, the 16-byte pixel format, the name's
/// length big-endian in four bytes, then the name.
pub proof fn lemma_server_init_layout(width: u16, height: u16, pf: PixelFormat, name: Seq<u8>)
    requires
        name.len() <= u32::MAX,
    ensures
        ({
            let b = server_init_bytes(width, height, pf, name);
            &&& b.len() == 24 + name.len()
            &&& b[0] as int * 256 + b[1] as int == width
            &&& b[2] as int * 256 + b[3] as int == height
            &&& b.subrange(4, 20) == pixel_format_bytes(pf)
            &&& from_be32(b[20], b[21], b[22], b[23]) == name.len()
            &&& b.subrange(24, b.len() as int) == name
        }),
{
    let b = server_init_bytes(width, height, pf, name);
    lemma_be16_roundtrip(width);
    lemma_be16_roundtrip(height);
    lemma_be32_roundtrip(name.len() as u32);
    lemma_pixel_format_roundtrip(pf);
    assert(b[0] == be16(width)[0] && b[1] == be16(width)[1] && b[2] == be16(height)[0] && b[3] == be16(height)[1]);
    let l = be32(name.len() as u32);
    assert(b[20] == l[0] && b[21] == l[1] && b[22] == l[2] && b[23] == l[3]);
    assert(b.subrange(4, 20) =~= pixel_format_bytes(pf));
    assert(b.subrange(24, b.len() as int) =~= name);
}

/// Rectangle layout (RFC 6143, a FramebufferUpdate rectangle): x, y,
/// width and height big-endian in two bytes each, the encoding number
/// big-endian in four bytes (two's complement), then the data.
pub proof fn lemma_rectangle_layout(r: Rectangle)
    ensures
        ({
            let b = rectangle_bytes(r);
            &&& b.len() == 12 + r.data@.len()
            &&& b[0] as int * 256 + b[1] as int == r.x
            &&& b[2] as int * 256 + b[3] as int == r.y
            &&& b[4] as int * 256 + b[5] as int == r.width
            &&& b[6] as int * 256 + b[7] as int == r.height
            &&& from_be32(b[8], b[9], b[10], b[11]) == r.encoding as u32
            &&& b.subrange(12, b.len() as int) == r.data@
        }),
{
    let b = rectangle_bytes(r);
    lemma_be16_roundtrip(r.x);
    lemma_be16_roundtrip(r.y);
    lemma_be16_roundtrip(r.width);
    lemma_be16_roundtrip(r.height);
    lemma_be32_roundtrip(r.encoding as u32);
    assert(b[0] == be16(r.x)[0] && b[1] == be16(r.x)[1] && b[2] == be16(r.y)[0] && b[3] == be16(r.y)[1]);
    assert(b[4] == be16(r.width)[0] && b[5] == be16(r.width)[1] && b[6] == be16(r.height)[0] && b[7] == be16(r.height)[1]);
    let e = be32(r.encoding as u32);
    assert(b[8] == e[0] && b[9] == e[1] && b[10] == e[2] && b[11] == e[3]);
    assert(b.subrange(12, b.len() as int) =~= r.data@);
}

/// The wire layout of a rectangle: position, size, encoding number
/// (two's complement), then the encoded pixel data.
pub open spec fn rectangle_bytes(r: Rectangle) -> Seq<u8> {
    be16(r.x) + be16(r.y) + be16(r.width) + be16(r.height) + be32(r.encoding as u32) + r.data@
}

/// The wire layouts of `rects`, one after the other.
pub open spec fn rectangles_bytes(rects: Seq<Rectangle>) -> Seq<u8>
    decreases rects.len(),
{
    if rects.len() == 0 {
        Seq::empty()
    } else {
        rectangles_bytes(rects.drop_last()) + rectangle_bytes(rects.last())
    }
}

impl Rectangle {
    /// A rectangle with the given fields.
    pub fn new(x: u16, y: u16, width: u16, height: u16, encoding: i32, data: Vec<u8>) -> (r: Self)
        ensures
            r.x == x && r.y == y && r.width == width && r.height == height,
            r.encoding == encoding,
            r.data@ == data@,
    {
        Self { x, y, width, height, encoding, data }
    }

    /// Serializes to bytes.
    pub fn to_bytes(&self) -> (r: Vec<u8>)
        ensures
            r@ == rectangle_bytes(*self),
    {
        let mut bytes: Vec<u8> = Vec::new();
        push_be16(&mut bytes, self.x);
        push_be16(&mut bytes, self.y);
        push_be16(&mut bytes, self.width);
        push_be16(&mut bytes, self.height);
        push_be32(&mut bytes, self.encoding as u32);
        push_slice(&mut bytes, self.data.as_slice());
        assert(bytes@ =~= rectangle_bytes(*self));
        bytes
    }
}

/// Framebuffer update message.
#[derive(Debug, Clone)]
pub struct FramebufferUpdate {
    /// The rectangles of the update.
    pub rectangles: Vec<Rectangle>,
}

/// The wire layout of a framebuffer update: the message type, a padding
/// byte, the rectangle count (truncated to 16 bits), then the rectangles.
pub open spec fn framebuffer_update_bytes(rects: Seq<Rectangle>) -> Seq<u8> {
    seq![0u8, 0u8] + be16(rects.len() as u16) + rectangles_bytes(rects)
}

/// Framebuffer update layout (RFC 6143): message type 0, a padding byte,
/// the rectangle count big-endian in two bytes, then each rectangle in
/// order.
pub proof fn lemma_framebuffer_update_layout(rects: Seq<Rectangle>)
    requires
        rects.len() <= u16::MAX,
    ensures
        ({
            let b = framebuffer_update_bytes(rects);
            &&& b[0] == 0 && b[1] == 0
            &&& b[2] as int * 256 + b[3] as int == rects.len()
            &&& b.subrange(4, b.len() as int) == rectangles_bytes(rects)
        }),
        rects.len() == 1 ==> framebuffer_update_bytes(rects) == seq![0u8, 0u8, 0u8, 1u8] + rectangle_bytes(rects[0]),
{
    let b = framebuffer_update_bytes(rects);
    lemma_be16_roundtrip(rects.len() as u16);
    assert(b[2] == be16(rects.len() as u16)[0] && b[3] == be16(rects.len() as u16)[1]);
    assert(b.subrange(4, b.len() as int) =~= rectangles_bytes(rects));
    if rects.len() == 1 {
        assert(rects.drop_last().len() == 0);
        assert(rectangles_bytes(rects.drop_last()) =~= Seq::<u8>::empty());
        assert(rectangles_bytes(rects) =~= rectangle_bytes(rects[0]));
        assert(be16(1u16) =~= seq![0u8, 1u8]);
        assert(b =~= seq![0u8, 0u8, 0u8, 1u8] + rectangle_bytes(rects[0]));
    }
}

impl FramebufferUpdate {
    /// A framebuffer update with the given rectangles.
    pub fn new(rectangles: Vec<Rectangle>) -> (r: Self)
        ensures
            r.rectangles@ == rectangles@,
    {
        Self { rectangles }
    }

    /// Serializes to bytes.
    pub fn to_bytes(&self) -> (r: Vec<u8>)
        ensures
            r@ == framebuffer_update_bytes(self.rectangles@),
    {
        let mut bytes: Vec<u8> = Vec::new();
        bytes.push(ServerMessage::FramebufferUpdate.to_u8());
        bytes.push(0);
        push_be16(&mut bytes, self.rectangles.len() as u16);
        let ghost head = bytes@;
        let mut i: usize = 0;
        while i < self.rectangles.len()
            invariant
                i <= self.rectangles@.len(),
                bytes@ == head + rectangles_bytes(self.rectangles@.subrange(0, i as int)),
            decreases self.rectangles@.len() - i,
        {
            let rb = self.rectangles[i].to_bytes();
            push_slice(&mut bytes, rb.as_slice());
            assert(self.rectangles@.subrange(0, i + 1).drop_last() =~= self.rectangles@.subrange(0, i as int));
            i = i + 1;
            assert(bytes@ =~= head + rectangles_bytes(self.rectangles@.subrange(0, i as int)));
        }
        assert(self.rectangles@.subrange(0, i as int) =~= self.rectangles@);
        assert(bytes@ =~= framebuffer_update_bytes(self.rectangles@));
        bytes
    }
}

/// Write helpers for protocol messages.
pub trait ProtocolWrite {
    /// Writes a byte.
    fn write_u8(&mut self, value: u8) -> Result<(), RfbError>;

    /// Writes a 16-bit number, big-endian.
    fn write_u16(&mut self, value: u16) -> Result<(), RfbError>;

    /// Writes a 32-bit number, big-endian.
    fn write_u32(&mut self, value: u32) -> Result<(), RfbError>;

    /// Writes a signed 32-bit number, big-endian two's complement.
    fn write_i32(&mut self, value: i32) -> Result<(), RfbError>;

    /// Writes bytes.
    fn write_bytes(&mut self, bytes: &[u8]) -> Result<(), RfbError>;
}

impl ProtocolWrite for Vec<u8> {
    fn write_u8(&mut self, value: u8) -> (r: Result<(), RfbError>)
        ensures
            r is Ok,
            final(self)@ == old(self)@.push(value),
    {
        self.push(value);
        Ok(())
    }

    fn write_u16(&mut self, value: u16) -> (r: Result<(), RfbError>)
        ensures
            r is Ok,
            final(self)@ == old(self)@ + be16(value),
    {
        push_be16(self, value);
        Ok(())
    }

    fn write_u32(&mut self, value: u32) -> (r: Result<(), RfbError>)
        ensures
            r is Ok,
            final(self)@ == old(self)@ + be32(value),
    {
        push_be32(self, value);
        Ok(())
    }

    fn write_i32(&mut self, value: i32) -> (r: Result<(), RfbError>)
        ensures
            r is Ok,
            final(self)@ == old(self)@ + be32(value as u32),
    {
        push_be32(self, value as u32);
        Ok(())
    }

    fn write_bytes(&mut self, bytes: &[u8]) -> (r: Result<(), RfbError>)
        ensures
            r is Ok,
            final(self)@ == old(self)@ + bytes@,
    {
        push_slice(self, bytes);
        Ok(())
    }
}

} // verus!
