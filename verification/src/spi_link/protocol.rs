//! Wire format of the inter-MCU SPI link: the 16-byte frame header, the
//! command set, the CRC-32 that guards block payloads, and the capacity
//! payload.
//!
//! Every multi-byte field travels little-endian. A header is laid out as
//!
//! | bytes  | field      |
//! |--------|------------|
//! | 0..2   | `magic` ("BK") |
//! | 2      | `cmd`      |
//! | 3      | `flags`    |
//! | 4..6   | `seq`      |
//! | 6..8   | `reserved` (chunk index of a block transfer) |
//! | 8..12  | `arg0` (request: first LBA; response: status code) |
//! | 12..16 | `arg1` (request: block count; response: payload length) |

use vstd::prelude::*;

verus! {

/// The two magic bytes "BK", read as a little-endian `u16`.
pub const MAGIC: u16 = 0x4B42;

/// Length of a frame header in bytes.
pub const HDR_LEN: usize = 16;

/// Largest block payload carried by one frame.
pub const MAX_PAYLOAD: usize = 8192;

/// Length of the CRC-32 trailer that follows a block payload.
pub const CRC_LEN: usize = 4;

/// Largest frame: header, payload and CRC trailer.
pub const RX_LEN: usize = 8212;

/// Flag bit set in the header of every response.
pub const FLAG_RESPONSE: u8 = 1;

/// Reflected CRC-32 (IEEE 802.3) polynomial.
pub const CRC32_POLY: u32 = 0xEDB8_8320;

// ---------------------------------------------------------------------------
// Little-endian integers
// ---------------------------------------------------------------------------

/// The two little-endian bytes of `x`.
pub open spec fn le16(x: u16) -> Seq<u8> {
    seq![(x & 0xff) as u8, (x >> 8) as u8]
}

/// The four little-endian bytes of `x`.
pub open spec fn le32(x: u32) -> Seq<u8> {
    seq![(x & 0xff) as u8, ((x >> 8) & 0xff) as u8, ((x >> 16) & 0xff) as u8, (x >> 24) as u8]
}

/// The `u16` whose little-endian bytes are `b0`, `b1`.
pub open spec fn u16_from_le(b0: u8, b1: u8) -> u16 {
    (b0 as u16) | ((b1 as u16) << 8u16)
}

/// The `u32` whose little-endian bytes are `b0` .. `b3`.
pub open spec fn u32_from_le(b0: u8, b1: u8, b2: u8, b3: u8) -> u32 {
    (b0 as u32) | ((b1 as u32) << 8u32) | ((b2 as u32) << 16u32) | ((b3 as u32) << 24u32)
}

/// Reading back the bytes of a `u16` gives the `u16`.
pub proof fn lemma_le16_roundtrip(x: u16)
    ensures
        u16_from_le(le16(x)[0], le16(x)[1]) == x,
{
    assert((((x & 0xff) as u8) as u16) | ((((x >> 8) as u8) as u16) << 8u16) == x) by (bit_vector);
}

/// Writing out a `u16` read from two bytes gives the two bytes.
pub proof fn lemma_u16_from_le_roundtrip(b0: u8, b1: u8)
    ensures
        le16(u16_from_le(b0, b1)) == seq![b0, b1],
{
    let v = u16_from_le(b0, b1);
    assert(((((b0 as u16) | ((b1 as u16) << 8u16)) & 0xff) as u8) == b0) by (bit_vector);
    assert(((((b0 as u16) | ((b1 as u16) << 8u16)) >> 8) as u8) == b1) by (bit_vector);
    assert(le16(v) =~= seq![b0, b1]);
}

/// Reading back the bytes of a `u32` gives the `u32`.
pub proof fn lemma_le32_roundtrip(x: u32)
    ensures
        u32_from_le(le32(x)[0], le32(x)[1], le32(x)[2], le32(x)[3]) == x,
{
    assert((((x & 0xff) as u8) as u32) | (((((x >> 8) & 0xff) as u8) as u32) << 8u32) | (((((x
        >> 16) & 0xff) as u8) as u32) << 16u32) | ((((x >> 24) as u8) as u32) << 24u32) == x)
        by (bit_vector);
}

/// Writing out a `u32` read from four bytes gives the four bytes.
pub proof fn lemma_u32_from_le_roundtrip(b0: u8, b1: u8, b2: u8, b3: u8)
    ensures
        le32(u32_from_le(b0, b1, b2, b3)) == seq![b0, b1, b2, b3],
{
    let v = u32_from_le(b0, b1, b2, b3);
    assert(((((b0 as u32) | ((b1 as u32) << 8u32) | ((b2 as u32) << 16u32) | ((b3 as u32)
        << 24u32)) & 0xff) as u8) == b0) by (bit_vector);
    assert((((((b0 as u32) | ((b1 as u32) << 8u32) | ((b2 as u32) << 16u32) | ((b3 as u32)
        << 24u32)) >> 8) & 0xff) as u8) == b1) by (bit_vector);
    assert((((((b0 as u32) | ((b1 as u32) << 8u32) | ((b2 as u32) << 16u32) | ((b3 as u32)
        << 24u32)) >> 16) & 0xff) as u8) == b2) by (bit_vector);
    assert(((((b0 as u32) | ((b1 as u32) << 8u32) | ((b2 as u32) << 16u32) | ((b3 as u32)
        << 24u32)) >> 24) as u8) == b3) by (bit_vector);
    assert(le32(v) =~= seq![b0, b1, b2, b3]);
}

/// Appends the little-endian bytes of `x`.
pub fn push_le16(out: &mut Vec<u8>, x: u16)
    ensures
        final(out)@ == old(out)@ + le16(x),
{
    out.push((x & 0xff) as u8);
    out.push((x >> 8) as u8);
    assert(final(out)@ =~= old(out)@ + le16(x));
}

/// Appends the little-endian bytes of `x`.
pub fn push_le32(out: &mut Vec<u8>, x: u32)
    ensures
        final(out)@ == old(out)@ + le32(x),
{
    out.push((x & 0xff) as u8);
    out.push(((x >> 8) & 0xff) as u8);
    out.push(((x >> 16) & 0xff) as u8);
    out.push((x >> 24) as u8);
    assert(final(out)@ =~= old(out)@ + le32(x));
}

/// Reads the little-endian `u16` at `pos`.
pub fn read_le16(b: &[u8], pos: usize) -> (r: u16)
    requires
        pos + 2 <= b@.len(),
    ensures
        r == u16_from_le(b@[pos as int], b@[pos + 1]),
{
    (b[pos] as u16) | ((b[pos + 1] as u16) << 8u16)
}

/// Reads the little-endian `u32` at `pos`.
pub fn read_le32(b: &[u8], pos: usize) -> (r: u32)
    requires
        pos + 4 <= b@.len(),
    ensures
        r == u32_from_le(b@[pos as int], b@[pos + 1], b@[pos + 2], b@[pos + 3]),
{
    (b[pos] as u32) | ((b[pos + 1] as u32) << 8u32) | ((b[pos + 2] as u32) << 16u32) | ((b[pos
        + 3] as u32) << 24u32)
}

// ---------------------------------------------------------------------------
// Commands
// ---------------------------------------------------------------------------

/// A command that the master sends to this board.
#[derive(Clone, Copy, Debug, PartialEq, Eq, Structural)]
pub enum Cmd {
    /// Report whether a drive is present and ready.
    GetStatus,
    /// Report the drive's block size and block count.
    GetCapacity,
    /// Read one chunk of a block range.
    Read,
    /// Write one chunk of a block range.
    Write,
    /// Flush outstanding writes.
    Flush,
}

impl Cmd {
    /// The command's code on the wire.
    pub open spec fn spec_code(self) -> u8 {
        match self {
            Cmd::GetStatus => 1,
            Cmd::GetCapacity => 2,
            Cmd::Read => 3,
            Cmd::Write => 4,
            Cmd::Flush => 5,
        }
    }

    /// The command that a wire code names, if any.
    pub open spec fn spec_from_code(c: u8) -> Option<Cmd> {
        if c == 1 {
            Some(Cmd::GetStatus)
        } else if c == 2 {
            Some(Cmd::GetCapacity)
        } else if c == 3 {
            Some(Cmd::Read)
        } else if c == 4 {
            Some(Cmd::Write)
        } else if c == 5 {
            Some(Cmd::Flush)
        } else {
            None
        }
    }

    /// The command's code on the wire.
    pub fn code(self) -> (c: u8)
        ensures
            c == self.spec_code(),
    {
        match self {
            Cmd::GetStatus => 1,
            Cmd::GetCapacity => 2,
            Cmd::Read => 3,
            Cmd::Write => 4,
            Cmd::Flush => 5,
        }
    }

    /// The command that a wire code names; `None` for an unknown code.
    pub fn from_code(c: u8) -> (r: Option<Cmd>)
        ensures
            r == Cmd::spec_from_code(c),
    {
        if c == 1 {
            Some(Cmd::GetStatus)
        } else if c == 2 {
            Some(Cmd::GetCapacity)
        } else if c == 3 {
            Some(Cmd::Read)
        } else if c == 4 {
            Some(Cmd::Write)
        } else if c == 5 {
            Some(Cmd::Flush)
        } else {
            None
        }
    }
}

/// Every command is found again from its code, and no two commands share a code.
pub proof fn lemma_cmd_code_roundtrip(c: Cmd)
    ensures
        Cmd::spec_from_code(c.spec_code()) == Some(c),
{
}

// ---------------------------------------------------------------------------
// Status words
// ---------------------------------------------------------------------------

/// The 32-bit two's-complement word that carries a status code.
pub open spec fn status_word(s: i32) -> u32 {
    if s >= 0 {
        s as u32
    } else {
        (s + 0x1_0000_0000) as u32
    }
}

/// The status code carried by a 32-bit word.
pub open spec fn word_status(w: u32) -> i32 {
    if w <= 0x7fff_ffff {
        w as i32
    } else {
        (w - 0x1_0000_0000) as i32
    }
}

/// Encodes a status code as a 32-bit two's-complement word.
pub fn encode_status(s: i32) -> (w: u32)
    ensures
        w == status_word(s),
{
    if s >= 0 {
        s as u32
    } else {
        (s as i64 + 0x1_0000_0000i64) as u32
    }
}

/// Decodes the status code carried by a 32-bit word.
pub fn decode_status(w: u32) -> (s: i32)
    ensures
        s == word_status(w),
{
    if w <= 0x7fff_ffff {
        w as i32
    } else {
        (w as i64 - 0x1_0000_0000i64) as i32
    }
}

/// A status code survives the trip through its 32-bit word.
pub proof fn lemma_status_word_roundtrip(s: i32)
    ensures
        word_status(status_word(s)) == s,
{
}

// ---------------------------------------------------------------------------
// Header
// ---------------------------------------------------------------------------

/// The 16-byte header that starts every frame.
#[derive(Clone, Copy, Debug, PartialEq, Eq, Structural)]
pub struct Header {
    pub magic: u16,
    pub cmd: u8,
    pub flags: u8,
    pub seq: u16,
    pub reserved: u16,
    pub arg0: u32,
    pub arg1: u32,
}

impl Header {
    /// The header's bytes on the wire.
    pub open spec fn spec_to_bytes(self) -> Seq<u8> {
        le16(self.magic) + seq![self.cmd, self.flags] + le16(self.seq) + le16(self.reserved)
            + le32(self.arg0) + le32(self.arg1)
    }

    /// The header held by the first `HDR_LEN` bytes of `b`.
    pub open spec fn spec_from_bytes(b: Seq<u8>) -> Header {
        Header {
            magic: u16_from_le(b[0], b[1]),
            cmd: b[2],
            flags: b[3],
            seq: u16_from_le(b[4], b[5]),
            reserved: u16_from_le(b[6], b[7]),
            arg0: u32_from_le(b[8], b[9], b[10], b[11]),
            arg1: u32_from_le(b[12], b[13], b[14], b[15]),
        }
    }

    /// A header is valid when it carries the magic bytes.
    pub open spec fn spec_is_valid(self) -> bool {
        self.magic == MAGIC
    }

    /// The header of the response to `req` that reports `status`: it echoes
    /// the command and sequence number, sets the response flag, carries the
    /// status in `arg0` and zero elsewhere.
    pub open spec fn spec_response_for(req: Header, status: i32) -> Header {
        Header {
            magic: MAGIC,
            cmd: req.cmd,
            flags: FLAG_RESPONSE,
            seq: req.seq,
            reserved: 0,
            arg0: status_word(status),
            arg1: 0,
        }
    }

    /// A request header for `cmd`.
    pub open spec fn spec_request(cmd: Cmd, seq: u16, reserved: u16, arg0: u32, arg1: u32) -> Header {
        Header { magic: MAGIC, cmd: cmd.spec_code(), flags: 0, seq, reserved, arg0, arg1 }
    }

    /// Builds a request header for `cmd`.
    pub fn request(cmd: Cmd, seq: u16, reserved: u16, arg0: u32, arg1: u32) -> (h: Header)
        ensures
            h == Header::spec_request(cmd, seq, reserved, arg0, arg1),
    {
        Header { magic: MAGIC, cmd: cmd.code(), flags: 0, seq, reserved, arg0, arg1 }
    }

    /// The header's bytes on the wire.
    pub fn to_bytes(&self) -> (b: Vec<u8>)
        ensures
            b@ == self.spec_to_bytes(),
            b@.len() == HDR_LEN,
    {
        let mut b: Vec<u8> = Vec::with_capacity(HDR_LEN);
        push_le16(&mut b, self.magic);
        b.push(self.cmd);
        b.push(self.flags);
        push_le16(&mut b, self.seq);
        push_le16(&mut b, self.reserved);
        push_le32(&mut b, self.arg0);
        push_le32(&mut b, self.arg1);
        assert(b@ =~= self.spec_to_bytes());
        b
    }

    /// Reads the header held by the first `HDR_LEN` bytes of `b`; `None`
    /// exactly when `b` is shorter than a header.
    pub fn from_bytes(b: &[u8]) -> (r: Option<Header>)
        ensures
            b@.len() < HDR_LEN ==> r is None,
            b@.len() >= HDR_LEN ==> r == Some(Header::spec_from_bytes(b@)),
    {
        if b.len() < HDR_LEN {
            return None;
        }
        Some(
            Header {
                magic: read_le16(b, 0),
                cmd: b[2],
                flags: b[3],
                seq: read_le16(b, 4),
                reserved: read_le16(b, 6),
                arg0: read_le32(b, 8),
                arg1: read_le32(b, 12),
            },
        )
    }

    /// Whether the header carries the magic bytes.
    pub fn is_valid(&self) -> (r: bool)
        ensures
            r == self.spec_is_valid(),
    {
        self.magic == MAGIC
    }

    /// The command that the header names, if its code is known.
    pub fn cmd_enum(&self) -> (r: Option<Cmd>)
        ensures
            r == Cmd::spec_from_code(self.cmd),
    {
        Cmd::from_code(self.cmd)
    }

    /// The status code carried by a response header.
    pub fn status(&self) -> (s: i32)
        ensures
            s == word_status(self.arg0),
    {
        decode_status(self.arg0)
    }

    /// The header of the response to `req` that reports `status`.
    pub fn response_for(req: &Header, status: i32) -> (h: Header)
        ensures
            h == Header::spec_response_for(*req, status),
    {
        Header {
            magic: MAGIC,
            cmd: req.cmd,
            flags: FLAG_RESPONSE,
            seq: req.seq,
            reserved: 0,
            arg0: encode_status(status),
            arg1: 0,
        }
    }
}

/// Writing a header out and reading it back gives the same header.
pub proof fn lemma_header_roundtrip(h: Header)
    ensures
        h.spec_to_bytes().len() == HDR_LEN,
        Header::spec_from_bytes(h.spec_to_bytes()) == h,
{
    let b = h.spec_to_bytes();
    lemma_le16_roundtrip(h.magic);
    lemma_le16_roundtrip(h.seq);
    lemma_le16_roundtrip(h.reserved);
    lemma_le32_roundtrip(h.arg0);
    lemma_le32_roundtrip(h.arg1);
    assert(b[0] == le16(h.magic)[0] && b[1] == le16(h.magic)[1]);
    assert(b[4] == le16(h.seq)[0] && b[5] == le16(h.seq)[1]);
    assert(b[6] == le16(h.reserved)[0] && b[7] == le16(h.reserved)[1]);
    assert(b[8] == le32(h.arg0)[0] && b[9] == le32(h.arg0)[1] && b[10] == le32(h.arg0)[2]
        && b[11] == le32(h.arg0)[3]);
    assert(b[12] == le32(h.arg1)[0] && b[13] == le32(h.arg1)[1] && b[14] == le32(h.arg1)[2]
        && b[15] == le32(h.arg1)[3]);
}

/// Reading a header from bytes and writing it out again gives back the
/// header's bytes.
pub proof fn lemma_bytes_roundtrip(b: Seq<u8>)
    requires
        b.len() == HDR_LEN,
    ensures
        Header::spec_from_bytes(b).spec_to_bytes() == b,
{
    lemma_u16_from_le_roundtrip(b[0], b[1]);
    lemma_u16_from_le_roundtrip(b[4], b[5]);
    lemma_u16_from_le_roundtrip(b[6], b[7]);
    lemma_u32_from_le_roundtrip(b[8], b[9], b[10], b[11]);
    lemma_u32_from_le_roundtrip(b[12], b[13], b[14], b[15]);
    assert(Header::spec_from_bytes(b).spec_to_bytes() =~= b);
}

/// A response echoes the command and sequence number of its request, is
/// marked as a response, is valid, and carries the status it reports.
pub proof fn lemma_response_echoes_request(req: Header, status: i32)
    ensures
        Header::spec_response_for(req, status).cmd == req.cmd,
        Header::spec_response_for(req, status).seq == req.seq,
        Header::spec_response_for(req, status).flags == FLAG_RESPONSE,
        Header::spec_response_for(req, status).spec_is_valid(),
        word_status(Header::spec_response_for(req, status).arg0) == status,
{
}

// ---------------------------------------------------------------------------
// CRC-32
// ---------------------------------------------------------------------------

/// One bit step of the reflected CRC-32 register.
pub open spec fn crc32_bit(c: u32) -> u32 {
    if c & 1 == 1 {
        (c >> 1u32) ^ CRC32_POLY
    } else {
        c >> 1u32
    }
}

/// The CRC-32 register after feeding it one byte.
pub open spec fn crc32_byte(c: u32, b: u8) -> u32 {
    crc32_bit(
        crc32_bit(
            crc32_bit(crc32_bit(crc32_bit(crc32_bit(crc32_bit(crc32_bit(c ^ (b as u32))))))),
        ),
    )
}

/// The CRC-32 register after feeding it `data`, starting from all ones.
pub open spec fn crc32_register(data: Seq<u8>) -> u32
    decreases data.len(),
{
    if data.len() == 0 {
        0xFFFF_FFFF
    } else {
        crc32_byte(crc32_register(data.drop_last()), data.last())
    }
}

/// The CRC-32 (IEEE 802.3) of `data`: the final register, inverted.
pub open spec fn spec_crc32(data: Seq<u8>) -> u32 {
    crc32_register(data) ^ 0xFFFF_FFFF
}

fn crc32_step(c: u32) -> (r: u32)
    ensures
        r == crc32_bit(c),
{
    if c & 1 == 1 {
        (c >> 1u32) ^ CRC32_POLY
    } else {
        c >> 1u32
    }
}

/// Feeds one byte to the CRC-32 register.
pub fn crc32_update(c: u32, b: u8) -> (r: u32)
    ensures
        r == crc32_byte(c, b),
{
    let mut x = c ^ (b as u32);
    x = crc32_step(x);
    x = crc32_step(x);
    x = crc32_step(x);
    x = crc32_step(x);
    x = crc32_step(x);
    x = crc32_step(x);
    x = crc32_step(x);
    crc32_step(x)
}

/// The CRC-32 (IEEE 802.3) of the first `n` bytes of `data`.
pub fn crc32_prefix(data: &[u8], n: usize) -> (r: u32)
    requires
        n <= data@.len(),
    ensures
        r == spec_crc32(data@.take(n as int)),
{
    let mut c: u32 = 0xFFFF_FFFF;
    let mut i: usize = 0;
    while i < n
        invariant
            i <= n <= data@.len(),
            c == crc32_register(data@.take(i as int)),
        decreases n - i,
    {
        assert(data@.take(i + 1).drop_last() =~= data@.take(i as int));
        c = crc32_update(c, data[i]);
        i += 1;
    }
    c ^ 0xFFFF_FFFF
}

/// The CRC-32 (IEEE 802.3) of `data`, as it guards block payloads on the link.
pub fn spi_crc32(data: &[u8]) -> (r: u32)
    ensures
        r == spec_crc32(data@),
{
    assert(data@.take(data@.len() as int) =~= data@);
    crc32_prefix(data, data.len())
}

// ---------------------------------------------------------------------------
// Capacity payload
// ---------------------------------------------------------------------------

/// The capacity payload: block size then block count, little-endian.
pub open spec fn spec_capacity_payload(block_size: u32, block_count: u32) -> Seq<u8> {
    le32(block_size) + le32(block_count)
}

/// Encodes the capacity payload of a `GetCapacity` response.
pub fn encode_capacity(block_size: u32, block_count: u32) -> (b: Vec<u8>)
    ensures
        b@ == spec_capacity_payload(block_size, block_count),
        b@.len() == 8,
{
    let mut b: Vec<u8> = Vec::with_capacity(8);
    push_le32(&mut b, block_size);
    push_le32(&mut b, block_count);
    b
}

/// Decodes a capacity payload; `None` exactly when it is not 8 bytes long.
pub fn decode_capacity(b: &[u8]) -> (r: Option<(u32, u32)>)
    ensures
        b@.len() != 8 ==> r is None,
        b@.len() == 8 ==> r == Some(
            (u32_from_le(b@[0], b@[1], b@[2], b@[3]), u32_from_le(b@[4], b@[5], b@[6], b@[7])),
        ),
{
    if b.len() != 8 {
        return None;
    }
    Some((read_le32(b, 0), read_le32(b, 4)))
}

/// Decoding an encoded capacity gives the block size and block count back.
pub proof fn lemma_capacity_roundtrip(block_size: u32, block_count: u32)
    ensures
        ({
            let p = spec_capacity_payload(block_size, block_count);
            &&& p.len() == 8
            &&& u32_from_le(p[0], p[1], p[2], p[3]) == block_size
            &&& u32_from_le(p[4], p[5], p[6], p[7]) == block_count
        }),
{
    lemma_le32_roundtrip(block_size);
    lemma_le32_roundtrip(block_count);
}


/// A byte enters the CRC-32 register as its zero-extended value: feeding
/// byte `b` to register `c` is the same as feeding a zero byte to the
/// register `c ^ b`, for every register and every byte (bytes of 0x80 and
/// above included).
pub proof fn lemma_crc32_byte_zero_extends(c: u32, b: u8)
    ensures
        crc32_byte(c, b) == crc32_byte(c ^ (b as u32), 0),
{
    assert((c ^ (b as u32)) ^ (0u8 as u32) == c ^ (b as u32)) by (bit_vector);
}

/// The CRC-32 of the single byte 0x80 is 0x3FBA6CAD, as IEEE 802.3 (and
/// zlib) define it.
pub proof fn lemma_crc32_high_byte_check_value()
    ensures
        spec_crc32(seq![0x80u8]) == 0x3FBA_6CADu32,
{
    let s = seq![0x80u8];
    assert(s.drop_last() =~= Seq::<u8>::empty());
    assert(crc32_register(Seq::<u8>::empty()) == 0xFFFF_FFFFu32);
    assert(s.last() == 0x80u8);
    assert(crc32_register(s) == crc32_byte(0xFFFF_FFFFu32, 0x80u8));
    assert(crc32_byte(0xFFFF_FFFFu32, 0x80u8) ^ 0xFFFF_FFFFu32 == 0x3FBA_6CADu32) by (bit_vector);
}

} // verus!
