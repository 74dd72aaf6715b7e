//! The 48-byte NTP header: decoding, the client request, and time conversion.
use vstd::prelude::*;

use crate::fields::{lemma_li_round_trip, lemma_mode_round_trip, LI, Mode, Stratum};

verus! {

/// Length in bytes of the fixed NTP header.
pub const HEADER_LEN: usize = 48;

/// Seconds from 1900-01-01 (the NTP epoch) to 1970-01-01 (the Unix epoch).
pub const UNIX_OFFSET: u32 = 2_208_988_800;

/// The unsigned integer that the four bytes of `s` from index `i` spell, most
/// significant first.
pub open spec fn be_u32(s: Seq<u8>, i: int) -> u32 {
    (s[i] as int * 0x100_0000 + s[i + 1] as int * 0x1_0000 + s[i + 2] as int * 0x100 + s[i
        + 3] as int) as u32
}

/// The 64-bit timestamp that the eight bytes of `s` from index `i` spell:
/// 32 bits of seconds, then 32 bits of fraction.
pub open spec fn be_u64(s: Seq<u8>, i: int) -> u64 {
    (be_u32(s, i) as int * 0x1_0000_0000 + be_u32(s, i + 4) as int) as u64
}

proof fn lemma_be_u32_bits(b0: u8, b1: u8, b2: u8, b3: u8)
    ensures
        ((b0 as u32) << 24u32) | ((b1 as u32) << 16u32) | ((b2 as u32) << 8u32) | (b3 as u32)
            == b0 as int * 0x100_0000 + b1 as int * 0x1_0000 + b2 as int * 0x100 + b3 as int,
{
    assert(((b0 as u32) << 24u32) | ((b1 as u32) << 16u32) | ((b2 as u32) << 8u32) | (b3 as u32)
        == (b0 as u32) * 0x100_0000u32 + (b1 as u32) * 0x1_0000u32 + (b2 as u32) * 0x100u32 + (
    b3 as u32)) by (bit_vector);
}

proof fn lemma_be_u64_bits(hi: u32, lo: u32)
    ensures
        ((hi as u64) << 32u64) | (lo as u64) == hi as int * 0x1_0000_0000 + lo as int,
{
    assert(((hi as u64) << 32u64) | (lo as u64) == (hi as u64) * 0x1_0000_0000u64 + (lo as u64))
        by (bit_vector);
}

/// Reads the four bytes at `*cursor` as a big-endian integer and moves the
/// cursor past them.
pub fn combine_u8s(buf: &[u8], cursor: &mut usize) -> (r: u32)
    requires
        *old(cursor) + 4 <= buf@.len(),
    ensures
        r == be_u32(buf@, *old(cursor) as int),
        *final(cursor) == *old(cursor) + 4,
{
    let i = *cursor;
    let b0 = buf[i];
    let b1 = buf[i + 1];
    let b2 = buf[i + 2];
    let b3 = buf[i + 3];
    proof {
        lemma_be_u32_bits(b0, b1, b2, b3);
    }
    *cursor = i + 4;
    ((b0 as u32) << 24u32) | ((b1 as u32) << 16u32) | ((b2 as u32) << 8u32) | (b3 as u32)
}

/// Reads two big-endian 32-bit halves at `*cursor` as one 64-bit timestamp and
/// moves the cursor past them.
fn combine_timestamp(buf: &[u8], cursor: &mut usize) -> (r: u64)
    requires
        *old(cursor) + 8 <= buf@.len(),
    ensures
        r == be_u64(buf@, *old(cursor) as int),
        *final(cursor) == *old(cursor) + 8,
{
    let hi = combine_u8s(buf, cursor);
    let lo = combine_u8s(buf, cursor);
    proof {
        lemma_be_u64_bits(hi, lo);
    }
    ((hi as u64) << 32u64) | (lo as u64)
}

/// A decoded NTP header.
#[derive(PartialEq, Eq, Structural, Debug, Clone, Copy)]
pub struct PacketHeaders {
    /// how a leap second will be handled at the end of the day
    pub li: LI,
    /// protocol version number (3 bits)
    pub vn: u8,
    /// association mode; 3 for a client
    pub mode: Mode,
    /// category of the server's distance from a reference clock
    pub stratum: Stratum,
    /// maximum interval between successive messages, in log2 seconds;
    /// suggested bounds are 6 and 10
    pub poll: i8,
    /// precision of the system clock, in log2 seconds
    pub precision: i8,
    /// round-trip delay to the reference clock, in NTP short format (16.16)
    pub root_delay: u32,
    /// total dispersion to the reference clock, in NTP short format (16.16)
    pub root_dispersion: u32,
    /// reference identifier; its meaning depends on the stratum
    pub ref_id: u32,
    /// time when the system clock was last set or corrected
    pub ref_time: u64,
    /// time at the client when the request departed for the server
    pub origin_time: u64,
    /// time at the server when the request arrived from the client
    pub rx_time: u64,
    /// seconds of the time at the server when the response left for the client
    pub tx_time_seconds: u32,
    /// fraction of a second of the same time
    pub tx_time_fraction: u32,
    /// time at the client when the reply arrived; not on the wire, set by the
    /// receiver
    pub dst_time: u64,
    /// key identifier of an authenticated packet; always 0 here
    pub key_id: u32,
    /// message digest of an authenticated packet; always 0 here
    pub msg_dgst: u128,
}

impl PacketHeaders {
    /// The Unix time (seconds since 1970-01-01) at which the response left the
    /// server; the transmit time must not precede the Unix epoch.
    pub fn get_unix_timestamp(self) -> (r: u32)
        requires
            self.tx_time_seconds >= UNIX_OFFSET,
        ensures
            r == self.tx_time_seconds - UNIX_OFFSET,
    {
        self.tx_time_seconds - UNIX_OFFSET
    }

    /// The Unix time at which the response left the server, or `None` where
    /// the transmit time precedes the Unix epoch.
    pub fn checked_unix_timestamp(&self) -> (r: Option<u32>)
        ensures
            self.tx_time_seconds >= UNIX_OFFSET ==> r == Some(
                (self.tx_time_seconds - UNIX_OFFSET) as u32,
            ),
            self.tx_time_seconds < UNIX_OFFSET ==> r is None,
    {
        if self.tx_time_seconds >= UNIX_OFFSET {
            Some(self.tx_time_seconds - UNIX_OFFSET)
        } else {
            None
        }
    }
}

/// An optional field that follows the fixed header.
#[derive(PartialEq, Debug)]
pub struct ExtensionField<'a> {
    pub data_type: u16,
    pub data_length: u16,
    pub data: &'a u8,
}

/// A server's response: the header and up to two extension fields.
#[derive(PartialEq, Debug)]
pub struct NtpServerResponse<'a> {
    pub headers: PacketHeaders,
    pub extension_fields: Option<[ExtensionField<'a>; 2]>,
}

/// Why a buffer could not be decoded.
#[derive(PartialEq, Eq, Structural, Debug, Clone, Copy)]
pub enum DecodeError {
    /// the buffer holds fewer than 48 bytes
    TruncatedPacket,
}

/// The header that the first 48 bytes of `s` encode.
pub open spec fn headers_of(s: Seq<u8>) -> PacketHeaders
    recommends
        s.len() >= 48,
{
    PacketHeaders {
        li: LI::spec_from((s[0] >> 6u8) & 3u8),
        vn: (s[0] >> 3u8) & 7u8,
        mode: Mode::spec_from(s[0] & 7u8),
        stratum: Stratum::spec_from(s[1]),
        poll: s[2] as i8,
        precision: s[3] as i8,
        root_delay: be_u32(s, 4),
        root_dispersion: be_u32(s, 8),
        ref_id: be_u32(s, 12),
        ref_time: be_u64(s, 16),
        origin_time: be_u64(s, 24),
        rx_time: be_u64(s, 32),
        tx_time_seconds: be_u32(s, 40),
        tx_time_fraction: be_u32(s, 44),
        dst_time: 0,
        key_id: 0,
        msg_dgst: 0,
    }
}

/// Decodes the header from the first 48 bytes of `buf`.
fn read_headers(buf: &[u8]) -> (r: PacketHeaders)
    requires
        buf@.len() >= HEADER_LEN,
    ensures
        r == headers_of(buf@),
{
    let li_vn_mode = buf[0];
    assert((li_vn_mode >> 6u8) & 3u8 < 4u8) by (bit_vector);
    assert(li_vn_mode & 7u8 < 8u8) by (bit_vector);
    let li = LI::from((li_vn_mode >> 6u8) & 3u8);
    let vn = (li_vn_mode >> 3u8) & 7u8;
    let mode = Mode::from(li_vn_mode & 7u8);
    let stratum = Stratum::from(buf[1]);
    let poll = buf[2] as i8;
    let precision = buf[3] as i8;
    let mut cursor: usize = 4;
    let root_delay = combine_u8s(buf, &mut cursor);
    let root_dispersion = combine_u8s(buf, &mut cursor);
    let ref_id = combine_u8s(buf, &mut cursor);
    let ref_time = combine_timestamp(buf, &mut cursor);
    let origin_time = combine_timestamp(buf, &mut cursor);
    let rx_time = combine_timestamp(buf, &mut cursor);
    let tx_time_seconds = combine_u8s(buf, &mut cursor);
    let tx_time_fraction = combine_u8s(buf, &mut cursor);
    PacketHeaders {
        li,
        vn,
        mode,
        stratum,
        poll,
        precision,
        root_delay,
        root_dispersion,
        ref_id,
        ref_time,
        origin_time,
        rx_time,
        tx_time_seconds,
        tx_time_fraction,
        dst_time: 0,
        key_id: 0,
        msg_dgst: 0,
    }
}

impl<'a> NtpServerResponse<'a> {
    /// Decodes a server response from `buf`; bytes after the first 48 are
    /// ignored, and a shorter buffer is refused.
    pub fn decode(buf: &[u8]) -> (r: Result<NtpServerResponse<'a>, DecodeError>)
        ensures
            buf@.len() >= 48 ==> r == Ok::<NtpServerResponse<'a>, DecodeError>(
                NtpServerResponse { headers: headers_of(buf@), extension_fields: None },
            ),
            buf@.len() < 48 ==> r == Err::<NtpServerResponse<'a>, DecodeError>(
                DecodeError::TruncatedPacket,
            ),
    {
        if buf.len() < HEADER_LEN {
            Err(DecodeError::TruncatedPacket)
        } else {
            Ok(NtpServerResponse { headers: read_headers(buf), extension_fields: None })
        }
    }
}

impl<'a, 'b> From<&'b [u8; 48]> for NtpServerResponse<'a> {
    fn from(value: &'b [u8; 48]) -> (r: NtpServerResponse<'a>) {
        NtpServerResponse { headers: read_headers(value.as_slice()), extension_fields: None }
    }
}

impl<'a, 'b> vstd::std_specs::convert::FromSpecImpl<&'b [u8; 48]> for NtpServerResponse<'a> {
    open spec fn obeys_from_spec() -> bool {
        true
    }

    open spec fn from_spec(v: &'b [u8; 48]) -> NtpServerResponse<'a> {
        NtpServerResponse { headers: headers_of(v@), extension_fields: None }
    }
}

/// The first byte of a client request: no leap warning, version 4, client
/// mode.
pub const CLIENT_LI_VN_MODE: u8 = 0b0010_0011;

/// The bytes of a client request: the first byte set, all others zero.
pub open spec fn client_request_spec() -> Seq<u8> {
    Seq::new(48, |i: int| if i == 0 { CLIENT_LI_VN_MODE } else { 0u8 })
}

/// Builds the 48-byte request that a client sends to a server.
pub fn get_client_request() -> (r: [u8; 48])
    ensures
        r@ == client_request_spec(),
{
    let mut buff = [0u8; 48];
    buff[0] = CLIENT_LI_VN_MODE;
    assert(buff@ =~= client_request_spec());
    buff
}

/// The first byte of a header: leap indicator, version and mode, packed.
pub open spec fn li_vn_mode_of(h: PacketHeaders) -> u8 {
    (h.li.spec_bits() << 6u8) | (h.vn << 3u8) | h.mode.spec_bits()
}

/// Packing the leap indicator, version and mode that were decoded from a
/// buffer gives back its first byte, bit for bit.
pub proof fn lemma_li_vn_mode_round_trip(s: Seq<u8>)
    requires
        s.len() >= 48,
    ensures
        li_vn_mode_of(headers_of(s)) == s[0],
{
    let b = s[0];
    assert((b >> 6u8) & 3u8 < 4u8) by (bit_vector);
    assert(b & 7u8 < 8u8) by (bit_vector);
    lemma_li_round_trip((b >> 6u8) & 3u8, LI::NoLeap);
    lemma_mode_round_trip(b & 7u8, Mode::Reserved);
    assert((((b >> 6u8) & 3u8) << 6u8) | (((b >> 3u8) & 7u8) << 3u8) | (b & 7u8) == b)
        by (bit_vector);
}

/// A client request has the first byte 0b0010_0011 and a zero origin field,
/// and it decodes to no leap warning, version 4, client mode, and a zero
/// reference identifier.
pub proof fn lemma_client_request_decodes()
    ensures
        client_request_spec()[0] == 0b0010_0011u8,
        client_request_spec()[12] == 0u8,
        client_request_spec()[13] == 0u8,
        client_request_spec()[14] == 0u8,
        client_request_spec()[15] == 0u8,
        headers_of(client_request_spec()).li == LI::NoLeap,
        headers_of(client_request_spec()).vn == 4,
        headers_of(client_request_spec()).mode == Mode::Client,
        headers_of(client_request_spec()).ref_id == 0,
{
    let b = CLIENT_LI_VN_MODE;
    assert((b >> 6u8) & 3u8 == 0u8) by (bit_vector)
        requires
            b == 0b0010_0011u8,
    ;
    assert((b >> 3u8) & 7u8 == 4u8) by (bit_vector)
        requires
            b == 0b0010_0011u8,
    ;
    assert(b & 7u8 == 3u8) by (bit_vector)
        requires
            b == 0b0010_0011u8,
    ;
}

} // verus!
