//! CCSDS Space Packet codec: bit-exact primary header framing, optional
//! secondary header, payload, and CRC-16-CCITT error control.

use vstd::prelude::*;
use crate::error::SpaceCommError;
use crate::types::PacketId;

verus! {

/// Maximum bytes of a packet data field payload.
pub const MAX_PACKET_DATA: usize = 2048;
/// Maximum bytes of mission data in a secondary header.
pub const MAX_MISSION_DATA: usize = 64;

/// CCSDS packet types.
#[derive(Debug, Clone, Copy, PartialEq, Eq, Structural)]
pub enum PacketType {
    /// Telemetry packet, spacecraft to ground.
    Telemetry,
    /// Command packet, ground to spacecraft.
    Command,
}

impl PacketType {
    /// The packet type bit of the primary header.
    pub open spec fn bit(self) -> u16 {
        match self {
            PacketType::Telemetry => 0u16,
            PacketType::Command => 1u16,
        }
    }
}

/// CCSDS sequence flags.
#[derive(Debug, Clone, Copy, PartialEq, Eq, Structural)]
pub enum SequenceFlags {
    /// Continuation segment, neither first nor last.
    Continuation,
    /// First segment of multi-packet data.
    FirstSegment,
    /// Last segment of multi-packet data.
    LastSegment,
    /// Complete data in a single packet.
    Unsegmented,
}

impl SequenceFlags {
    /// The two sequence flag bits of the primary header.
    pub open spec fn bits(self) -> u16 {
        match self {
            SequenceFlags::Continuation => 0u16,
            SequenceFlags::FirstSegment => 1u16,
            SequenceFlags::LastSegment => 2u16,
            SequenceFlags::Unsegmented => 3u16,
        }
    }
}

/// CCSDS Space Packet primary header, 6 bytes on the wire.
#[derive(Debug, Clone, Copy, PartialEq, Eq, Structural)]
pub struct SpacePacketHeader {
    /// Packet version number, 3 bits, always 0 for CCSDS.
    pub version: u8,
    /// Packet type bit.
    pub packet_type: PacketType,
    /// Whether a secondary header follows the primary header.
    pub secondary_header_flag: bool,
    /// Application process identifier, 11 bits.
    pub apid: u16,
    /// Sequence flags, 2 bits.
    pub sequence_flags: SequenceFlags,
    /// Packet sequence count, 14 bits.
    pub sequence_count: u16,
    /// Length of the packet data field minus one.
    pub data_length: u16,
}

impl SpacePacketHeader {
    /// The header invariant: every field fits its wire width.
    pub open spec fn well_formed(self) -> bool {
        &&& self.version < 8
        &&& self.apid <= 0x7FF
        &&& self.sequence_count <= 0x3FFF
    }

    /// The six wire bytes of the header, big-endian.
    pub open spec fn spec_bytes(self) -> Seq<u8> {
        seq![
            (self.version * 32 + self.packet_type.bit() * 16
                + (if self.secondary_header_flag { 8int } else { 0int })
                + self.apid / 256) as u8,
            (self.apid % 256) as u8,
            (self.sequence_flags.bits() * 64 + self.sequence_count / 256) as u8,
            (self.sequence_count % 256) as u8,
            (self.data_length / 256) as u8,
            (self.data_length % 256) as u8,
        ]
    }

    /// Create a new header with `Unsegmented` flags and version 0.
    /// Succeeds exactly when the APID fits 11 bits and the sequence count
    /// fits 14 bits.
    pub fn new(
        packet_type: PacketType,
        apid: u16,
        sequence_count: u16,
        data_length: u16,
        has_secondary_header: bool,
    ) -> (r: Result<Self, SpaceCommError>)
        ensures
            r is Ok <==> apid <= 0x7FF && sequence_count <= 0x3FFF,
            r matches Ok(h) ==> h == (SpacePacketHeader {
                version: 0u8,
                packet_type,
                secondary_header_flag: has_secondary_header,
                apid,
                sequence_flags: SequenceFlags::Unsegmented,
                sequence_count,
                data_length,
            }),
            apid > 0x7FF ==> r == Err::<Self, SpaceCommError>(SpaceCommError::InvalidPacket {
                reason: "APID exceeds 11-bit maximum",
                packet_id: None,
            }),
            apid <= 0x7FF && sequence_count > 0x3FFF ==> r == Err::<Self, SpaceCommError>(
                SpaceCommError::InvalidPacket {
                    reason: "Sequence count exceeds 14-bit maximum",
                    packet_id: None,
                },
            ),
    {
        if apid > 0x7FF {
            return Err(SpaceCommError::invalid_packet("APID exceeds 11-bit maximum", None));
        }
        if sequence_count > 0x3FFF {
            return Err(SpaceCommError::invalid_packet(
                "Sequence count exceeds 14-bit maximum",
                None,
            ));
        }
        Ok(Self {
            version: 0,
            packet_type,
            secondary_header_flag: has_secondary_header,
            apid,
            sequence_flags: SequenceFlags::Unsegmented,
            sequence_count,
            data_length,
        })
    }

    /// Serialize the header to its six wire bytes, big-endian.
    pub fn to_bytes(&self) -> (r: Vec<u8>)
        requires
            self.well_formed(),
        ensures
            r@ =~= self.spec_bytes(),
    {
        let type_bit: u16 = match self.packet_type {
            PacketType::Telemetry => 0,
            PacketType::Command => 1,
        };
        let sec_bit: u16 = if self.secondary_header_flag { 1 } else { 0 };
        let flag_bits: u16 = match self.sequence_flags {
            SequenceFlags::Continuation => 0,
            SequenceFlags::FirstSegment => 1,
            SequenceFlags::LastSegment => 2,
            SequenceFlags::Unsegmented => 3,
        };
        let b0: u8 = ((self.version as u16) * 32 + type_bit * 16 + sec_bit * 8
            + self.apid / 256) as u8;
        let b1: u8 = (self.apid % 256) as u8;
        let b2: u8 = (flag_bits * 64 + self.sequence_count / 256) as u8;
        let b3: u8 = (self.sequence_count % 256) as u8;
        let b4: u8 = (self.data_length / 256) as u8;
        let b5: u8 = (self.data_length % 256) as u8;
        let mut r: Vec<u8> = Vec::new();
        r.push(b0);
        r.push(b1);
        r.push(b2);
        r.push(b3);
        r.push(b4);
        r.push(b5);
        r
    }

    /// The header encoded in the first six bytes of `s`, as the wire
    /// carries it.
    pub open spec fn parse(s: Seq<u8>) -> SpacePacketHeader {
        let w0 = s[0] * 256 + s[1];
        let w1 = s[2] * 256 + s[3];
        SpacePacketHeader {
            version: (w0 / 8192) as u8,
            packet_type: if (w0 / 4096) % 2 == 0 { PacketType::Telemetry } else {
                PacketType::Command
            },
            secondary_header_flag: (w0 / 2048) % 2 == 1,
            apid: (w0 % 2048) as u16,
            sequence_flags: {
                let f = (w1 / 16384) % 4;
                if f == 0 {
                    SequenceFlags::Continuation
                } else if f == 1 {
                    SequenceFlags::FirstSegment
                } else if f == 2 {
                    SequenceFlags::LastSegment
                } else {
                    SequenceFlags::Unsegmented
                }
            },
            sequence_count: (w1 % 16384) as u16,
            data_length: (s[4] * 256 + s[5]) as u16,
        }
    }

    /// Deserialize a header from wire bytes. Succeeds exactly when at
    /// least six bytes are present and the encoded version number is 0.
    pub fn from_bytes(bytes: &[u8]) -> (r: Result<Self, SpaceCommError>)
        ensures
            r is Ok <==> bytes@.len() >= 6 && Self::parse(bytes@).version == 0,
            r matches Ok(h) ==> h == Self::parse(bytes@) && h.well_formed(),
            bytes@.len() < 6 ==> r == Err::<Self, SpaceCommError>(SpaceCommError::InvalidPacket {
                reason: "Insufficient bytes for CCSDS header",
                packet_id: None,
            }),
            bytes@.len() >= 6 && Self::parse(bytes@).version != 0 ==> r == Err::<
                Self,
                SpaceCommError,
            >(SpaceCommError::InvalidPacket {
                reason: "Invalid CCSDS version number",
                packet_id: None,
            }),
    {
        if bytes.len() < 6 {
            return Err(SpaceCommError::invalid_packet(
                "Insufficient bytes for CCSDS header",
                None,
            ));
        }
        let w0: u16 = (bytes[0] as u16) * 256 + (bytes[1] as u16);
        let w1: u16 = (bytes[2] as u16) * 256 + (bytes[3] as u16);
        let version: u8 = (w0 / 8192) as u8;
        let packet_type = if (w0 / 4096) % 2 == 0 {
            PacketType::Telemetry
        } else {
            PacketType::Command
        };
        let secondary_header_flag: bool = (w0 / 2048) % 2 == 1;
        let apid: u16 = w0 % 2048;
        let f: u16 = (w1 / 16384) % 4;
        let sequence_flags = if f == 0 {
            SequenceFlags::Continuation
        } else if f == 1 {
            SequenceFlags::FirstSegment
        } else if f == 2 {
            SequenceFlags::LastSegment
        } else {
            SequenceFlags::Unsegmented
        };
        let sequence_count: u16 = w1 % 16384;
        let data_length: u16 = (bytes[4] as u16) * 256 + (bytes[5] as u16);
        if version != 0 {
            return Err(SpaceCommError::invalid_packet("Invalid CCSDS version number", None));
        }
        Ok(Self {
            version,
            packet_type,
            secondary_header_flag,
            apid,
            sequence_flags,
            sequence_count,
            data_length,
        })
    }

    /// Total packet length on the wire: the six header bytes plus the
    /// declared data field length.
    pub fn total_packet_length(&self) -> (r: usize)
        ensures
            r == 6 + self.data_length + 1,
    {
        6 + self.data_length as usize + 1
    }
}

/// Encoding a well-formed header and parsing the bytes back yields the
/// same header: the primary header wire format is a bijection on its
/// 48 bits.
pub proof fn lemma_header_round_trip(h: SpacePacketHeader)
    requires
        h.well_formed(),
    ensures
        SpacePacketHeader::parse(h.spec_bytes()) == h,
{
    let s = h.spec_bytes();
    let tb = h.packet_type.bit();
    let sb: int = if h.secondary_header_flag { 1 } else { 0 };
    let fb = h.sequence_flags.bits();
    assert(s[0] == (h.version * 32 + tb * 16 + sb * 8 + h.apid / 256) as u8);
    assert(h.version * 32 + tb * 16 + sb * 8 + h.apid / 256 < 256);
    let w0 = s[0] * 256 + s[1];
    assert(w0 == h.version * 8192 + tb * 4096 + sb * 2048 + h.apid);
    assert(w0 / 8192 == h.version) by (nonlinear_arith)
        requires
            w0 == h.version * 8192 + tb * 4096 + sb * 2048 + h.apid,
            h.version < 8,
            tb < 2,
            0 <= sb < 2,
            h.apid <= 0x7FF,
    ;
    assert((w0 / 4096) % 2 == tb) by (nonlinear_arith)
        requires
            w0 == h.version * 8192 + tb * 4096 + sb * 2048 + h.apid,
            h.version < 8,
            tb < 2,
            0 <= sb < 2,
            h.apid <= 0x7FF,
    ;
    assert((w0 / 2048) % 2 == sb) by (nonlinear_arith)
        requires
            w0 == h.version * 8192 + tb * 4096 + sb * 2048 + h.apid,
            h.version < 8,
            tb < 2,
            0 <= sb < 2,
            h.apid <= 0x7FF,
    ;
    assert(w0 % 2048 == h.apid) by (nonlinear_arith)
        requires
            w0 == h.version * 8192 + tb * 4096 + sb * 2048 + h.apid,
            h.version < 8,
            tb < 2,
            0 <= sb < 2,
            h.apid <= 0x7FF,
    ;
    let w1 = s[2] * 256 + s[3];
    assert(w1 == fb * 16384 + h.sequence_count);
    assert((w1 / 16384) % 4 == fb && w1 % 16384 == h.sequence_count) by (nonlinear_arith)
        requires
            w1 == fb * 16384 + h.sequence_count,
            fb < 4,
            h.sequence_count <= 0x3FFF,
    ;
    assert(s[4] * 256 + s[5] == h.data_length);
    let p = SpacePacketHeader::parse(s);
    assert(p.packet_type == h.packet_type);
    assert(p.sequence_flags == h.sequence_flags);
}

/// One CRC-16-CCITT shift: shift left one bit and, if the high bit was
/// set, fold in the polynomial 0x1021.
pub open spec fn crc_shift(crc: u16) -> u16 {
    if crc & 0x8000 != 0 {
        (crc << 1) ^ 0x1021
    } else {
        crc << 1
    }
}

/// `k` successive CRC shifts.
pub open spec fn crc_shifts(crc: u16, k: nat) -> u16
    decreases k,
{
    if k == 0 {
        crc
    } else {
        crc_shift(crc_shifts(crc, (k - 1) as nat))
    }
}

/// Feed one byte into the CRC-16-CCITT register.
pub open spec fn crc_step(crc: u16, byte: u8) -> u16 {
    crc_shifts(crc ^ ((byte as u16) << 8), 8)
}

/// CRC-16-CCITT of a byte sequence starting from `init`: polynomial
/// 0x1021, no reflection, no final XOR.
pub open spec fn crc16_spec(init: u16, s: Seq<u8>) -> u16
    decreases s.len(),
{
    if s.len() == 0 {
        init
    } else {
        crc_step(crc16_spec(init, s.drop_last()), s.last())
    }
}

/// Feeding a concatenation into the CRC equals feeding the parts in turn.
pub proof fn lemma_crc16_append(init: u16, a: Seq<u8>, b: Seq<u8>)
    ensures
        crc16_spec(init, a + b) == crc16_spec(crc16_spec(init, a), b),
    decreases b.len(),
{
    if b.len() == 0 {
        assert(a + b =~= a);
    } else {
        lemma_crc16_append(init, a, b.drop_last());
        assert((a + b).drop_last() =~= a + b.drop_last());
        assert((a + b).last() == b.last());
    }
}

/// Compute CRC-16-CCITT over `data` starting from `init`.
pub fn crc16_ccitt(init: u16, data: &[u8]) -> (r: u16)
    ensures
        r == crc16_spec(init, data@),
{
    let mut crc: u16 = init;
    let mut i: usize = 0;
    while i < data.len()
        invariant
            i <= data@.len(),
            crc == crc16_spec(init, data@.subrange(0, i as int)),
        decreases data@.len() - i,
    {
        let byte: u8 = data[i];
        crc = crc ^ ((byte as u16) << 8u16);
        let mut k: usize = 0;
        while k < 8
            invariant
                k <= 8,
                crc == crc_shifts(crc16_spec(init, data@.subrange(0, i as int)) ^ ((byte as u16)
                    << 8), k as nat),
            decreases 8 - k,
        {
            if crc & 0x8000 != 0 {
                crc = (crc << 1u16) ^ 0x1021;
            } else {
                crc = crc << 1u16;
            }
            k = k + 1;
        }
        assert(data@.subrange(0, i + 1).drop_last() =~= data@.subrange(0, i as int));
        assert(data@.subrange(0, i + 1).last() == data@[i as int]);
        i = i + 1;
    }
    assert(data@.subrange(0, data@.len() as int) =~= data@);
    crc
}

/// The eight big-endian bytes of a 64-bit value.
pub open spec fn be8(x: u64) -> Seq<u8> {
    seq![
        (x >> 56) as u8,
        (x >> 48) as u8,
        (x >> 40) as u8,
        (x >> 32) as u8,
        (x >> 24) as u8,
        (x >> 16) as u8,
        (x >> 8) as u8,
        x as u8,
    ]
}

/// The 64-bit value carried by eight big-endian bytes.
pub open spec fn u64_from_be(s: Seq<u8>) -> u64 {
    ((s[0] as u64) << 56) | ((s[1] as u64) << 48) | ((s[2] as u64) << 40) | ((s[3] as u64) << 32)
        | ((s[4] as u64) << 24) | ((s[5] as u64) << 16) | ((s[6] as u64) << 8) | (s[7] as u64)
}

/// The two big-endian bytes of a 16-bit value.
pub open spec fn be2(x: u16) -> Seq<u8> {
    seq![(x / 256) as u8, (x % 256) as u8]
}

/// The four big-endian bytes of a 32-bit value.
pub open spec fn be4(x: u32) -> Seq<u8> {
    seq![
        (x / 0x1000000) as u8,
        ((x / 0x10000) % 256) as u8,
        ((x / 256) % 256) as u8,
        (x % 256) as u8,
    ]
}

/// Append the four big-endian bytes of `x` to `v`.
pub fn push_u32_be(v: &mut Vec<u8>, x: u32)
    ensures
        final(v)@ =~= old(v)@ + be4(x),
{
    v.push((x / 0x1000000) as u8);
    v.push(((x / 0x10000) % 256) as u8);
    v.push(((x / 256) % 256) as u8);
    v.push((x % 256) as u8);
}

/// Append the two big-endian bytes of `x` to `v`.
pub fn push_u16_be(v: &mut Vec<u8>, x: u16)
    ensures
        final(v)@ =~= old(v)@ + be2(x),
{
    v.push((x / 256) as u8);
    v.push((x % 256) as u8);
}

/// Reassembling the big-endian bytes of a 64-bit value yields the value.
pub proof fn lemma_u64_be_round_trip(x: u64)
    ensures
        u64_from_be(be8(x)) == x,
{
    assert((((x >> 56) as u8 as u64) << 56) | (((x >> 48) as u8 as u64) << 48) | (((x
        >> 40) as u8 as u64) << 40) | (((x >> 32) as u8 as u64) << 32) | (((x
        >> 24) as u8 as u64) << 24) | (((x >> 16) as u8 as u64) << 16) | (((x
        >> 8) as u8 as u64) << 8) | ((x as u8) as u64) == x) by (bit_vector);
}

/// Append the eight big-endian bytes of `x` to `v`.
pub fn push_u64_be(v: &mut Vec<u8>, x: u64)
    ensures
        final(v)@ =~= old(v)@ + be8(x),
{
    v.push(#[verifier::truncate] ((x >> 56u64) as u8));
    v.push(#[verifier::truncate] ((x >> 48u64) as u8));
    v.push(#[verifier::truncate] ((x >> 40u64) as u8));
    v.push(#[verifier::truncate] ((x >> 32u64) as u8));
    v.push(#[verifier::truncate] ((x >> 24u64) as u8));
    v.push(#[verifier::truncate] ((x >> 16u64) as u8));
    v.push(#[verifier::truncate] ((x >> 8u64) as u8));
    v.push(#[verifier::truncate] (x as u8));
}

/// Read the 64-bit big-endian value at `offset`.
pub fn read_u64_be(bytes: &[u8], offset: usize) -> (r: u64)
    requires
        offset + 8 <= bytes@.len(),
    ensures
        r == u64_from_be(bytes@.subrange(offset as int, offset + 8)),
{
    let r: u64 = ((bytes[offset] as u64) << 56u64) | ((bytes[offset + 1] as u64) << 48u64) | ((
    bytes[offset + 2] as u64) << 40u64) | ((bytes[offset + 3] as u64) << 32u64) | ((bytes[offset
        + 4] as u64) << 24u64) | ((bytes[offset + 5] as u64) << 16u64) | ((bytes[offset
        + 6] as u64) << 8u64) | (bytes[offset + 7] as u64);
    proof {
        let s = bytes@.subrange(offset as int, offset + 8);
        assert(s[0] == bytes@[offset as int]);
        assert(s[1] == bytes@[offset + 1]);
        assert(s[2] == bytes@[offset + 2]);
        assert(s[3] == bytes@[offset + 3]);
        assert(s[4] == bytes@[offset + 4]);
        assert(s[5] == bytes@[offset + 5]);
        assert(s[6] == bytes@[offset + 6]);
        assert(s[7] == bytes@[offset + 7]);
    }
    r
}

/// Mission-specific secondary header.
#[derive(Debug, Clone, PartialEq, Eq)]
pub struct SecondaryHeader {
    /// Timestamp, eight big-endian bytes on the wire.
    pub timestamp: u64,
    /// Mission-specific bytes, at most `MAX_MISSION_DATA`.
    pub mission_data: Vec<u8>,
}

impl SecondaryHeader {
    /// The wire bytes of the secondary header.
    pub open spec fn spec_bytes(self) -> Seq<u8> {
        be8(self.timestamp) + self.mission_data@
    }
}

/// A CCSDS Space Packet: primary header, optional secondary header,
/// payload, and optional CRC-16 error control.
#[derive(Debug, Clone, PartialEq, Eq)]
pub struct SpacePacket {
    /// Primary header, always present.
    pub header: SpacePacketHeader,
    /// Optional secondary header; present exactly when the header flag
    /// is set.
    pub secondary_header: Option<SecondaryHeader>,
    /// Packet payload, at most `MAX_PACKET_DATA` bytes.
    pub data: Vec<u8>,
    /// Optional CRC-16-CCITT over header, secondary header and payload.
    pub error_control: Option<u16>,
}

/// The data length field value for a data field of `total` bytes: the
/// length minus one, or zero for an empty field.
pub open spec fn len_field(total: nat) -> u16
    recommends
        total <= 0x10000,
{
    if total == 0 {
        0u16
    } else {
        (total - 1) as u16
    }
}

impl SpacePacket {
    /// Bytes of the secondary header, or none.
    pub open spec fn spec_sec_bytes(self) -> Seq<u8> {
        match self.secondary_header {
            Some(sh) => sh.spec_bytes(),
            None => Seq::empty(),
        }
    }

    /// Bytes of the error control field, or none.
    pub open spec fn spec_crc_bytes(self) -> Seq<u8> {
        match self.error_control {
            Some(c) => be2(c),
            None => Seq::empty(),
        }
    }

    /// The number of bytes in the packet data field: secondary header,
    /// payload and error control together.
    pub open spec fn spec_content_len(self) -> nat {
        self.spec_sec_bytes().len() + self.data@.len() + self.spec_crc_bytes().len()
    }

    /// The packet invariant: the header is well formed, its secondary
    /// header flag matches the presence of the secondary header, the
    /// payload and mission bytes respect their bounds, and the declared
    /// data length describes the data field.
    pub open spec fn well_formed(self) -> bool {
        &&& self.header.well_formed()
        &&& self.header.secondary_header_flag == (self.secondary_header is Some)
        &&& self.data@.len() <= MAX_PACKET_DATA
        &&& (self.secondary_header matches Some(sh) ==> sh.mission_data@.len()
            <= MAX_MISSION_DATA)
        &&& self.header.data_length == len_field(self.spec_content_len())
    }

    /// The bytes the CRC covers: primary header, secondary header and
    /// payload, never the CRC itself.
    pub open spec fn spec_crc_input(self) -> Seq<u8> {
        self.header.spec_bytes() + self.spec_sec_bytes() + self.data@
    }

    /// The CRC-16-CCITT value of this packet.
    pub open spec fn spec_crc(self) -> u16 {
        crc16_spec(0xFFFF, self.spec_crc_input())
    }

    /// The full wire image of the packet.
    pub open spec fn spec_wire_bytes(self) -> Seq<u8> {
        self.header.spec_bytes() + self.spec_sec_bytes() + self.data@ + self.spec_crc_bytes()
    }

    /// Create a new unsegmented packet without error control. Succeeds
    /// exactly when the payload and mission bytes fit their bounds, the
    /// APID fits 11 bits and the sequence count fits 14 bits.
    pub fn new(
        packet_type: PacketType,
        apid: u16,
        sequence_count: u16,
        data: &[u8],
        secondary_header: Option<SecondaryHeader>,
    ) -> (r: Result<Self, SpaceCommError>)
        ensures
            r is Ok <==> data@.len() <= MAX_PACKET_DATA && (secondary_header matches Some(sh)
                ==> sh.mission_data@.len() <= MAX_MISSION_DATA) && apid <= 0x7FF
                && sequence_count <= 0x3FFF,
            r matches Ok(p) ==> {
                &&& p.well_formed()
                &&& p.header.packet_type == packet_type
                &&& p.header.apid == apid
                &&& p.header.sequence_count == sequence_count
                &&& p.header.version == 0
                &&& p.header.sequence_flags == SequenceFlags::Unsegmented
                &&& p.secondary_header == secondary_header
                &&& p.data@ == data@
                &&& p.error_control is None
            },
            data@.len() > MAX_PACKET_DATA ==> r == Err::<Self, SpaceCommError>(
                SpaceCommError::InvalidPacket {
                    reason: "Data exceeds maximum packet size",
                    packet_id: None,
                },
            ),
    {
        if data.len() > MAX_PACKET_DATA {
            return Err(SpaceCommError::invalid_packet("Data exceeds maximum packet size", None));
        }
        let sec_len: usize = match &secondary_header {
            Some(sh) => {
                if sh.mission_data.len() > MAX_MISSION_DATA {
                    return Err(SpaceCommError::invalid_packet(
                        "Mission data exceeds secondary header maximum",
                        None,
                    ));
                }
                8 + sh.mission_data.len()
            },
            None => 0,
        };
        let total: usize = data.len() + sec_len;
        let length_field: u16 = if total == 0 {
            0
        } else {
            (total - 1) as u16
        };
        let header = match SpacePacketHeader::new(
            packet_type,
            apid,
            sequence_count,
            length_field,
            matches!(secondary_header, Some(_)),
        ) {
            Ok(h) => h,
            Err(e) => {
                return Err(e);
            },
        };
        let mut packet_data: Vec<u8> = Vec::new();
        let mut i: usize = 0;
        while i < data.len()
            invariant
                i <= data@.len(),
                packet_data@ =~= data@.subrange(0, i as int),
            decreases data@.len() - i,
        {
            packet_data.push(data[i]);
            assert(data@.subrange(0, i + 1).drop_last() =~= data@.subrange(0, i as int));
            i = i + 1;
        }
        assert(data@.subrange(0, data@.len() as int) =~= data@);
        Ok(Self { header, secondary_header, data: packet_data, error_control: None })
    }

    /// Compute the CRC over header, secondary header and payload, store
    /// it in the error control field, and extend the declared data length
    /// to cover the two CRC bytes.
    pub fn calculate_crc(&mut self)
        requires
            old(self).well_formed(),
        ensures
            final(self).well_formed(),
            final(self).header.data_length == len_field(final(self).spec_content_len()),
            final(self).error_control == Some(final(self).spec_crc()),
            final(self).data == old(self).data,
            final(self).secondary_header == old(self).secondary_header,
            final(self).header.apid == old(self).header.apid,
            final(self).header.packet_type == old(self).header.packet_type,
            final(self).header.sequence_count == old(self).header.sequence_count,
            final(self).header.sequence_flags == old(self).header.sequence_flags,
            final(self).header.version == old(self).header.version,
            final(self).header.secondary_header_flag == old(self).header.secondary_header_flag,
    {
        // Account for the two CRC bytes in the declared length first, so
        // the CRC covers the header as it will appear on the wire.
        let sec_len: usize = match &self.secondary_header {
            Some(sh) => 8 + sh.mission_data.len(),
            None => 0,
        };
        let total: usize = sec_len + self.data.len() + 2;
        self.header.data_length = (total - 1) as u16;
        let header_bytes = self.header.to_bytes();
        let mut crc: u16 = crc16_ccitt(0xFFFF, header_bytes.as_slice());
        proof {
            assert(header_bytes@ + Seq::<u8>::empty() =~= header_bytes@);
        }
        match &self.secondary_header {
            Some(sh) => {
                let mut ts_bytes: Vec<u8> = Vec::new();
                push_u64_be(&mut ts_bytes, sh.timestamp);
                crc = crc16_ccitt(crc, ts_bytes.as_slice());
                proof {
                    lemma_crc16_append(0xFFFF, header_bytes@, ts_bytes@);
                }
                crc = crc16_ccitt(crc, sh.mission_data.as_slice());
                proof {
                    lemma_crc16_append(0xFFFF, header_bytes@ + ts_bytes@, sh.mission_data@);
                    assert(header_bytes@ + ts_bytes@ + sh.mission_data@ =~= header_bytes@ + (
                    ts_bytes@ + sh.mission_data@));
                    assert(ts_bytes@ + sh.mission_data@ =~= sh.spec_bytes());
                }
            },
            None => {},
        }
        crc = crc16_ccitt(crc, self.data.as_slice());
        proof {
            lemma_crc16_append(0xFFFF, self.header.spec_bytes() + self.spec_sec_bytes(),
                self.data@);
            assert(self.header.spec_bytes() + self.spec_sec_bytes() + self.data@
                =~= self.spec_crc_input());
        }
        self.error_control = Some(crc);
    }

    /// Recompute the CRC and compare it with the stored error control.
    /// Returns false when no error control is present.
    pub fn verify_crc(&self) -> (r: bool)
        requires
            self.well_formed(),
        ensures
            r == (self.error_control matches Some(c) && c == self.spec_crc()),
    {
        match self.error_control {
            Some(stored) => {
                let header_bytes = self.header.to_bytes();
                let mut crc: u16 = crc16_ccitt(0xFFFF, header_bytes.as_slice());
                proof {
                    assert(header_bytes@ + Seq::<u8>::empty() =~= header_bytes@);
                }
                match &self.secondary_header {
                    Some(sh) => {
                        let mut ts_bytes: Vec<u8> = Vec::new();
                        push_u64_be(&mut ts_bytes, sh.timestamp);
                        crc = crc16_ccitt(crc, ts_bytes.as_slice());
                        proof {
                            lemma_crc16_append(0xFFFF, header_bytes@, ts_bytes@);
                        }
                        crc = crc16_ccitt(crc, sh.mission_data.as_slice());
                        proof {
                            lemma_crc16_append(0xFFFF, header_bytes@ + ts_bytes@,
                                sh.mission_data@);
                            assert(header_bytes@ + ts_bytes@ + sh.mission_data@ =~= header_bytes@
                                + (ts_bytes@ + sh.mission_data@));
                            assert(ts_bytes@ + sh.mission_data@ =~= sh.spec_bytes());
                        }
                    },
                    None => {},
                }
                crc = crc16_ccitt(crc, self.data.as_slice());
                proof {
                    lemma_crc16_append(0xFFFF, self.header.spec_bytes() + self.spec_sec_bytes(),
                        self.data@);
                    assert(self.header.spec_bytes() + self.spec_sec_bytes() + self.data@
                        =~= self.spec_crc_input());
                }
                crc == stored
            },
            None => false,
        }
    }

    /// Serialize the packet to its wire bytes: primary header, secondary
    /// header if present, payload, then error control if present.
    pub fn to_bytes(&self) -> (r: Result<Vec<u8>, SpaceCommError>)
        requires
            self.well_formed(),
        ensures
            r matches Ok(v) && v@ =~= self.spec_wire_bytes(),
    {
        let mut bytes = self.header.to_bytes();
        match &self.secondary_header {
            Some(sh) => {
                push_u64_be(&mut bytes, sh.timestamp);
                let mut i: usize = 0;
                while i < sh.mission_data.len()
                    invariant
                        i <= sh.mission_data@.len(),
                        bytes@ =~= self.header.spec_bytes() + be8(sh.timestamp)
                            + sh.mission_data@.subrange(0, i as int),
                    decreases sh.mission_data@.len() - i,
                {
                    bytes.push(sh.mission_data[i]);
                    assert(sh.mission_data@.subrange(0, i + 1).drop_last()
                        =~= sh.mission_data@.subrange(0, i as int));
                    i = i + 1;
                }
                assert(sh.mission_data@.subrange(0, sh.mission_data@.len() as int)
                    =~= sh.mission_data@);
            },
            None => {},
        }
        let mut i: usize = 0;
        while i < self.data.len()
            invariant
                i <= self.data@.len(),
                bytes@ =~= self.header.spec_bytes() + self.spec_sec_bytes()
                    + self.data@.subrange(0, i as int),
            decreases self.data@.len() - i,
        {
            bytes.push(self.data[i]);
            assert(self.data@.subrange(0, i + 1).drop_last() =~= self.data@.subrange(
                0, i as int));
            i = i + 1;
        }
        assert(self.data@.subrange(0, self.data@.len() as int) =~= self.data@);
        match self.error_control {
            Some(crc) => {
                bytes.push((crc / 256) as u8);
                bytes.push((crc % 256) as u8);
            },
            None => {},
        }
        assert(bytes@ =~= self.spec_wire_bytes());
        Ok(bytes)
    }

    /// Whether `s` decodes to a packet: a well-formed version-0 header,
    /// a declared length that the buffer covers, room for the secondary
    /// header when its flag is set, and a payload within bounds.
    pub open spec fn decode_ok(s: Seq<u8>) -> bool {
        let h = SpacePacketHeader::parse(s);
        let total = h.data_length + 1;
        &&& s.len() >= 6
        &&& h.version == 0
        &&& 6 + total <= s.len()
        &&& if h.secondary_header_flag {
            total >= 8 && total - 8 <= MAX_PACKET_DATA
        } else {
            total <= MAX_PACKET_DATA
        }
    }

    /// The payload bytes that decoding `s` yields.
    pub open spec fn decoded_data(s: Seq<u8>) -> Seq<u8> {
        let h = SpacePacketHeader::parse(s);
        let total = h.data_length + 1;
        if h.secondary_header_flag {
            s.subrange(14, 6 + total)
        } else {
            s.subrange(6, 6 + total)
        }
    }

    /// Decode a packet from wire bytes. The declared data length decides
    /// how many bytes belong to the packet; trailing bytes are ignored.
    /// A stored CRC cannot be told apart from payload on the wire, so the
    /// decoded packet carries no error control, and mission bytes beyond
    /// the secondary header timestamp are returned as payload.
    pub fn from_bytes(bytes: &[u8]) -> (r: Result<Self, SpaceCommError>)
        ensures
            r is Ok <==> Self::decode_ok(bytes@),
            r matches Ok(p) ==> {
                &&& p.well_formed()
                &&& p.header == SpacePacketHeader::parse(bytes@)
                &&& p.data@ =~= Self::decoded_data(bytes@)
                &&& p.error_control is None
                &&& if SpacePacketHeader::parse(bytes@).secondary_header_flag {
                    p.secondary_header matches Some(sh) && sh.timestamp == u64_from_be(
                        bytes@.subrange(6, 14)) && sh.mission_data@.len() == 0
                } else {
                    p.secondary_header is None
                }
            },
    {
        let header = match SpacePacketHeader::from_bytes(bytes) {
            Ok(h) => h,
            Err(e) => {
                return Err(e);
            },
        };
        let total: usize = header.data_length as usize + 1;
        if 6 + total > bytes.len() {
            return Err(SpaceCommError::invalid_packet("Declared length exceeds buffer", None));
        }
        let (secondary_header, payload_start): (Option<SecondaryHeader>, usize) = if header
            .secondary_header_flag {
            if total < 8 {
                return Err(SpaceCommError::invalid_packet(
                    "Data field too short for secondary header",
                    None,
                ));
            }
            let ts = read_u64_be(bytes, 6);
            (Some(SecondaryHeader { timestamp: ts, mission_data: Vec::new() }), 14)
        } else {
            (None, 6)
        };
        let payload_end: usize = 6 + total;
        if payload_end - payload_start > MAX_PACKET_DATA {
            return Err(SpaceCommError::invalid_packet("Data exceeds maximum packet size", None));
        }
        let mut data: Vec<u8> = Vec::new();
        let mut i: usize = payload_start;
        while i < payload_end
            invariant
                payload_start <= i <= payload_end,
                payload_end <= bytes@.len(),
                data@ =~= bytes@.subrange(payload_start as int, i as int),
            decreases payload_end - i,
        {
            data.push(bytes[i]);
            assert(bytes@.subrange(payload_start as int, i + 1).drop_last() =~= bytes@.subrange(
                payload_start as int, i as int));
            i = i + 1;
        }
        let packet = Self { header, secondary_header, data, error_control: None };
        proof {
            assert(packet.spec_sec_bytes().len() == if header.secondary_header_flag { 8int } else {
                0int
            });
            assert(packet.spec_content_len() == total);
        }
        Ok(packet)
    }

    /// A packet identifier combining the APID and the sequence count.
    pub fn packet_id(&self) -> (r: PacketId)
        requires
            self.header.well_formed(),
        ensures
            r.0 == self.header.apid * 0x10000 + self.header.sequence_count,
    {
        let id: u32 = (self.header.apid as u32) * 0x10000 + (self.header.sequence_count as u32);
        PacketId::new(id)
    }
}

/// Maximum packets of one virtual channel access unit.
pub const MAX_VCAU_PACKETS: usize = 8;

/// Virtual Channel Access Unit of the space data link layer: a frame
/// that carries one or more space packets on a virtual channel.
#[derive(Debug, Clone, PartialEq, Eq)]
pub struct VirtualChannelAccessUnit {
    /// Master channel identifier.
    pub mc_id: u8,
    /// Virtual channel identifier.
    pub vc_id: u8,
    /// Frame sequence number.
    pub frame_sequence: u16,
    /// The space packets in this frame, at most `MAX_VCAU_PACKETS`.
    pub packets: Vec<SpacePacket>,
}

impl VirtualChannelAccessUnit {
    /// The frame invariant: the packet list fits its bound and every
    /// packet is well formed.
    pub open spec fn well_formed(self) -> bool {
        &&& self.packets@.len() <= MAX_VCAU_PACKETS
        &&& forall|i: int| 0 <= i < self.packets@.len() ==> (#[trigger] self.packets@[i]).well_formed()
    }
}

/// Decoding an encoded packet yields the packet back: for every
/// well-formed packet that carries no error control, whose secondary
/// header carries no mission bytes, and whose data field is not empty,
/// the wire image decodes successfully to the same header, the same
/// payload, and the same secondary header timestamp.
pub proof fn lemma_packet_round_trip(p: SpacePacket)
    requires
        p.well_formed(),
        p.header.version == 0,
        p.error_control is None,
        p.secondary_header matches Some(sh) ==> sh.mission_data@.len() == 0,
        p.spec_content_len() >= 1,
    ensures
        SpacePacket::decode_ok(p.spec_wire_bytes()),
        SpacePacketHeader::parse(p.spec_wire_bytes()) == p.header,
        SpacePacket::decoded_data(p.spec_wire_bytes()) =~= p.data@,
        p.header.secondary_header_flag ==> u64_from_be(p.spec_wire_bytes().subrange(6, 14))
            == p.secondary_header->0.timestamp,
{
    let w = p.spec_wire_bytes();
    let hb = p.header.spec_bytes();
    assert(w.len() == 6 + p.spec_content_len());
    lemma_header_round_trip(p.header);
    assert(forall|k: int| 0 <= k < 6 ==> w[k] == hb[k]);
    let ph = SpacePacketHeader::parse(w);
    assert(ph == SpacePacketHeader::parse(hb));
    assert(ph == p.header);
    let total = ph.data_length + 1;
    assert(total == p.spec_content_len());
    match p.secondary_header {
        Some(sh) => {
            assert(p.spec_sec_bytes() =~= be8(sh.timestamp));
            assert(total >= 8);
            assert(w.subrange(6, 14) =~= be8(sh.timestamp));
            lemma_u64_be_round_trip(sh.timestamp);
            assert(SpacePacket::decoded_data(w) =~= p.data@);
        },
        None => {
            assert(SpacePacket::decoded_data(w) =~= p.data@);
        },
    }
}

} // verus!
