use vstd::prelude::*;

use crate::provider::MotionSample;

verus! {

/// Protocol version carried in every packet header.
pub const PROTOCOL_VERSION: u16 = 1001;

/// Message type of a motion data packet.
pub const MESSAGE_TYPE_DATA: u32 = 0x100002;

/// Reflected polynomial of CRC-32 (IEEE 802.3).
pub const CRC32_POLY: u32 = 0xEDB88320;

/// Initial remainder of CRC-32: all ones.
pub const CRC32_INIT: u32 = 0xFFFFFFFF;

/// The four magic bytes that open every packet.
pub open spec fn spec_magic() -> Seq<u8> {
    seq![0x44u8, 0x53u8, 0x55u8, 0x53u8]
}

/// A 16-bit value split little-endian into two bytes.
pub open spec fn spec_le16(x: u16) -> Seq<u8> {
    seq![(x % 256) as u8, (x / 256) as u8]
}

/// A 32-bit value split little-endian into four bytes.
pub open spec fn spec_le32(x: u32) -> Seq<u8> {
    seq![
        (x % 256) as u8,
        ((x / 256) % 256) as u8,
        ((x / 65536) % 256) as u8,
        ((x / 16777216) % 256) as u8,
    ]
}

/// A 64-bit value split little-endian into eight bytes.
pub open spec fn spec_le64(x: u64) -> Seq<u8> {
    spec_le32((x % 4294967296) as u32) + spec_le32((x / 4294967296) as u32)
}

/// One division step of the bitwise CRC-32 remainder.
pub open spec fn crc32_step(c: u32) -> u32 {
    if c % 2 == 1 {
        (c / 2) ^ CRC32_POLY
    } else {
        c / 2
    }
}

/// `n` division steps applied to a remainder.
pub open spec fn crc32_bits(c: u32, n: nat) -> u32
    decreases n,
{
    if n == 0 {
        c
    } else {
        crc32_step(crc32_bits(c, (n - 1) as nat))
    }
}

/// The remainder after folding in one message byte: the byte enters the
/// low bits, then eight division steps run.
pub open spec fn crc32_byte(c: u32, b: u8) -> u32 {
    crc32_bits(c ^ (b as u32), 8)
}

/// The remainder after folding in the bytes of `s` from index `i` on.
pub open spec fn crc32_from(c: u32, s: Seq<u8>, i: int) -> u32
    recommends
        0 <= i <= s.len(),
    decreases s.len() - i,
{
    if i < 0 || i >= s.len() {
        c
    } else {
        crc32_from(crc32_byte(c, s[i]), s, i + 1)
    }
}

/// CRC-32 (IEEE 802.3) of a byte sequence: reflected polynomial, all-ones
/// initial remainder, final complement.
pub open spec fn spec_crc32(s: Seq<u8>) -> u32 {
    !crc32_from(CRC32_INIT, s, 0)
}

/// Computes the CRC-32 checksum of the given bytes.
pub fn crc32(data: &Vec<u8>) -> (r: u32)
    ensures
        r == spec_crc32(data@),
{
    let mut c: u32 = CRC32_INIT;
    let mut i: usize = 0;
    while i < data.len()
        invariant
            i <= data@.len(),
            crc32_from(c, data@, i as int) == crc32_from(CRC32_INIT, data@, 0),
        decreases data@.len() - i,
    {
        let b = data[i];
        let mut x: u32 = c ^ (b as u32);
        let mut j: usize = 0;
        while j < 8
            invariant
                j <= 8,
                x == crc32_bits(c ^ (b as u32), j as nat),
            decreases 8 - j,
        {
            x = if x % 2 == 1 {
                (x / 2) ^ CRC32_POLY
            } else {
                x / 2
            };
            j = j + 1;
        }
        c = x;
        i = i + 1;
    }
    !c
}

/// The part of a packet that the checksum covers: server id, message type
/// and payload, everything after the checksum field.
pub open spec fn spec_packet_tail(server_id: u32, msg_type: u32, payload: Seq<u8>) -> Seq<u8> {
    spec_le32(server_id) + spec_le32(msg_type) + payload
}

/// A full wire packet: magic bytes, protocol version, length of the
/// remainder past the header, CRC-32 of everything after the checksum
/// field, then server id, message type and payload.
pub open spec fn spec_packet(server_id: u32, msg_type: u32, payload: Seq<u8>) -> Seq<u8> {
    spec_magic() + spec_le16(PROTOCOL_VERSION) + spec_le16((payload.len() + 4) as u16)
        + spec_le32(spec_crc32(spec_packet_tail(server_id, msg_type, payload)))
        + spec_packet_tail(server_id, msg_type, payload)
}

fn push_le16(v: &mut Vec<u8>, x: u16)
    ensures
        final(v)@ == old(v)@ + spec_le16(x),
{
    v.push((x % 256) as u8);
    v.push((x / 256) as u8);
    proof {
        assert(v@ =~= old(v)@ + spec_le16(x));
    }
}

fn push_le32(v: &mut Vec<u8>, x: u32)
    ensures
        final(v)@ == old(v)@ + spec_le32(x),
{
    v.push((x % 256) as u8);
    v.push(((x / 256) % 256) as u8);
    v.push(((x / 65536) % 256) as u8);
    v.push(((x / 16777216) % 256) as u8);
    proof {
        assert(v@ =~= old(v)@ + spec_le32(x));
    }
}

fn push_le64(v: &mut Vec<u8>, x: u64)
    ensures
        final(v)@ == old(v)@ + spec_le64(x),
{
    push_le32(v, (x % 4294967296) as u32);
    push_le32(v, (x / 4294967296) as u32);
    proof {
        assert(v@ =~= old(v)@ + spec_le64(x));
    }
}

/// Frames a payload into a wire packet with checksummed header.
pub fn encode_packet(server_id: u32, msg_type: u32, payload: &Vec<u8>) -> (r: Vec<u8>)
    requires
        payload@.len() + 4 <= u16::MAX,
    ensures
        r@ == spec_packet(server_id, msg_type, payload@),
        r@.len() == 20 + payload@.len(),
{
    let mut tail: Vec<u8> = Vec::new();
    push_le32(&mut tail, server_id);
    push_le32(&mut tail, msg_type);
    let mut i: usize = 0;
    while i < payload.len()
        invariant
            i <= payload@.len(),
            tail@ == spec_le32(server_id) + spec_le32(msg_type) + payload@.take(i as int),
        decreases payload@.len() - i,
    {
        tail.push(payload[i]);
        proof {
            assert(tail@ =~= spec_le32(server_id) + spec_le32(msg_type) + payload@.take(
                i as int + 1));
        }
        i = i + 1;
    }
    proof {
        assert(payload@.take(payload@.len() as int) =~= payload@);
    }
    let checksum = crc32(&tail);
    let len_field: u16 = (payload.len() as u16) + 4;

    let mut r: Vec<u8> = Vec::new();
    r.push(0x44u8);
    r.push(0x53u8);
    r.push(0x55u8);
    r.push(0x53u8);
    push_le16(&mut r, PROTOCOL_VERSION);
    push_le16(&mut r, len_field);
    push_le32(&mut r, checksum);
    let mut k: usize = 0;
    while k < tail.len()
        invariant
            k <= tail@.len(),
            r@ == spec_magic() + spec_le16(PROTOCOL_VERSION) + spec_le16(len_field)
                + spec_le32(checksum) + tail@.take(k as int),
        decreases tail@.len() - k,
    {
        r.push(tail[k]);
        proof {
            assert(r@ =~= spec_magic() + spec_le16(PROTOCOL_VERSION) + spec_le16(len_field)
                + spec_le32(checksum) + tail@.take(k as int + 1));
        }
        k = k + 1;
    }
    proof {
        assert(tail@.take(tail@.len() as int) =~= tail@);
        assert(r@ =~= spec_packet(server_id, msg_type, payload@));
    }
    r
}

/// The motion payload of a data packet: the six axes of the sample as
/// 64-bit two's-complement little-endian values, accelerometer first.
pub open spec fn spec_sample_payload(s: MotionSample) -> Seq<u8> {
    spec_le64(s.accel.0 as u64) + spec_le64(s.accel.1 as u64) + spec_le64(s.accel.2 as u64)
        + spec_le64(s.gyro.0 as u64) + spec_le64(s.gyro.1 as u64) + spec_le64(s.gyro.2 as u64)
}

/// Serializes one normalized sample into the 48-byte motion payload.
#[verifier::rlimit(60)]
pub fn sample_payload(s: &MotionSample) -> (r: Vec<u8>)
    ensures
        r@ == spec_sample_payload(*s),
        r@.len() == 48,
{
    let mut r: Vec<u8> = Vec::new();
    push_le64(&mut r, s.accel.0 as u64);
    push_le64(&mut r, s.accel.1 as u64);
    push_le64(&mut r, s.accel.2 as u64);
    push_le64(&mut r, s.gyro.0 as u64);
    push_le64(&mut r, s.gyro.1 as u64);
    push_le64(&mut r, s.gyro.2 as u64);
    proof {
        assert(Seq::<u8>::empty() + spec_le64(s.accel.0 as u64) =~= spec_le64(
            s.accel.0 as u64));
    }
    r
}

/// Encodes one normalized sample as a complete motion data packet.
pub fn to_dsu_packet(sample: &MotionSample, server_id: u32) -> (r: Vec<u8>)
    ensures
        r@ == spec_packet(server_id, MESSAGE_TYPE_DATA, spec_sample_payload(*sample)),
        r@.len() == 68,
{
    let payload = sample_payload(sample);
    encode_packet(server_id, MESSAGE_TYPE_DATA, &payload)
}

} // verus!
