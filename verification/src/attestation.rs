//! Attestation payloads: wire format, decoding, and the keyed signature tag.
//!
//! A payload is exactly 76 bytes: a 4-byte big-endian manufacturer
//! identifier, an 8-byte big-endian nonce, a 32-byte measurement, and a
//! 32-byte signature.  The signature must equal the authentication tag
//! derived byte-wise from the manufacturer key, the device identifier, the
//! nonce, and the measurement.

use vstd::prelude::*;
use crate::byteorder::be32_int;
use crate::byteorder::be64_int;
use crate::byteorder::be_byte;
use crate::byteorder::be_byte_at;
use crate::identity::DeviceId;

verus! {

/// The exact length of a well-formed attestation payload.
pub open spec fn payload_len() -> int {
    76
}

/// The manufacturer identifier carried by a payload.
pub open spec fn payload_mfr(p: Seq<u8>) -> u32
    recommends
        p.len() == payload_len(),
{
    be32_int(p.subrange(0, 4)) as u32
}

/// The nonce carried by a payload.
pub open spec fn payload_nonce(p: Seq<u8>) -> u64
    recommends
        p.len() == payload_len(),
{
    be64_int(p.subrange(4, 12)) as u64
}

/// The measurement carried by a payload.
pub open spec fn payload_meas(p: Seq<u8>) -> Seq<u8>
    recommends
        p.len() == payload_len(),
{
    p.subrange(12, 44)
}

/// The signature carried by a payload.
pub open spec fn payload_sig(p: Seq<u8>) -> Seq<u8>
    recommends
        p.len() == payload_len(),
{
    p.subrange(44, 76)
}

/// A decoded attestation.
pub struct Attestation {
    pub manufacturer_id: u32,
    pub nonce: u64,
    pub measurement: Vec<u8>,
    pub signature: Vec<u8>,
}

/// Decodes a payload; `None` unless it is exactly 76 bytes.
pub fn decode_attestation(payload: &Vec<u8>) -> (r: Option<Attestation>)
    ensures
        r is Some <==> payload@.len() == payload_len(),
        r is Some ==> {
            &&& r->0.manufacturer_id == payload_mfr(payload@)
            &&& r->0.nonce == payload_nonce(payload@)
            &&& r->0.measurement@ == payload_meas(payload@)
            &&& r->0.signature@ == payload_sig(payload@)
        },
{
    if payload.len() != 76 {
        return None;
    }
    let manufacturer_id = crate::byteorder::be32_of_vec(payload, 0);
    let nonce = crate::byteorder::be64_of_vec(payload, 4);
    let mut measurement: Vec<u8> = Vec::new();
    let mut i: usize = 0;
    while i < 32
        invariant
            i <= 32,
            payload@.len() == 76,
            measurement@ == payload@.subrange(12, 12 + i),
        decreases 32 - i,
    {
        measurement.push(payload[12 + i]);
        proof {
            assert(payload@.subrange(12, 12 + i as int + 1) =~= payload@.subrange(
                12,
                12 + i as int,
            ).push(payload@[12 + i as int]));
        }
        i += 1;
    }
    let mut signature: Vec<u8> = Vec::new();
    let mut j: usize = 0;
    while j < 32
        invariant
            j <= 32,
            payload@.len() == 76,
            signature@ == payload@.subrange(44, 44 + j),
        decreases 32 - j,
    {
        signature.push(payload[44 + j]);
        proof {
            assert(payload@.subrange(44, 44 + j as int + 1) =~= payload@.subrange(
                44,
                44 + j as int,
            ).push(payload@[44 + j as int]));
        }
        j += 1;
    }
    Some(Attestation { manufacturer_id, nonce, measurement, signature })
}

/// Encodes the four attestation fields as a 76-byte payload.
pub fn encode_attestation(
    manufacturer_id: u32,
    nonce: u64,
    measurement: &Vec<u8>,
    signature: &Vec<u8>,
) -> (r: Vec<u8>)
    requires
        measurement@.len() == 32,
        signature@.len() == 32,
    ensures
        r@.len() == payload_len(),
        payload_mfr(r@) == manufacturer_id,
        payload_nonce(r@) == nonce,
        payload_meas(r@) == measurement@,
        payload_sig(r@) == signature@,
{
    let m3 = (manufacturer_id % 256) as u8;
    let mq1 = manufacturer_id / 256;
    let m2 = (mq1 % 256) as u8;
    let mq2 = mq1 / 256;
    let m1 = (mq2 % 256) as u8;
    let m0 = (mq2 / 256) as u8;
    proof {
        assert(manufacturer_id as int == (m0 as int) * 0x100_0000 + (m1 as int) * 0x1_0000 + (
        m2 as int) * 0x100 + (m3 as int));
    }
    let n7 = (nonce % 256) as u8;
    let q1 = nonce / 256;
    let n6 = (q1 % 256) as u8;
    let q2 = q1 / 256;
    let n5 = (q2 % 256) as u8;
    let q3 = q2 / 256;
    let n4 = (q3 % 256) as u8;
    let q4 = q3 / 256;
    let n3 = (q4 % 256) as u8;
    let q5 = q4 / 256;
    let n2 = (q5 % 256) as u8;
    let q6 = q5 / 256;
    let n1 = (q6 % 256) as u8;
    let n0 = (q6 / 256) as u8;
    proof {
        assert(nonce as int == (n0 as int) * 0x100_0000_0000_0000 + (n1 as int)
            * 0x1_0000_0000_0000 + (n2 as int) * 0x100_0000_0000 + (n3 as int) * 0x1_0000_0000 + (
        n4 as int) * 0x100_0000 + (n5 as int) * 0x1_0000 + (n6 as int) * 0x100 + (n7 as int));
    }
    let mut out: Vec<u8> = Vec::new();
    out.push(m0);
    out.push(m1);
    out.push(m2);
    out.push(m3);
    out.push(n0);
    out.push(n1);
    out.push(n2);
    out.push(n3);
    out.push(n4);
    out.push(n5);
    out.push(n6);
    out.push(n7);
    let ghost head = out@;
    let mut i: usize = 0;
    while i < 32
        invariant
            i <= 32,
            measurement@.len() == 32,
            out@ == head + measurement@.subrange(0, i as int),
            head.len() == 12,
        decreases 32 - i,
    {
        out.push(measurement[i]);
        proof {
            assert(head + measurement@.subrange(0, i as int + 1) =~= (head
                + measurement@.subrange(0, i as int)).push(measurement@[i as int]));
        }
        i += 1;
    }
    proof {
        assert(measurement@.subrange(0, 32) =~= measurement@);
    }
    let ghost mid = out@;
    let mut j: usize = 0;
    while j < 32
        invariant
            j <= 32,
            signature@.len() == 32,
            out@ == mid + signature@.subrange(0, j as int),
            mid.len() == 44,
        decreases 32 - j,
    {
        out.push(signature[j]);
        proof {
            assert(mid + signature@.subrange(0, j as int + 1) =~= (mid + signature@.subrange(
                0,
                j as int,
            )).push(signature@[j as int]));
        }
        j += 1;
    }
    proof {
        assert(signature@.subrange(0, 32) =~= signature@);
        assert(out@.subrange(0, 4) =~= seq![m0, m1, m2, m3]);
        assert(out@.subrange(4, 12) =~= seq![n0, n1, n2, n3, n4, n5, n6, n7]);
        assert(payload_meas(out@) =~= measurement@);
        assert(payload_sig(out@) =~= signature@);
    }
    out
}

/// The word of a device identifier that holds byte `8 * k` onward.
pub open spec fn device_word(d: DeviceId, k: int) -> u64 {
    if k == 0 {
        d.w0
    } else if k == 1 {
        d.w1
    } else if k == 2 {
        d.w2
    } else {
        d.w3
    }
}

/// Byte `i` of a device identifier in big-endian order.
pub open spec fn device_byte(d: DeviceId, i: int) -> u8
    recommends
        0 <= i < 32,
{
    be_byte(device_word(d, i / 8), i % 8)
}

/// Byte `i` of the authentication tag over a manufacturer key, a device,
/// a nonce, and a measurement.
pub open spec fn tag_byte(key: Seq<u8>, d: DeviceId, nonce: u64, meas: Seq<u8>, i: int) -> u8
    recommends
        key.len() == 32,
        meas.len() == 32,
        0 <= i < 32,
{
    ((key[i] ^ device_byte(d, i)) ^ meas[i]) ^ be_byte(nonce, i % 8)
}

/// The 32-byte authentication tag that a well-formed signature must equal.
pub open spec fn spec_tag(key: Seq<u8>, d: DeviceId, nonce: u64, meas: Seq<u8>) -> Seq<u8>
    recommends
        key.len() == 32,
        meas.len() == 32,
{
    Seq::new(32, |i: int| tag_byte(key, d, nonce, meas, i))
}

/// Computes the authentication tag for the given key, device, nonce and
/// measurement.
pub fn attestation_tag(key: &Vec<u8>, device: DeviceId, nonce: u64, measurement: &Vec<u8>) -> (r:
    Vec<u8>)
    requires
        key@.len() == 32,
        measurement@.len() == 32,
    ensures
        r@ == spec_tag(key@, device, nonce, measurement@),
{
    let mut out: Vec<u8> = Vec::new();
    let mut i: usize = 0;
    while i < 32
        invariant
            i <= 32,
            key@.len() == 32,
            measurement@.len() == 32,
            out@.len() == i,
            forall|j: int| 0 <= j < i ==> out@[j] == tag_byte(key@, device, nonce, measurement@, j),
        decreases 32 - i,
    {
        let w = if i < 8 {
            device.w0
        } else if i < 16 {
            device.w1
        } else if i < 24 {
            device.w2
        } else {
            device.w3
        };
        let db = be_byte_at(w, (i % 8) as u64);
        proof {
            assert(w == device_word(device, i as int / 8));
            assert(db == device_byte(device, i as int));
        }
        let nb = be_byte_at(nonce, (i % 8) as u64);
        let b = ((key[i] ^ db) ^ measurement[i]) ^ nb;
        out.push(b);
        i += 1;
    }
    proof {
        assert(out@ =~= spec_tag(key@, device, nonce, measurement@));
    }
    out
}

} // verus!
