use vstd::prelude::*;

use crate::mac::mac48;
use crate::mac::sha256_mac48;

verus! {

/// Bit of the incompatibility-flags byte that marks a frame as signed.
pub const MAVLINK_IFLAG_SIGNED: u8 = 0x01;

/// Bytes of a framed message besides the payload: ten header bytes, two
/// checksum bytes and the thirteen-byte signature block.
pub const FRAME_OVERHEAD: usize = 25;

/// Number of distinct 48-bit signature timestamp values.
pub const TIMESTAMP_MODULUS: u64 = 0x1_0000_0000_0000;

/// A frame is well formed when its length matches the payload length
/// recorded in its second byte plus the fixed overhead, so that the
/// signature block is exactly its last thirteen bytes.
pub open spec fn spec_wf(m: Seq<u8>) -> bool {
    &&& m.len() >= FRAME_OVERHEAD
    &&& m.len() == FRAME_OVERHEAD + m[1]
}

/// Index of the first byte of the signature block: the link id, then six
/// timestamp bytes, then the six-byte MAC.
pub open spec fn spec_signature_offset(m: Seq<u8>) -> int {
    m.len() - 13
}

pub open spec fn spec_incompatibility_flags(m: Seq<u8>) -> u8 {
    m[2]
}

pub open spec fn spec_is_signed(m: Seq<u8>) -> bool {
    spec_incompatibility_flags(m) & MAVLINK_IFLAG_SIGNED == MAVLINK_IFLAG_SIGNED
}

pub open spec fn spec_system_id(m: Seq<u8>) -> u8 {
    m[5]
}

pub open spec fn spec_component_id(m: Seq<u8>) -> u8 {
    m[6]
}

pub open spec fn spec_signature_link_id(m: Seq<u8>) -> u8 {
    m[spec_signature_offset(m)]
}

/// The 48-bit value held by six little-endian bytes.
pub open spec fn le48_value(b: Seq<u8>) -> int
    recommends
        b.len() == 6,
{
    b[0] + b[1] * 0x100 + b[2] * 0x10000 + b[3] * 0x1000000 + b[4] * 0x1_0000_0000
        + b[5] * 0x100_0000_0000
}

/// The six little-endian bytes holding the low 48 bits of `t`.
pub open spec fn le48_bytes(t: u64) -> Seq<u8> {
    seq![
        (t as int % 0x100) as u8,
        (t as int / 0x100 % 0x100) as u8,
        (t as int / 0x10000 % 0x100) as u8,
        (t as int / 0x1000000 % 0x100) as u8,
        (t as int / 0x1_0000_0000 % 0x100) as u8,
        (t as int / 0x100_0000_0000 % 0x100) as u8,
    ]
}

pub open spec fn spec_timestamp_bytes(m: Seq<u8>) -> Seq<u8> {
    m.subrange(spec_signature_offset(m) + 1, spec_signature_offset(m) + 7)
}

/// The signature timestamp carried by the frame.
pub open spec fn spec_signature_timestamp(m: Seq<u8>) -> u64 {
    le48_value(spec_timestamp_bytes(m)) as u64
}

/// The six-byte MAC field at the end of the frame.
pub open spec fn spec_signature_value(m: Seq<u8>) -> Seq<u8> {
    m.subrange(m.len() - 6, m.len() as int)
}

/// Every byte the MAC covers: the whole frame up to the MAC field, the
/// just-written timestamp and link id included.
pub open spec fn spec_signable(m: Seq<u8>) -> Seq<u8> {
    m.take(m.len() - 6)
}

/// Six little-endian bytes hold a value below the 48-bit modulus.
pub proof fn lemma_le48_value_bounds(b: Seq<u8>)
    requires
        b.len() == 6,
    ensures
        0 <= le48_value(b) < TIMESTAMP_MODULUS,
{
}

/// Reading back the six bytes written for `t` yields `t` reduced to the
/// 48-bit range.
pub proof fn lemma_le48_roundtrip(t: u64)
    ensures
        le48_value(le48_bytes(t)) == t % TIMESTAMP_MODULUS,
{
    assert(t % 0x100 + t / 0x100 % 0x100 * 0x100 + t / 0x10000 % 0x100 * 0x10000 + t / 0x1000000
        % 0x100 * 0x1000000 + t / 0x1_0000_0000 % 0x100 * 0x1_0000_0000 + t / 0x100_0000_0000
        % 0x100 * 0x100_0000_0000 == t % 0x1_0000_0000_0000) by (bit_vector);
}

/// The frame with the six timestamp bytes replaced by the encoding of `t`.
pub open spec fn spec_with_timestamp(m: Seq<u8>, t: u64) -> Seq<u8> {
    Seq::new(
        m.len(),
        |i: int|
            if spec_signature_offset(m) + 1 <= i < spec_signature_offset(m) + 7 {
                le48_bytes(t)[i - (spec_signature_offset(m) + 1)]
            } else {
                m[i]
            },
    )
}

/// The frame with the six MAC bytes replaced by `v`.
pub open spec fn spec_with_signature_value(m: Seq<u8>, v: Seq<u8>) -> Seq<u8> {
    Seq::new(
        m.len(),
        |i: int|
            if m.len() - 6 <= i {
                v[i - (m.len() - 6)]
            } else {
                m[i]
            },
    )
}

/// The frame as signing leaves it: timestamp `t` and `link_id` written into
/// the signature block, then the keyed MAC computed over everything that
/// precedes the MAC field and written into it.
pub open spec fn spec_signed_frame(m: Seq<u8>, link_id: u8, t: u64, key: Seq<u8>) -> Seq<u8> {
    let pre = spec_with_timestamp(m, t).update(spec_signature_offset(m), link_id);
    spec_with_signature_value(pre, mac48(key, spec_signable(pre)))
}

/// An already-framed message that carries a signature block, held as its raw
/// wire bytes. The signing subsystem reads and writes only the fixed
/// signature-related byte ranges.
pub struct MAVLinkV2MessageRaw {
    bytes: Vec<u8>,
}

impl View for MAVLinkV2MessageRaw {
    type V = Seq<u8>;

    closed spec fn view(&self) -> Seq<u8> {
        self.bytes@
    }
}

impl MAVLinkV2MessageRaw {
    pub open spec fn wf(&self) -> bool {
        spec_wf(self@)
    }

    /// Wraps a raw frame, accepting it exactly when its length is consistent
    /// with the payload length it records.
    pub fn from_bytes(bytes: Vec<u8>) -> (r: Option<Self>)
        ensures
            match r {
                Some(m) => m@ == bytes@ && m.wf(),
                None => !spec_wf(bytes@),
            },
    {
        if bytes.len() >= FRAME_OVERHEAD && bytes.len() == FRAME_OVERHEAD + (bytes[1] as usize) {
            Some(MAVLinkV2MessageRaw { bytes })
        } else {
            None
        }
    }

    pub fn as_bytes(&self) -> (r: &Vec<u8>)
        ensures
            r@ == self@,
    {
        &self.bytes
    }

    pub fn incompatibility_flags(&self) -> (r: u8)
        requires
            self.wf(),
        ensures
            r == spec_incompatibility_flags(self@),
    {
        self.bytes[2]
    }

    pub fn is_signed(&self) -> (r: bool)
        requires
            self.wf(),
        ensures
            r == spec_is_signed(self@),
    {
        let flags = self.bytes[2];
        let r = flags & MAVLINK_IFLAG_SIGNED > 0;
        proof {
            assert((flags & 0x01 > 0) == (flags & 0x01 == 0x01)) by (bit_vector);
        }
        r
    }

    pub fn system_id(&self) -> (r: u8)
        requires
            self.wf(),
        ensures
            r == spec_system_id(self@),
    {
        self.bytes[5]
    }

    pub fn component_id(&self) -> (r: u8)
        requires
            self.wf(),
        ensures
            r == spec_component_id(self@),
    {
        self.bytes[6]
    }

    pub fn signature_link_id(&self) -> (r: u8)
        requires
            self.wf(),
        ensures
            r == spec_signature_link_id(self@),
    {
        self.bytes[self.bytes.len() - 13]
    }

    pub fn signature_timestamp(&self) -> (r: u64)
        requires
            self.wf(),
        ensures
            r == spec_signature_timestamp(self@),
            r < TIMESTAMP_MODULUS,
    {
        let so = self.bytes.len() - 13;
        let b0 = self.bytes[so + 1] as u64;
        let b1 = self.bytes[so + 2] as u64;
        let b2 = self.bytes[so + 3] as u64;
        let b3 = self.bytes[so + 4] as u64;
        let b4 = self.bytes[so + 5] as u64;
        let b5 = self.bytes[so + 6] as u64;
        let r = b0 + b1 * 0x100 + b2 * 0x10000 + b3 * 0x1000000 + b4 * 0x1_0000_0000 + b5
            * 0x100_0000_0000;
        proof {
            lemma_le48_value_bounds(spec_timestamp_bytes(self@));
        }
        r
    }

    /// Returns the six-byte MAC field.
    pub fn signature_value(&self) -> (r: Vec<u8>)
        requires
            self.wf(),
        ensures
            r@ == spec_signature_value(self@),
    {
        let mut r: Vec<u8> = Vec::new();
        let base = self.bytes.len() - 6;
        r.push(self.bytes[base]);
        r.push(self.bytes[base + 1]);
        r.push(self.bytes[base + 2]);
        r.push(self.bytes[base + 3]);
        r.push(self.bytes[base + 4]);
        r.push(self.bytes[base + 5]);
        proof {
            assert(r@ =~= spec_signature_value(self@));
        }
        r
    }

    /// Compares the six-byte MAC field with `mac`.
    pub fn signature_matches(&self, mac: &[u8; 6]) -> (r: bool)
        requires
            self.wf(),
        ensures
            r == (spec_signature_value(self@) == mac@),
    {
        let base = self.bytes.len() - 6;
        let eq = self.bytes[base] == mac[0] && self.bytes[base + 1] == mac[1] && self.bytes[base
            + 2] == mac[2] && self.bytes[base + 3] == mac[3] && self.bytes[base + 4] == mac[4]
            && self.bytes[base + 5] == mac[5];
        proof {
            if eq {
                assert(spec_signature_value(self@) =~= mac@);
            } else {
                if spec_signature_value(self@) == mac@ {
                    assert(forall|i: int|
                        0 <= i < 6 ==> spec_signature_value(self@)[i] == mac@[i]);
                }
            }
        }
        eq
    }

    /// Computes the 48-bit keyed MAC over every byte of the frame that
    /// precedes the MAC field.
    pub fn calculate_signature(&self, secret_key: &[u8; 32]) -> (r: [u8; 6])
        requires
            self.wf(),
        ensures
            r@ == mac48(secret_key@, spec_signable(self@)),
    {
        let n = self.bytes.len() - 6;
        let r = sha256_mac48(secret_key, &self.bytes, n);
        proof {
            assert(self@.take(self@.len() - 6) =~= spec_signable(self@));
        }
        r
    }

    /// Writes the low 48 bits of `t` into the six timestamp bytes.
    pub fn set_signature_timestamp(&mut self, t: u64)
        requires
            old(self).wf(),
        ensures
            final(self)@ == spec_with_timestamp(old(self)@, t),
            final(self).wf(),
    {
        let so = self.bytes.len() - 13;
        self.bytes[so + 1] = (t % 0x100) as u8;
        self.bytes[so + 2] = (t / 0x100 % 0x100) as u8;
        self.bytes[so + 3] = (t / 0x10000 % 0x100) as u8;
        self.bytes[so + 4] = (t / 0x1000000 % 0x100) as u8;
        self.bytes[so + 5] = (t / 0x1_0000_0000 % 0x100) as u8;
        self.bytes[so + 6] = (t / 0x100_0000_0000 % 0x100) as u8;
        proof {
            assert(self@ =~= spec_with_timestamp(old(self)@, t));
        }
    }

    /// Writes `link_id` into the signature link id byte.
    pub fn set_signature_link_id(&mut self, link_id: u8)
        requires
            old(self).wf(),
        ensures
            final(self)@ == old(self)@.update(spec_signature_offset(old(self)@), link_id),
            final(self).wf(),
    {
        let so = self.bytes.len() - 13;
        self.bytes[so] = link_id;
    }

    /// Writes `mac` into the six-byte MAC field.
    pub fn set_signature_value(&mut self, mac: &[u8; 6])
        requires
            old(self).wf(),
        ensures
            final(self)@ == spec_with_signature_value(old(self)@, mac@),
            final(self).wf(),
    {
        let base = self.bytes.len() - 6;
        self.bytes[base] = mac[0];
        self.bytes[base + 1] = mac[1];
        self.bytes[base + 2] = mac[2];
        self.bytes[base + 3] = mac[3];
        self.bytes[base + 4] = mac[4];
        self.bytes[base + 5] = mac[5];
        proof {
            assert(self@ =~= spec_with_signature_value(old(self)@, mac@));
        }
    }
}

/// Relates the fields of a signed frame to what signing wrote: the bytes
/// before the signature block are kept, the link id and timestamp are the
/// written ones, and the MAC field holds the keyed MAC over everything that
/// precedes it.
pub proof fn lemma_signed_frame_fields(m: Seq<u8>, link_id: u8, t: u64, key: Seq<u8>)
    requires
        spec_wf(m),
    ensures
        ({
            let s = spec_signed_frame(m, link_id, t, key);
            &&& s.len() == m.len()
            &&& spec_wf(s)
            &&& forall|i: int| 0 <= i < spec_signature_offset(m) ==> s[i] == m[i]
            &&& spec_incompatibility_flags(s) == spec_incompatibility_flags(m)
            &&& spec_is_signed(s) == spec_is_signed(m)
            &&& spec_system_id(s) == spec_system_id(m)
            &&& spec_component_id(s) == spec_component_id(m)
            &&& spec_signature_link_id(s) == link_id
            &&& spec_signature_timestamp(s) == t % TIMESTAMP_MODULUS
            &&& spec_signature_value(s) == mac48(key, spec_signable(s))
        }),
{
    let pre = spec_with_timestamp(m, t).update(spec_signature_offset(m), link_id);
    let s = spec_signed_frame(m, link_id, t, key);
    assert(spec_timestamp_bytes(s) =~= le48_bytes(t));
    lemma_le48_roundtrip(t);
    assert(spec_signable(s) =~= spec_signable(pre));
    assert(spec_signature_value(s) =~= mac48(key, spec_signable(pre)));
}

} // verus!
