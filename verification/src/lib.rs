//! Zero-copy decoder for link-layer frames: Ethernet II and the protocol
//! headers nested inside it (ARP, IEEE 802.2 LLC, IPv4, IPv6, ICMP, IGMP,
//! TCP, UDP), together with the RFC 1071 one's-complement checksum engine
//! that backs the header-integrity checks.

use vstd::prelude::*;

pub mod addr;
pub mod arp;
pub mod checksum;
pub mod ethernet;
pub mod llc;
pub mod icmp;
pub mod igmp;
pub mod ipv4;
pub mod ipv6;
pub mod hwaddr;
pub mod narrow;
pub mod pseudo;
pub mod render;
pub mod tcp;
pub mod udp;

verus! {

/// Why decoding a frame failed. Unrecognized protocol numbers are not
/// failures (they surface as `Other`/`Reserved` variants); a failure means
/// the bytes cannot carry the expected header at all.
#[derive(Clone, Copy, Debug, PartialEq, Eq, Structural)]
pub enum DecodeError {
    /// The input slice cannot contain the fixed portion of the expected header.
    BufferTooShort,
    /// A field combination the standard rules out (IPv4 IHL < 5, IPv6 version != 6).
    InvalidHeader,
    /// The link-layer type discriminant is not one the decoder recognizes.
    UnknownLinkType,
    /// A fully-enumerated code space (U-frame modifier) holds no entry for the value.
    UnrecognizedCode,
}

/// Two bytes read big-endian as a 16-bit value.
pub open spec fn spec_be16(hi: u8, lo: u8) -> int {
    256 * hi + lo
}

/// Four bytes read big-endian as a 32-bit value.
pub open spec fn spec_be32(a: u8, b: u8, c: u8, d: u8) -> int {
    0x100_0000 * a + 0x1_0000 * b + 0x100 * c + d
}

pub fn be16(hi: u8, lo: u8) -> (r: u16)
    ensures
        r == spec_be16(hi, lo),
{
    256 * (hi as u16) + lo as u16
}

pub fn be32(a: u8, b: u8, c: u8, d: u8) -> (r: u32)
    ensures
        r == spec_be32(a, b, c, d),
{
    0x100_0000 * (a as u32) + 0x1_0000 * (b as u32) + 0x100 * (c as u32) + d as u32
}

/// Fallback carrier for a payload whose protocol the decoder does not
/// recognize: the raw bytes tagged with the unrecognized type identifier.
pub struct UnknownFrame<'a> {
    type_id: u16,
    payload: &'a [u8],
}

impl<'a> UnknownFrame<'a> {
    pub closed spec fn spec_payload(self) -> Seq<u8> {
        self.payload@
    }

    pub closed spec fn spec_type_id(self) -> u16 {
        self.type_id
    }

    pub fn payload(&self) -> (r: &'a [u8])
        ensures
            r@ == self.spec_payload(),
    {
        self.payload
    }

    pub fn from_u8_slice(payload: &'a [u8], type_id: u16) -> (r: Self)
        ensures
            r.spec_payload() == payload@,
            r.spec_type_id() == type_id,
    {
        Self { payload, type_id }
    }

    pub fn type_id(&self) -> (r: u16)
        ensures
            r == self.spec_type_id(),
    {
        self.type_id
    }
}

} // verus!
