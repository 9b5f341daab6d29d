//! Network-layer address value types. Both are plain octet containers in
//! wire order; rendering beyond the dotted-quad form is the caller's
//! concern.

use vstd::prelude::*;
use vstd::string::StringExecFns;
use crate::render::dec_u8;
use crate::render::push_dec_u8;

verus! {

/// An IPv4 address: four octets in wire order.
#[derive(Clone, Copy, Debug, PartialEq, Eq, Hash)]
pub struct Ipv4Address {
    octets: [u8; 4],
}

/// Dotted-quad rendering of four octets.
pub open spec fn dotted_quad(a: u8, b: u8, c: u8, d: u8) -> Seq<char> {
    dec_u8(a) + seq!['.'] + dec_u8(b) + seq!['.'] + dec_u8(c) + seq!['.'] + dec_u8(d)
}

impl Ipv4Address {
    pub closed spec fn spec_octets(self) -> Seq<u8> {
        self.octets@
    }

    pub fn from_octets(octets: [u8; 4]) -> (r: Self)
        ensures
            r.spec_octets() == octets@,
    {
        Ipv4Address { octets }
    }

    pub fn octets(&self) -> (r: [u8; 4])
        ensures
            r@ == self.spec_octets(),
    {
        self.octets
    }

    /// The all-zero address `0.0.0.0`.
    pub fn is_unspecified(&self) -> (r: bool)
        ensures
            r <==> self.spec_octets() == seq![0u8, 0u8, 0u8, 0u8],
    {
        let r = self.octets[0] == 0 && self.octets[1] == 0 && self.octets[2] == 0
            && self.octets[3] == 0;
        proof {
            if r {
                assert(self.spec_octets() =~= seq![0u8, 0u8, 0u8, 0u8]);
            } else {
                assert(self.spec_octets() !~= seq![0u8, 0u8, 0u8, 0u8]);
            }
        }
        r
    }

    /// Dotted-quad form, e.g. `192.168.0.1`.
    pub fn display_string(&self) -> (s: String)
        ensures
            s@ == dotted_quad(
                self.spec_octets()[0],
                self.spec_octets()[1],
                self.spec_octets()[2],
                self.spec_octets()[3],
            ),
    {
        let mut s = String::new();
        push_dec_u8(&mut s, self.octets[0]);
        s.append(".");
        push_dec_u8(&mut s, self.octets[1]);
        s.append(".");
        push_dec_u8(&mut s, self.octets[2]);
        s.append(".");
        push_dec_u8(&mut s, self.octets[3]);
        proof {
            reveal_strlit(".");
            assert("."@ =~= seq!['.']);
            assert(s@ =~= dotted_quad(
                self.spec_octets()[0],
                self.spec_octets()[1],
                self.spec_octets()[2],
                self.spec_octets()[3],
            ));
        }
        s
    }
}

/// An IPv6 address: sixteen octets in wire order.
#[derive(Clone, Copy, Debug, PartialEq, Eq, Hash)]
pub struct Ipv6Address {
    octets: [u8; 16],
}

impl Ipv6Address {
    pub closed spec fn spec_octets(self) -> Seq<u8> {
        self.octets@
    }

    pub fn from_octets(octets: [u8; 16]) -> (r: Self)
        ensures
            r.spec_octets() == octets@,
    {
        Ipv6Address { octets }
    }

    pub fn octets(&self) -> (r: [u8; 16])
        ensures
            r@ == self.spec_octets(),
    {
        self.octets
    }

    /// The eight 16-bit groups, big-endian within each group.
    pub fn segments(&self) -> (r: [u16; 8])
        ensures
            forall|i: int|
                0 <= i < 8 ==> r@[i] == 256 * self.spec_octets()[2 * i] + self.spec_octets()[2 * i
                    + 1],
    {
        let o = &self.octets;
        let r: [u16; 8] = [
            256 * (o[0] as u16) + o[1] as u16,
            256 * (o[2] as u16) + o[3] as u16,
            256 * (o[4] as u16) + o[5] as u16,
            256 * (o[6] as u16) + o[7] as u16,
            256 * (o[8] as u16) + o[9] as u16,
            256 * (o[10] as u16) + o[11] as u16,
            256 * (o[12] as u16) + o[13] as u16,
            256 * (o[14] as u16) + o[15] as u16,
        ];
        r
    }
}

} // verus!
