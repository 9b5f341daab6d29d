//! UDP view (RFC 768): fixed 8-byte header, payload, and the
//! pseudo-header-aware integrity check. The pseudo-header partial sum is
//! precomputed from the parent network-layer view at construction time.

use vstd::prelude::*;
use vstd::slice::slice_subrange;
use vstd::array::array_as_slice;
use crate::DecodeError;
use crate::spec_be16;
use crate::be16;
use crate::checksum::checksum16_u8_spec;
use crate::checksum::sum16_u8_spec;
use crate::checksum::byte_pair_sum;
use crate::checksum::u8_slice_to_sum16;
use crate::checksum::u16_checksum16;
use crate::checksum::lemma_byte_pair_sum_concat;
use crate::checksum::lemma_byte_pair_sum_nonneg;
use crate::checksum::lemma_word_sum_three;
use crate::checksum::lemma_fold_sum3;
use crate::checksum::lemma_ones_fold_properties;
use crate::pseudo::ipv4_pseudo;
use crate::pseudo::ipv6_pseudo;
use crate::pseudo::ipv4_pseudo_sum;
use crate::pseudo::ipv6_pseudo_sum;
use crate::ipv4::Ipv4Frame;
use crate::ipv6::Ipv6Frame;

verus! {

/// Zero-copy view of a UDP datagram: fixed 8-byte header and payload,
/// plus the folded pseudo-header partial sum of the enclosing network
/// layer (the pseudo-header bytes themselves are kept as a ghost model).
pub struct UdpFrame<'a> {
    pseudo_header_sum: u16,
    pseudo: Ghost<Seq<u8>>,
    header: &'a [u8],
    payload: &'a [u8],
}

impl<'a> UdpFrame<'a> {
    pub closed spec fn spec_header(self) -> Seq<u8> {
        self.header@
    }

    pub closed spec fn spec_payload(self) -> Seq<u8> {
        self.payload@
    }

    /// The pseudo-header bytes the stored partial sum covers.
    pub closed spec fn spec_pseudo(self) -> Seq<u8> {
        self.pseudo@
    }

    pub closed spec fn spec_pseudo_sum(self) -> u16 {
        self.pseudo_header_sum
    }

    /// Structural invariant: the stored scalar is the folded sum of the
    /// even-length pseudo-header byte model.
    pub open spec fn wf(self) -> bool {
        &&& self.spec_header().len() == 8
        &&& self.spec_pseudo().len() % 2 == 0
        &&& self.spec_pseudo_sum() == sum16_u8_spec(self.spec_pseudo())
        &&& self.spec_payload().len() < 0x1_0000_0000
    }

    /// The view splits the given transport bytes at the 8-byte boundary.
    pub open spec fn is_parse_of(self, b: Seq<u8>) -> bool {
        &&& self.spec_header() == b.subrange(0, 8)
        &&& self.spec_payload() == b.subrange(8, b.len() as int)
    }

    /// View an IPv4 payload as a UDP datagram, with the pseudo-header
    /// partial sum derived from the IPv4 header.
    pub fn from_ipv4(frame: Ipv4Frame<'a>) -> (r: Result<Self, DecodeError>)
        requires
            frame.wf(),
        ensures
            frame.spec_payload().len() >= 8 ==> (r matches Ok(f) && f.wf() && f.is_parse_of(
                frame.spec_payload(),
            ) && f.spec_pseudo() == ipv4_pseudo(
                frame.spec_header(),
                0x11,
                frame.spec_payload().len() as int % 0x1_0000,
            )),
            frame.spec_payload().len() < 8 ==> r == Err::<Self, DecodeError>(
                DecodeError::BufferTooShort,
            ),
    {
        let psum = ipv4_pseudo_sum(&frame, 0x11);
        let ghost pseudo = ipv4_pseudo(
            frame.spec_header(),
            0x11,
            frame.spec_payload().len() as int % 0x1_0000,
        );
        let payload = frame.payload();
        if payload.len() < 8 {
            return Err(DecodeError::BufferTooShort);
        }
        let header = slice_subrange(payload, 0, 8);
        let rest = slice_subrange(payload, 8, payload.len());
        Ok(UdpFrame { pseudo_header_sum: psum, pseudo: Ghost(pseudo), header, payload: rest })
    }

    /// View an IPv6 payload as a UDP datagram, with the pseudo-header
    /// partial sum derived from the IPv6 header.
    pub fn from_ipv6(frame: Ipv6Frame<'a>) -> (r: Result<Self, DecodeError>)
        requires
            frame.wf(),
        ensures
            frame.spec_payload().len() >= 8 ==> (r matches Ok(f) && f.wf() && f.is_parse_of(
                frame.spec_payload(),
            ) && f.spec_pseudo() == ipv6_pseudo(
                frame.spec_header(),
                0x11,
                frame.spec_payload().len() as int,
            )),
            frame.spec_payload().len() < 8 ==> r == Err::<Self, DecodeError>(
                DecodeError::BufferTooShort,
            ),
    {
        let psum = ipv6_pseudo_sum(&frame, 0x11);
        let ghost pseudo = ipv6_pseudo(frame.spec_header(), 0x11, frame.spec_payload().len() as int);
        let payload = frame.payload();
        if payload.len() < 8 {
            return Err(DecodeError::BufferTooShort);
        }
        let header = slice_subrange(payload, 0, 8);
        let rest = slice_subrange(payload, 8, payload.len());
        Ok(UdpFrame { pseudo_header_sum: psum, pseudo: Ghost(pseudo), header, payload: rest })
    }

    pub fn src_port(&self) -> (r: u16)
        requires
            self.wf(),
        ensures
            r == spec_be16(self.spec_header()[0], self.spec_header()[1]),
    {
        be16(self.header[0], self.header[1])
    }

    pub fn dest_port(&self) -> (r: u16)
        requires
            self.wf(),
        ensures
            r == spec_be16(self.spec_header()[2], self.spec_header()[3]),
    {
        be16(self.header[2], self.header[3])
    }

    /// The datagram length the header declares.
    pub fn len(&self) -> (r: u16)
        requires
            self.wf(),
        ensures
            r == spec_be16(self.spec_header()[4], self.spec_header()[5]),
    {
        be16(self.header[4], self.header[5])
    }

    pub fn checksum(&self) -> (r: u16)
        requires
            self.wf(),
        ensures
            r == spec_be16(self.spec_header()[6], self.spec_header()[7]),
    {
        be16(self.header[6], self.header[7])
    }

    pub fn payload(&self) -> (r: &'a [u8])
        ensures
            r@ == self.spec_payload(),
    {
        self.payload
    }

    /// Everything the UDP checksum covers, in wire order.
    pub open spec fn spec_transport_bytes(self) -> Seq<u8> {
        self.spec_pseudo() + self.spec_header() + self.spec_payload()
    }

    /// Pseudo-header, header and payload together checksum to zero.
    pub open spec fn spec_has_integrity(self) -> bool {
        checksum16_u8_spec(self.spec_transport_bytes()) == 0
    }

    pub fn has_integrity(&self) -> (r: bool)
        requires
            self.wf(),
        ensures
            r == self.spec_has_integrity(),
    {
        let sh = u8_slice_to_sum16(self.header);
        let sp = u8_slice_to_sum16(self.payload);
        let words: [u16; 3] = [self.pseudo_header_sum, sh, sp];
        let c = u16_checksum16(array_as_slice(&words));
        proof {
            let ps = self.spec_pseudo();
            let hd = self.spec_header();
            let pl = self.spec_payload();
            assert(words@ =~= seq![self.pseudo_header_sum, sh, sp]);
            lemma_word_sum_three(self.pseudo_header_sum, sh, sp);
            lemma_byte_pair_sum_nonneg(ps);
            lemma_byte_pair_sum_nonneg(hd);
            lemma_byte_pair_sum_nonneg(pl);
            lemma_fold_sum3(byte_pair_sum(ps), byte_pair_sum(hd), byte_pair_sum(pl));
            lemma_byte_pair_sum_concat(hd, pl);
            lemma_byte_pair_sum_concat(ps, hd + pl);
            assert(ps + hd + pl =~= ps + (hd + pl));
        }
        c == 0
    }
}

/// Whether a UDP view reports integrity is a function of the covered bytes
/// alone: two views over the same pseudo-header, header and payload
/// concatenation agree, wherever their splits fall.
pub proof fn lemma_udp_integrity_from_bytes(a: UdpFrame, b: UdpFrame)
    requires
        a.spec_transport_bytes() == b.spec_transport_bytes(),
    ensures
        a.spec_has_integrity() == b.spec_has_integrity(),
{
}

} // verus!
