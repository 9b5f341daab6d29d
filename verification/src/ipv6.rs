//! IPv6 header view (RFC 8200): fixed 40-byte header followed by the
//! payload. The constructor rejects a version nibble other than 6.

use vstd::prelude::*;
use vstd::slice::slice_subrange;
use crate::DecodeError;
use crate::spec_be16;
use crate::be16;
use crate::addr::Ipv6Address;
use crate::narrow::U4;
use crate::narrow::U20;
use crate::UnknownFrame;
use crate::ipv4::IpProtocol;
use crate::tcp::TcpFrame;
use crate::tcp::tcp_parsable;
use crate::tcp::tcp_parse_err;
use crate::udp::UdpFrame;
use crate::pseudo::ipv6_pseudo;

verus! {

/// The bytes can carry an IPv6 header: room for the fixed header and the
/// version nibble is 6.
pub open spec fn ipv6_parsable(b: Seq<u8>) -> bool {
    &&& b.len() >= 40
    &&& b[0] as int / 16 == 6
}

/// The failure reported for bytes that cannot carry an IPv6 header.
pub open spec fn ipv6_parse_err(b: Seq<u8>) -> DecodeError {
    if b.len() < 40 {
        DecodeError::BufferTooShort
    } else {
        DecodeError::InvalidHeader
    }
}

/// Zero-copy view of an IPv6 packet: fixed 40-byte header and payload.
pub struct Ipv6Frame<'a> {
    header: &'a [u8],
    payload: &'a [u8],
}

impl<'a> Ipv6Frame<'a> {
    pub closed spec fn spec_header(self) -> Seq<u8> {
        self.header@
    }

    pub closed spec fn spec_payload(self) -> Seq<u8> {
        self.payload@
    }

    /// Structural invariant of a decoded view.
    pub open spec fn wf(self) -> bool {
        &&& self.spec_header().len() == 40
        &&& self.spec_header()[0] as int / 16 == 6
        &&& self.spec_payload().len() < 0x1_0000_0000
    }

    /// The view splits the given bytes at the fixed 40-byte boundary.
    pub open spec fn is_parse_of(self, b: Seq<u8>) -> bool {
        &&& self.spec_header() == b.subrange(0, 40)
        &&& self.spec_payload() == b.subrange(40, b.len() as int)
    }

    /// Split a byte slice into an IPv6 view, reporting exactly why the
    /// bytes cannot carry one.
    pub fn from_bytes(slice: &'a [u8]) -> (r: Result<Self, DecodeError>)
        requires
            slice@.len() < 0x1_0000_0000,
        ensures
            ipv6_parsable(slice@) ==> (r matches Ok(f) && f.wf() && f.is_parse_of(slice@)),
            !ipv6_parsable(slice@) ==> r == Err::<Self, DecodeError>(ipv6_parse_err(slice@)),
    {
        if slice.len() < 40 {
            return Err(DecodeError::BufferTooShort);
        }
        if slice[0] / 16 != 6 {
            return Err(DecodeError::InvalidHeader);
        }
        let header = slice_subrange(slice, 0, 40);
        let payload = slice_subrange(slice, 40, slice.len());
        Ok(Ipv6Frame { header, payload })
    }

    pub fn raw_header(&self) -> (r: &'a [u8])
        ensures
            r@ == self.spec_header(),
    {
        self.header
    }

    /// Version nibble (always 6 for a well-formed view).
    pub fn ver(&self) -> (r: U4)
        requires
            self.wf(),
        ensures
            r.spec_value() == self.spec_header()[0] as int / 16,
            r.spec_value() == 6,
    {
        U4::new(self.header[0] / 16)
    }

    /// Traffic class: low nibble of byte 0 followed by high nibble of byte 1.
    pub fn traffic_class(&self) -> (r: u8)
        requires
            self.wf(),
        ensures
            r == 16 * (self.spec_header()[0] as int % 16) + self.spec_header()[1] as int / 16,
    {
        16 * (self.header[0] % 16) + self.header[1] / 16
    }

    /// 20-bit flow label: low nibble of byte 1 followed by bytes 2 and 3.
    pub fn flow_label(&self) -> (r: U20)
        requires
            self.wf(),
        ensures
            r.spec_value() == 0x1_0000 * (self.spec_header()[1] as int % 16) + 256
                * self.spec_header()[2] + self.spec_header()[3],
    {
        U20::new(
            0x1_0000 * ((self.header[1] % 16) as u32) + 256 * (self.header[2] as u32)
                + self.header[3] as u32,
        )
    }

    /// The payload length the header declares (not necessarily the length
    /// of the bytes that follow in a truncated capture).
    pub fn payload_len(&self) -> (r: u16)
        requires
            self.wf(),
        ensures
            r == spec_be16(self.spec_header()[4], self.spec_header()[5]),
    {
        be16(self.header[4], self.header[5])
    }

    pub fn next_header(&self) -> (r: u8)
        requires
            self.wf(),
        ensures
            r == self.spec_header()[6],
    {
        self.header[6]
    }

    pub fn hop_limit(&self) -> (r: u8)
        requires
            self.wf(),
        ensures
            r == self.spec_header()[7],
    {
        self.header[7]
    }

    pub fn src_addr(&self) -> (r: Ipv6Address)
        requires
            self.wf(),
        ensures
            r.spec_octets() == self.spec_header().subrange(8, 24),
    {
        let h = self.header;
        let r = Ipv6Address::from_octets(
            [
                h[8],
                h[9],
                h[10],
                h[11],
                h[12],
                h[13],
                h[14],
                h[15],
                h[16],
                h[17],
                h[18],
                h[19],
                h[20],
                h[21],
                h[22],
                h[23],
            ],
        );
        proof {
            assert(r.spec_octets() =~= self.spec_header().subrange(8, 24));
        }
        r
    }

    pub fn dest_addr(&self) -> (r: Ipv6Address)
        requires
            self.wf(),
        ensures
            r.spec_octets() == self.spec_header().subrange(24, 40),
    {
        let h = self.header;
        let r = Ipv6Address::from_octets(
            [
                h[24],
                h[25],
                h[26],
                h[27],
                h[28],
                h[29],
                h[30],
                h[31],
                h[32],
                h[33],
                h[34],
                h[35],
                h[36],
                h[37],
                h[38],
                h[39],
            ],
        );
        proof {
            assert(r.spec_octets() =~= self.spec_header().subrange(24, 40));
        }
        r
    }

    pub fn payload(&self) -> (r: &'a [u8])
        ensures
            r@ == self.spec_payload(),
    {
        self.payload
    }

    /// Hand the payload to the transport protocol the next-header byte
    /// names, consuming this view. The decoder follows TCP and UDP only;
    /// any other next-header value is surfaced raw with the untouched
    /// payload.
    pub fn try_next_header(self) -> (r: Result<IpProtocol<'a>, DecodeError>)
        requires
            self.wf(),
        ensures
            ({
                let p = self.spec_payload();
                let next = self.spec_header()[6];
                &&& (next == 0x06 && tcp_parsable(p) ==> (r matches Ok(v) && v matches
                    IpProtocol::Tcp(f) && f.wf() && f.is_parse_of(p) && f.spec_pseudo()
                    == ipv6_pseudo(self.spec_header(), 0x06, p.len() as int)))
                &&& (next == 0x06 && !tcp_parsable(p) ==> r == Err::<IpProtocol<'a>, DecodeError>(
                    tcp_parse_err(p),
                ))
                &&& (next == 0x11 && p.len() >= 8 ==> (r matches Ok(v) && v matches
                    IpProtocol::Udp(f) && f.wf() && f.is_parse_of(p) && f.spec_pseudo()
                    == ipv6_pseudo(self.spec_header(), 0x11, p.len() as int)))
                &&& (next == 0x11 && p.len() < 8 ==> r == Err::<IpProtocol<'a>, DecodeError>(
                    DecodeError::BufferTooShort,
                ))
                &&& (next != 0x06 && next != 0x11 ==> (r matches Ok(v) && v matches
                    IpProtocol::Other(u) && u.spec_type_id() == next && u.spec_payload() == p))
            }),
    {
        match self.next_header() {
            0x06 => match TcpFrame::from_ipv6(self) {
                Ok(f) => Ok(IpProtocol::Tcp(f)),
                Err(e) => Err(e),
            },
            0x11 => match UdpFrame::from_ipv6(self) {
                Ok(f) => Ok(IpProtocol::Udp(f)),
                Err(e) => Err(e),
            },
            other => Ok(IpProtocol::Other(UnknownFrame::from_u8_slice(self.payload, other as u16))),
        }
    }
}

} // verus!
