//! Ethernet II view: 14-byte header split off the captured bytes, source
//! and destination hardware addresses, and EtherType dispatch to the
//! network layer (with IEEE 802.3 length-field semantics for values up to
//! 1500).

use vstd::prelude::*;
use vstd::slice::slice_subrange;
use vstd::string::StringExecFns;
use crate::DecodeError;
use crate::UnknownFrame;
use crate::spec_be16;
use crate::be16;
use crate::hwaddr::HwAddr;
use crate::render::hex4;
use crate::render::push_hex4;
use crate::ipv4::Ipv4Frame;
use crate::ipv4::ipv4_parsable;
use crate::ipv4::ipv4_parse_err;
use crate::ipv6::Ipv6Frame;
use crate::ipv6::ipv6_parsable;
use crate::ipv6::ipv6_parse_err;
use crate::arp::ArpFrame;
use crate::arp::arp_parsable;
use crate::llc::IeeeLlcFrame;
use crate::llc::llc_parsable;

verus! {

/// What the EtherType field selects: a network-layer view borrowing the
/// same buffer, one of the IEEE 802.3 length-field classes, or a raw
/// carrier for an unrecognized type.
pub enum EtherType<'a> {
    Ipv4(Ipv4Frame<'a>),
    Ipv6(Ipv6Frame<'a>),
    Arp(ArpFrame<'a>),
    IeeeLlc(IeeeLlcFrame<'a>),
    IeeeSnap,
    NovellIeee,
    Other(UnknownFrame<'a>),
}

/// The rendering of each classification.
pub open spec fn ether_type_display(e: EtherType) -> Seq<char> {
    match e {
        EtherType::Ipv4(_) => "IPv4 (0x0800)"@,
        EtherType::Ipv6(_) => "IPv6 (0x86DD)"@,
        EtherType::Arp(_) => "ARP (0x0806)"@,
        EtherType::IeeeLlc(_) => "IEEE 802.2 LLC (< 1500)"@,
        EtherType::IeeeSnap => "IEEE 802.2 SNAP (< 1500, payload begins with 0xAAAA)"@,
        EtherType::NovellIeee => "Novell raw IEEE 802.3 (< 1500, payload begins with 0xFFFF)"@,
        EtherType::Other(u) => "Other (0x"@ + hex4(u.spec_type_id()) + ")"@,
    }
}

impl<'a> EtherType<'a> {
    /// Human-readable classification name and code.
    pub fn display_string(&self) -> (s: String)
        ensures
            s@ == ether_type_display(*self),
    {
        match self {
            EtherType::Ipv4(_) => String::from_str("IPv4 (0x0800)"),
            EtherType::Ipv6(_) => String::from_str("IPv6 (0x86DD)"),
            EtherType::Arp(_) => String::from_str("ARP (0x0806)"),
            EtherType::IeeeLlc(_) => String::from_str("IEEE 802.2 LLC (< 1500)"),
            EtherType::IeeeSnap => String::from_str(
                "IEEE 802.2 SNAP (< 1500, payload begins with 0xAAAA)",
            ),
            EtherType::NovellIeee => String::from_str(
                "Novell raw IEEE 802.3 (< 1500, payload begins with 0xFFFF)",
            ),
            EtherType::Other(u) => {
                let mut s = String::from_str("Other (0x");
                push_hex4(&mut s, u.type_id());
                s.append(")");
                s
            },
        }
    }
}

/// Zero-copy view of an Ethernet II frame: 14-byte header and payload.
pub struct EthernetFrame<'a> {
    header: &'a [u8],
    payload: &'a [u8],
}

impl<'a> EthernetFrame<'a> {
    pub closed spec fn spec_header(self) -> Seq<u8> {
        self.header@
    }

    pub closed spec fn spec_payload(self) -> Seq<u8> {
        self.payload@
    }

    pub open spec fn wf(self) -> bool {
        &&& self.spec_header().len() == 14
        &&& self.spec_payload().len() < 0x1_0000_0000
    }

    /// The EtherType (or IEEE 802.3 length) field.
    pub open spec fn spec_ether_type(self) -> int {
        spec_be16(self.spec_header()[12], self.spec_header()[13])
    }

    /// Split captured bytes into an Ethernet II view: 14-byte header,
    /// remainder payload.
    pub fn from_bytes(slice: &'a [u8]) -> (r: Result<Self, DecodeError>)
        requires
            slice@.len() < 0x1_0000_0000,
        ensures
            slice@.len() >= 14 ==> (r matches Ok(f) && f.wf() && f.spec_header() == slice@.subrange(
                0,
                14,
            ) && f.spec_payload() == slice@.subrange(14, slice@.len() as int)),
            slice@.len() < 14 ==> r == Err::<Self, DecodeError>(DecodeError::BufferTooShort),
    {
        if slice.len() < 14 {
            return Err(DecodeError::BufferTooShort);
        }
        let header = slice_subrange(slice, 0, 14);
        let payload = slice_subrange(slice, 14, slice.len());
        Ok(EthernetFrame { header, payload })
    }

    /// Entry point from a capture source: only link-layer type 1
    /// (Ethernet II) is recognized; any other discriminant is an unknown
    /// link type.
    pub fn from_link(slice: &'a [u8], link_type: u16) -> (r: Result<Self, DecodeError>)
        requires
            slice@.len() < 0x1_0000_0000,
        ensures
            link_type != 1 ==> r == Err::<Self, DecodeError>(DecodeError::UnknownLinkType),
            link_type == 1 && slice@.len() >= 14 ==> (r matches Ok(f) && f.wf() && f.spec_header()
                == slice@.subrange(0, 14) && f.spec_payload() == slice@.subrange(
                14,
                slice@.len() as int,
            )),
            link_type == 1 && slice@.len() < 14 ==> r == Err::<Self, DecodeError>(
                DecodeError::BufferTooShort,
            ),
    {
        if link_type != 1 {
            return Err(DecodeError::UnknownLinkType);
        }
        Self::from_bytes(slice)
    }

    /// Destination hardware address: wire order places it first.
    pub fn dest_addr(&self) -> (r: HwAddr)
        requires
            self.wf(),
        ensures
            r.spec_octets() == self.spec_header().subrange(0, 6),
    {
        let r = HwAddr::from_slice(self.header);
        proof {
            assert(self.spec_header().subrange(0, 6) =~= r.spec_octets());
        }
        r
    }

    /// Source hardware address, from header bytes 6 through 11.
    pub fn src_addr(&self) -> (r: HwAddr)
        requires
            self.wf(),
        ensures
            r.spec_octets() == self.spec_header().subrange(6, 12),
    {
        let r = HwAddr::from_slice(slice_subrange(self.header, 6, 12));
        proof {
            assert(self.spec_header().subrange(6, 12).subrange(0, 6) =~= self.spec_header()
                .subrange(6, 12));
        }
        r
    }

    pub fn ether_type(&self) -> (r: u16)
        requires
            self.wf(),
        ensures
            r == self.spec_ether_type(),
    {
        be16(self.header[12], self.header[13])
    }

    pub fn payload(&self) -> (r: &'a [u8])
        ensures
            r@ == self.spec_payload(),
    {
        self.payload
    }

    /// Dispatch on the EtherType, consuming this view: 0x0800, 0x86DD and
    /// 0x0806 select IPv4, IPv6 and ARP; a value of at most 1500 is an
    /// IEEE 802.3 length field, classified by the first two payload bytes
    /// (0xFFFF raw Novell, 0xAAAA SNAP, anything else IEEE 802.2 LLC);
    /// everything else is surfaced raw.
    pub fn try_next_header(self) -> (r: Result<EtherType<'a>, DecodeError>)
        requires
            self.wf(),
        ensures
            ({
                let et = self.spec_ether_type();
                let p = self.spec_payload();
                &&& (et == 0x0800 && ipv4_parsable(p) ==> (r matches Ok(v) && v matches
                    EtherType::Ipv4(f) && f.wf() && f.is_parse_of(p)))
                &&& (et == 0x0800 && !ipv4_parsable(p) ==> r == Err::<EtherType<'a>, DecodeError>(
                    ipv4_parse_err(p),
                ))
                &&& (et == 0x86DD && ipv6_parsable(p) ==> (r matches Ok(v) && v matches
                    EtherType::Ipv6(f) && f.wf() && f.is_parse_of(p)))
                &&& (et == 0x86DD && !ipv6_parsable(p) ==> r == Err::<EtherType<'a>, DecodeError>(
                    ipv6_parse_err(p),
                ))
                &&& (et == 0x0806 && arp_parsable(p) ==> (r matches Ok(v) && v matches
                    EtherType::Arp(f) && f.wf() && f.spec_bytes() == p))
                &&& (et == 0x0806 && !arp_parsable(p) ==> r == Err::<EtherType<'a>, DecodeError>(
                    DecodeError::BufferTooShort,
                ))
                &&& (et <= 1500 && p.len() < 2 ==> r == Err::<EtherType<'a>, DecodeError>(
                    DecodeError::BufferTooShort,
                ))
                &&& (et <= 1500 && p.len() >= 2 && spec_be16(p[0], p[1]) == 0xFFFF ==> (r matches
                    Ok(v) && v matches EtherType::NovellIeee))
                &&& (et <= 1500 && p.len() >= 2 && spec_be16(p[0], p[1]) == 0xAAAA ==> (r matches
                    Ok(v) && v matches EtherType::IeeeSnap))
                &&& (et <= 1500 && p.len() >= 2 && spec_be16(p[0], p[1]) != 0xFFFF && spec_be16(
                    p[0],
                    p[1],
                ) != 0xAAAA && llc_parsable(p) ==> (r matches Ok(v) && v matches EtherType::IeeeLlc(
                    f,
                ) && f.wf() && f.is_parse_of(p)))
                &&& (et <= 1500 && p.len() >= 2 && spec_be16(p[0], p[1]) != 0xFFFF && spec_be16(
                    p[0],
                    p[1],
                ) != 0xAAAA && !llc_parsable(p) ==> r == Err::<EtherType<'a>, DecodeError>(
                    DecodeError::BufferTooShort,
                ))
                &&& (et > 1500 && et != 0x0800 && et != 0x86DD && et != 0x0806 ==> (r matches Ok(v)
                    && v matches EtherType::Other(u) && u.spec_type_id() == et && u.spec_payload()
                    == p))
            }),
    {
        let et = self.ether_type();
        if et == 0x0800 {
            match Ipv4Frame::from_bytes(self.payload) {
                Ok(f) => Ok(EtherType::Ipv4(f)),
                Err(e) => Err(e),
            }
        } else if et == 0x86DD {
            match Ipv6Frame::from_bytes(self.payload) {
                Ok(f) => Ok(EtherType::Ipv6(f)),
                Err(e) => Err(e),
            }
        } else if et == 0x0806 {
            match ArpFrame::from_bytes(self.payload) {
                Ok(f) => Ok(EtherType::Arp(f)),
                Err(e) => Err(e),
            }
        } else if et <= 1500 {
            if self.payload.len() < 2 {
                return Err(DecodeError::BufferTooShort);
            }
            let id = be16(self.payload[0], self.payload[1]);
            if id == 0xFFFF {
                Ok(EtherType::NovellIeee)
            } else if id == 0xAAAA {
                Ok(EtherType::IeeeSnap)
            } else {
                match IeeeLlcFrame::from_bytes(self.payload) {
                    Ok(f) => Ok(EtherType::IeeeLlc(f)),
                    Err(e) => Err(e),
                }
            }
        } else {
            Ok(EtherType::Other(UnknownFrame::from_u8_slice(self.payload, et)))
        }
    }
}

} // verus!
