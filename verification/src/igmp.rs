//! IGMP v1/v2 view: a single 8-byte frame (type, max-response-time,
//! checksum, group address) with query/report/leave classification.

use vstd::prelude::*;
use vstd::slice::slice_subrange;
use vstd::string::StringExecFns;
use crate::DecodeError;
use crate::spec_be16;
use crate::be16;
use crate::addr::Ipv4Address;
use crate::checksum::checksum16_u8_spec;
use crate::checksum::u8_checksum16;
use crate::render::hex2;
use crate::render::push_hex2;
use crate::ipv4::Ipv4Frame;

verus! {

/// Classified IGMP message.
pub enum IgmpMsg {
    /// Type 0x11 with the unspecified group address; carries max response time.
    GeneralQuery(u8),
    /// Type 0x11 with a set group address; carries the address and max response time.
    SpecialQuery(Ipv4Address, u8),
    /// Type 0x12 or 0x16.
    MembershipReport(Ipv4Address),
    /// Type 0x17.
    LeaveReport(Ipv4Address),
    /// Any other type value, carried raw.
    Other(u8),
}

/// The rendering of each classified message.
pub open spec fn igmp_msg_display(m: IgmpMsg) -> Seq<char> {
    match m {
        IgmpMsg::GeneralQuery(_) => "General query"@,
        IgmpMsg::SpecialQuery(_, _) => "Special query"@,
        IgmpMsg::MembershipReport(_) => "Membership report"@,
        IgmpMsg::LeaveReport(_) => "Leave report"@,
        IgmpMsg::Other(code) => "Unknown message (0x"@ + hex2(code) + ")"@,
    }
}

impl IgmpMsg {
    /// Human-readable name of the message kind.
    pub fn display_string(&self) -> (s: String)
        ensures
            s@ == igmp_msg_display(*self),
    {
        match self {
            IgmpMsg::GeneralQuery(_) => String::from_str("General query"),
            IgmpMsg::SpecialQuery(_, _) => String::from_str("Special query"),
            IgmpMsg::MembershipReport(_) => String::from_str("Membership report"),
            IgmpMsg::LeaveReport(_) => String::from_str("Leave report"),
            IgmpMsg::Other(code) => {
                let mut s = String::from_str("Unknown message (0x");
                push_hex2(&mut s, *code);
                s.append(")");
                s
            },
        }
    }
}

/// Zero-copy view of an IGMP frame: the 8 bytes of the fixed layout.
pub struct IgmpFrame<'a> {
    bytes: &'a [u8],
}

impl<'a> IgmpFrame<'a> {
    pub closed spec fn spec_bytes(self) -> Seq<u8> {
        self.bytes@
    }

    pub open spec fn wf(self) -> bool {
        self.spec_bytes().len() == 8
    }

    pub open spec fn is_parse_of(self, b: Seq<u8>) -> bool {
        self.spec_bytes() == b.subrange(0, 8)
    }

    /// View the first 8 bytes of an IPv4 payload as an IGMP frame.
    pub fn from_ipv4(frame: Ipv4Frame<'a>) -> (r: Result<Self, DecodeError>)
        requires
            frame.wf(),
        ensures
            frame.spec_payload().len() >= 8 ==> (r matches Ok(f) && f.wf() && f.is_parse_of(
                frame.spec_payload(),
            )),
            frame.spec_payload().len() < 8 ==> r == Err::<Self, DecodeError>(
                DecodeError::BufferTooShort,
            ),
    {
        let payload = frame.payload();
        if payload.len() < 8 {
            return Err(DecodeError::BufferTooShort);
        }
        Ok(IgmpFrame { bytes: slice_subrange(payload, 0, 8) })
    }

    pub fn raw_header(&self) -> (r: &'a [u8])
        ensures
            r@ == self.spec_bytes(),
    {
        self.bytes
    }

    pub fn type_(&self) -> (r: u8)
        requires
            self.wf(),
        ensures
            r == self.spec_bytes()[0],
    {
        self.bytes[0]
    }

    /// Max response time, in tenths of a second.
    pub fn mrt(&self) -> (r: u8)
        requires
            self.wf(),
        ensures
            r == self.spec_bytes()[1],
    {
        self.bytes[1]
    }

    pub fn checksum(&self) -> (r: u16)
        requires
            self.wf(),
        ensures
            r == spec_be16(self.spec_bytes()[2], self.spec_bytes()[3]),
    {
        be16(self.bytes[2], self.bytes[3])
    }

    pub fn group_addr(&self) -> (r: Ipv4Address)
        requires
            self.wf(),
        ensures
            r.spec_octets() == self.spec_bytes().subrange(4, 8),
    {
        let r = Ipv4Address::from_octets(
            [self.bytes[4], self.bytes[5], self.bytes[6], self.bytes[7]],
        );
        proof {
            assert(r.spec_octets() =~= self.spec_bytes().subrange(4, 8));
        }
        r
    }

    /// The whole 8-byte frame checksums to zero.
    pub open spec fn spec_has_integrity(self) -> bool {
        checksum16_u8_spec(self.spec_bytes()) == 0
    }

    pub fn has_integrity(&self) -> (r: bool)
        requires
            self.wf(),
        ensures
            r == self.spec_has_integrity(),
    {
        u8_checksum16(self.bytes) == 0
    }

    /// Classify the frame: type 0x11 is a general query on the unspecified
    /// group address and a group-specific query otherwise; 0x12 and 0x16
    /// are membership reports; 0x17 is a leave report; anything else is
    /// surfaced raw.
    pub fn get_msg(&self) -> (r: IgmpMsg)
        requires
            self.wf(),
        ensures
            ({
                let b = self.spec_bytes();
                let zero = b.subrange(4, 8) == seq![0u8, 0u8, 0u8, 0u8];
                &&& (b[0] == 0x11 && zero ==> (r matches IgmpMsg::GeneralQuery(m) && m == b[1]))
                &&& (b[0] == 0x11 && !zero ==> (r matches IgmpMsg::SpecialQuery(a, m)
                    && a.spec_octets() == b.subrange(4, 8) && m == b[1]))
                &&& (b[0] == 0x12 || b[0] == 0x16 ==> (r matches IgmpMsg::MembershipReport(a)
                    && a.spec_octets() == b.subrange(4, 8)))
                &&& (b[0] == 0x17 ==> (r matches IgmpMsg::LeaveReport(a) && a.spec_octets()
                    == b.subrange(4, 8)))
                &&& (b[0] != 0x11 && b[0] != 0x12 && b[0] != 0x16 && b[0] != 0x17 ==> (r matches
                    IgmpMsg::Other(v) && v == b[0]))
            }),
    {
        let t = self.type_();
        if t == 0x11 {
            let addr = self.group_addr();
            if !addr.is_unspecified() {
                IgmpMsg::SpecialQuery(addr, self.mrt())
            } else {
                IgmpMsg::GeneralQuery(self.mrt())
            }
        } else if t == 0x12 || t == 0x16 {
            IgmpMsg::MembershipReport(self.group_addr())
        } else if t == 0x17 {
            IgmpMsg::LeaveReport(self.group_addr())
        } else {
            IgmpMsg::Other(t)
        }
    }
}

} // verus!
