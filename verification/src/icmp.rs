//! ICMP view (RFC 792 and extensions): 8-byte header plus payload, with
//! the type/code taxonomy decoded into typed sub-messages.

use vstd::prelude::*;
use vstd::slice::slice_subrange;
use vstd::string::StringExecFns;
use vstd::array::array_as_slice;
use crate::DecodeError;
use crate::spec_be16;
use crate::be16;
use crate::spec_be32;
use crate::be32;
use crate::addr::Ipv4Address;
use crate::addr::dotted_quad;
use crate::checksum::checksum16_u8_spec;
use crate::checksum::byte_pair_sum;
use crate::checksum::u8_slice_to_sum16;
use crate::checksum::u16_checksum16;
use crate::checksum::lemma_byte_pair_sum_concat;
use crate::checksum::lemma_byte_pair_sum_nonneg;
use crate::checksum::lemma_ones_fold_add;
use crate::checksum::lemma_word_sum_two;
use crate::render::dec_u8;
use crate::render::push_dec_u8;
use crate::ipv4::Ipv4Frame;

verus! {

/// Reason carried by a Destination Unreachable (type 3) message; code 4
/// additionally carries the next-hop MTU.
#[derive(Clone, Copy, Debug, PartialEq, Eq, Structural)]
pub enum DestUnreachable {
    DestNetUnreachable,
    DestHostUnreachable,
    DestProtocolUnreachable,
    DestPortUnreachable,
    FragReq(u16),
    SrcRouteFailed,
    DestNetUnk,
    DestHostUnk,
    SrcHostIsolated,
    NetAdminProhib,
    HostAdminProhib,
    NetUnreachableToS,
    HostUnreachableToS,
    CommAdminProhib,
    HostPrecViolation,
    PrecCutoff,
}

/// The sub-message selected by a Destination Unreachable code byte.
pub open spec fn dest_unreachable_of(code: u8, mtu: u16) -> DestUnreachable
    recommends
        code < 16,
{
    if code == 0 {
        DestUnreachable::DestNetUnreachable
    } else if code == 1 {
        DestUnreachable::DestHostUnreachable
    } else if code == 2 {
        DestUnreachable::DestProtocolUnreachable
    } else if code == 3 {
        DestUnreachable::DestPortUnreachable
    } else if code == 4 {
        DestUnreachable::FragReq(mtu)
    } else if code == 5 {
        DestUnreachable::SrcRouteFailed
    } else if code == 6 {
        DestUnreachable::DestNetUnk
    } else if code == 7 {
        DestUnreachable::DestHostUnk
    } else if code == 8 {
        DestUnreachable::SrcHostIsolated
    } else if code == 9 {
        DestUnreachable::NetAdminProhib
    } else if code == 10 {
        DestUnreachable::HostAdminProhib
    } else if code == 11 {
        DestUnreachable::NetUnreachableToS
    } else if code == 12 {
        DestUnreachable::HostUnreachableToS
    } else if code == 13 {
        DestUnreachable::CommAdminProhib
    } else if code == 14 {
        DestUnreachable::HostPrecViolation
    } else {
        DestUnreachable::PrecCutoff
    }
}

impl DestUnreachable {
    /// Decode from an ICMP header: the code byte selects the reason, and
    /// code 4 reads the 16-bit MTU at header bytes 6 and 7.
    pub fn from_header(header: &[u8]) -> (r: Self)
        requires
            header@.len() >= 8,
            header@[1] < 16,
        ensures
            r == dest_unreachable_of(header@[1], spec_be16(header@[6], header@[7]) as u16),
    {
        match header[1] {
            0 => Self::DestNetUnreachable,
            1 => Self::DestHostUnreachable,
            2 => Self::DestProtocolUnreachable,
            3 => Self::DestPortUnreachable,
            4 => Self::FragReq(be16(header[6], header[7])),
            5 => Self::SrcRouteFailed,
            6 => Self::DestNetUnk,
            7 => Self::DestHostUnk,
            8 => Self::SrcHostIsolated,
            9 => Self::NetAdminProhib,
            10 => Self::HostAdminProhib,
            11 => Self::NetUnreachableToS,
            12 => Self::HostUnreachableToS,
            13 => Self::CommAdminProhib,
            14 => Self::HostPrecViolation,
            _ => Self::PrecCutoff,
        }
    }

    /// Human-readable reason.
    pub fn display_string(&self) -> (s: String)
        ensures
            s@ == dest_unreachable_display(*self),
    {
        match self {
            Self::DestNetUnreachable => String::from_str("Destination network unreachable"),
            Self::DestHostUnreachable => String::from_str("Destination host unreachable"),
            Self::DestProtocolUnreachable => String::from_str("Destination protocol unreachable"),
            Self::DestPortUnreachable => String::from_str("Destination port unreachable"),
            Self::FragReq(_) => String::from_str("Fragmentation required, and DF flag set"),
            Self::SrcRouteFailed => String::from_str("Source route failed"),
            Self::DestNetUnk => String::from_str("Destination network unknown"),
            Self::DestHostUnk => String::from_str("Destination host unknown"),
            Self::SrcHostIsolated => String::from_str("Source host isolated"),
            Self::NetAdminProhib => String::from_str("Network administratively prohibited"),
            Self::HostAdminProhib => String::from_str("Host administratively prohibited"),
            Self::NetUnreachableToS => String::from_str("Network unreachable for ToS"),
            Self::HostUnreachableToS => String::from_str("Host unreachable for ToS"),
            Self::CommAdminProhib => String::from_str("Communication administratively prohibited"),
            Self::HostPrecViolation => String::from_str("Host Precedence Violation"),
            Self::PrecCutoff => String::from_str("Precedence cutoff in effect"),
        }
    }
}

/// The rendering of each Destination Unreachable reason.
pub open spec fn dest_unreachable_display(d: DestUnreachable) -> Seq<char> {
    match d {
        DestUnreachable::DestNetUnreachable => "Destination network unreachable"@,
        DestUnreachable::DestHostUnreachable => "Destination host unreachable"@,
        DestUnreachable::DestProtocolUnreachable => "Destination protocol unreachable"@,
        DestUnreachable::DestPortUnreachable => "Destination port unreachable"@,
        DestUnreachable::FragReq(_) => "Fragmentation required, and DF flag set"@,
        DestUnreachable::SrcRouteFailed => "Source route failed"@,
        DestUnreachable::DestNetUnk => "Destination network unknown"@,
        DestUnreachable::DestHostUnk => "Destination host unknown"@,
        DestUnreachable::SrcHostIsolated => "Source host isolated"@,
        DestUnreachable::NetAdminProhib => "Network administratively prohibited"@,
        DestUnreachable::HostAdminProhib => "Host administratively prohibited"@,
        DestUnreachable::NetUnreachableToS => "Network unreachable for ToS"@,
        DestUnreachable::HostUnreachableToS => "Host unreachable for ToS"@,
        DestUnreachable::CommAdminProhib => "Communication administratively prohibited"@,
        DestUnreachable::HostPrecViolation => "Host Precedence Violation"@,
        DestUnreachable::PrecCutoff => "Precedence cutoff in effect"@,
    }
}

/// Scope of a Redirect (type 5) message.
#[derive(Clone, Copy, Debug, PartialEq, Eq, Structural)]
pub enum RedirectType {
    RedirectData4Net,
    RedirectData4Host,
    RedirectData4ToSNet,
    RedirectData4ToSHost,
}

/// The scope selected by a Redirect code byte.
pub open spec fn redirect_type_of(code: u8) -> RedirectType
    recommends
        code < 4,
{
    if code == 0 {
        RedirectType::RedirectData4Net
    } else if code == 1 {
        RedirectType::RedirectData4Host
    } else if code == 2 {
        RedirectType::RedirectData4ToSNet
    } else {
        RedirectType::RedirectData4ToSHost
    }
}

impl RedirectType {
    pub fn from_u8(input: u8) -> (r: Self)
        requires
            input < 4,
        ensures
            r == redirect_type_of(input),
    {
        match input {
            0 => Self::RedirectData4Net,
            1 => Self::RedirectData4Host,
            2 => Self::RedirectData4ToSNet,
            _ => Self::RedirectData4ToSHost,
        }
    }
}

/// A Redirect message: the scope and the gateway address to prefer.
pub struct RedirectMsg {
    kind: RedirectType,
    addr: Ipv4Address,
}

impl RedirectMsg {
    pub closed spec fn spec_kind(self) -> RedirectType {
        self.kind
    }

    pub closed spec fn spec_addr(self) -> Ipv4Address {
        self.addr
    }

    pub fn from(kind: u8, addr: Ipv4Address) -> (r: RedirectMsg)
        requires
            kind < 4,
        ensures
            r.spec_kind() == redirect_type_of(kind),
            r.spec_addr() == addr,
    {
        RedirectMsg { kind: RedirectType::from_u8(kind), addr }
    }

    pub fn kind(&self) -> (r: RedirectType)
        ensures
            r == self.spec_kind(),
    {
        self.kind
    }

    pub fn addr(&self) -> (r: Ipv4Address)
        ensures
            r == self.spec_addr(),
    {
        self.addr
    }

    /// Human-readable scope and gateway address.
    pub fn display_string(&self) -> (s: String)
        ensures
            s@ == redirect_msg_display(*self),
    {
        let mut s = match self.kind {
            RedirectType::RedirectData4Net => String::from_str(
                "Redirect Datagram for the Network to address ",
            ),
            RedirectType::RedirectData4Host => String::from_str(
                "Redirect Datagram for the Host to address ",
            ),
            RedirectType::RedirectData4ToSNet => String::from_str(
                "Redirect Datagram for the ToS & network to address ",
            ),
            RedirectType::RedirectData4ToSHost => String::from_str(
                "Redirect Datagram for the ToS & host to address ",
            ),
        };
        let addr_str = self.addr.display_string();
        s.append(addr_str.as_str());
        s
    }
}

/// The rendering of a Redirect message.
pub open spec fn redirect_msg_display(m: RedirectMsg) -> Seq<char> {
    let quad = dotted_quad(
        m.spec_addr().spec_octets()[0],
        m.spec_addr().spec_octets()[1],
        m.spec_addr().spec_octets()[2],
        m.spec_addr().spec_octets()[3],
    );
    match m.spec_kind() {
        RedirectType::RedirectData4Net => "Redirect Datagram for the Network to address "@ + quad,
        RedirectType::RedirectData4Host => "Redirect Datagram for the Host to address "@ + quad,
        RedirectType::RedirectData4ToSNet => "Redirect Datagram for the ToS & network to address "@
            + quad,
        RedirectType::RedirectData4ToSHost => "Redirect Datagram for the ToS & host to address "@
            + quad,
    }
}

/// Reason carried by a Time Exceeded (type 11) message.
#[derive(Clone, Copy, Debug, PartialEq, Eq, Structural)]
pub enum TimeExceeded {
    TTLExpired,
    FragReassemblyTimeout,
}

/// The sub-reason selected by a Time Exceeded code byte.
pub open spec fn time_exceeded_of(code: u8) -> TimeExceeded
    recommends
        code < 2,
{
    if code == 0 {
        TimeExceeded::TTLExpired
    } else {
        TimeExceeded::FragReassemblyTimeout
    }
}

/// The rendering of each Time Exceeded reason.
pub open spec fn time_exceeded_display(t: TimeExceeded) -> Seq<char> {
    match t {
        TimeExceeded::TTLExpired => "TTL expired in transit"@,
        TimeExceeded::FragReassemblyTimeout => "Fragment reassembly time exceeded"@,
    }
}

impl TimeExceeded {
    pub fn from_u8(input: u8) -> (r: Self)
        requires
            input < 2,
        ensures
            r == time_exceeded_of(input),
    {
        if input == 0 {
            Self::TTLExpired
        } else {
            Self::FragReassemblyTimeout
        }
    }

    pub fn display_string(&self) -> (s: String)
        ensures
            s@ == time_exceeded_display(*self),
    {
        match self {
            Self::TTLExpired => String::from_str("TTL expired in transit"),
            Self::FragReassemblyTimeout => String::from_str("Fragment reassembly time exceeded"),
        }
    }
}

/// Reason carried by a Parameter Problem (type 12) message.
#[derive(Clone, Copy, Debug, PartialEq, Eq, Structural)]
pub enum BadIpHeader {
    PntIndicatesError,
    MissingOpt,
    BadLen,
}

/// The sub-reason selected by a Parameter Problem code byte.
pub open spec fn bad_ip_header_of(code: u8) -> BadIpHeader
    recommends
        code < 3,
{
    if code == 0 {
        BadIpHeader::PntIndicatesError
    } else if code == 1 {
        BadIpHeader::MissingOpt
    } else {
        BadIpHeader::BadLen
    }
}

/// The rendering of each Parameter Problem reason.
pub open spec fn bad_ip_header_display(b: BadIpHeader) -> Seq<char> {
    match b {
        BadIpHeader::PntIndicatesError => "Pointer indicates the error"@,
        BadIpHeader::MissingOpt => "Missing a required option"@,
        BadIpHeader::BadLen => "Bad length"@,
    }
}

impl BadIpHeader {
    pub fn from_u8(input: u8) -> (r: Self)
        requires
            input < 3,
        ensures
            r == bad_ip_header_of(input),
    {
        if input == 0 {
            Self::PntIndicatesError
        } else if input == 1 {
            Self::MissingOpt
        } else {
            Self::BadLen
        }
    }

    pub fn display_string(&self) -> (s: String)
        ensures
            s@ == bad_ip_header_display(*self),
    {
        match self {
            Self::PntIndicatesError => String::from_str("Pointer indicates the error"),
            Self::MissingOpt => String::from_str("Missing a required option"),
            Self::BadLen => String::from_str("Bad length"),
        }
    }
}

/// Timestamp (type 13) message: identifier, sequence number, and the
/// originate timestamp in milliseconds since midnight UT.
#[derive(Clone, Copy, Debug, PartialEq, Eq, Structural)]
pub struct Timestamp {
    id: u16,
    seq_num: u16,
    originate_timestamp: u32,
}

impl Timestamp {
    pub closed spec fn spec_id(self) -> u16 {
        self.id
    }

    pub closed spec fn spec_seq_num(self) -> u16 {
        self.seq_num
    }

    pub closed spec fn spec_originate(self) -> u32 {
        self.originate_timestamp
    }

    pub fn id(&self) -> (r: u16)
        ensures
            r == self.spec_id(),
    {
        self.id
    }

    pub fn seq_num(&self) -> (r: u16)
        ensures
            r == self.spec_seq_num(),
    {
        self.seq_num
    }

    /// Originate timestamp: milliseconds since midnight UT.
    pub fn originate_timestamp(&self) -> (r: u32)
        ensures
            r == self.spec_originate(),
    {
        self.originate_timestamp
    }

    /// Read identifier and sequence from the header, the originate stamp
    /// from the first four payload bytes.
    pub fn from(header: &[u8], data: &[u8]) -> (r: Self)
        requires
            header@.len() >= 8,
            data@.len() >= 4,
        ensures
            r.spec_id() == spec_be16(header@[4], header@[5]),
            r.spec_seq_num() == spec_be16(header@[6], header@[7]),
            r.spec_originate() == spec_be32(data@[0], data@[1], data@[2], data@[3]),
    {
        Self {
            id: be16(header[4], header[5]),
            seq_num: be16(header[6], header[7]),
            originate_timestamp: be32(data[0], data[1], data[2], data[3]),
        }
    }
}

/// Timestamp Reply (type 14) message: identifier, sequence number, and the
/// originate, receive and transmit stamps in milliseconds since midnight UT.
#[derive(Clone, Copy, Debug, PartialEq, Eq, Structural)]
pub struct TimestampReply {
    id: u16,
    seq_num: u16,
    originate_timestamp: u32,
    receive_timestamp: u32,
    transmit_timestamp: u32,
}

impl TimestampReply {
    pub closed spec fn spec_id(self) -> u16 {
        self.id
    }

    pub closed spec fn spec_seq_num(self) -> u16 {
        self.seq_num
    }

    pub closed spec fn spec_originate(self) -> u32 {
        self.originate_timestamp
    }

    pub closed spec fn spec_receive(self) -> u32 {
        self.receive_timestamp
    }

    pub closed spec fn spec_transmit(self) -> u32 {
        self.transmit_timestamp
    }

    pub fn id(&self) -> (r: u16)
        ensures
            r == self.spec_id(),
    {
        self.id
    }

    pub fn seq_num(&self) -> (r: u16)
        ensures
            r == self.spec_seq_num(),
    {
        self.seq_num
    }

    /// Originate timestamp: milliseconds since midnight UT.
    pub fn originate_timestamp(&self) -> (r: u32)
        ensures
            r == self.spec_originate(),
    {
        self.originate_timestamp
    }

    /// Receive timestamp: milliseconds since midnight UT.
    pub fn receive_timestamp(&self) -> (r: u32)
        ensures
            r == self.spec_receive(),
    {
        self.receive_timestamp
    }

    /// Transmit timestamp: milliseconds since midnight UT.
    pub fn transmit_timestamp(&self) -> (r: u32)
        ensures
            r == self.spec_transmit(),
    {
        self.transmit_timestamp
    }

    /// Read identifier and sequence from the header, the three stamps from
    /// the first twelve payload bytes.
    pub fn from(header: &[u8], data: &[u8]) -> (r: Self)
        requires
            header@.len() >= 8,
            data@.len() >= 12,
        ensures
            r.spec_id() == spec_be16(header@[4], header@[5]),
            r.spec_seq_num() == spec_be16(header@[6], header@[7]),
            r.spec_originate() == spec_be32(data@[0], data@[1], data@[2], data@[3]),
            r.spec_receive() == spec_be32(data@[4], data@[5], data@[6], data@[7]),
            r.spec_transmit() == spec_be32(data@[8], data@[9], data@[10], data@[11]),
    {
        Self {
            id: be16(header[4], header[5]),
            seq_num: be16(header[6], header[7]),
            originate_timestamp: be32(data[0], data[1], data[2], data[3]),
            receive_timestamp: be32(data[4], data[5], data[6], data[7]),
            transmit_timestamp: be32(data[8], data[9], data[10], data[11]),
        }
    }
}

/// Address Mask Request (type 17) message.
#[derive(Clone, Copy, Debug, PartialEq, Eq, Structural)]
pub struct AddrMaskRequest {
    id: u16,
    seq_num: u16,
}

impl AddrMaskRequest {
    pub closed spec fn spec_id(self) -> u16 {
        self.id
    }

    pub closed spec fn spec_seq_num(self) -> u16 {
        self.seq_num
    }

    pub fn id(&self) -> (r: u16)
        ensures
            r == self.spec_id(),
    {
        self.id
    }

    pub fn seq_num(&self) -> (r: u16)
        ensures
            r == self.spec_seq_num(),
    {
        self.seq_num
    }

    pub fn from_header(header: &[u8]) -> (r: Self)
        requires
            header@.len() >= 8,
        ensures
            r.spec_id() == spec_be16(header@[4], header@[5]),
            r.spec_seq_num() == spec_be16(header@[6], header@[7]),
    {
        Self { id: be16(header[4], header[5]), seq_num: be16(header[6], header[7]) }
    }
}

/// Address Mask Reply (type 18) message: the mask sits in the first four
/// payload bytes.
pub struct AddrMaskReply {
    id: u16,
    seq_num: u16,
    addr_mask: Ipv4Address,
}

impl AddrMaskReply {
    pub closed spec fn spec_id(self) -> u16 {
        self.id
    }

    pub closed spec fn spec_seq_num(self) -> u16 {
        self.seq_num
    }

    pub closed spec fn spec_addr_mask(self) -> Ipv4Address {
        self.addr_mask
    }

    pub fn id(&self) -> (r: u16)
        ensures
            r == self.spec_id(),
    {
        self.id
    }

    pub fn seq_num(&self) -> (r: u16)
        ensures
            r == self.spec_seq_num(),
    {
        self.seq_num
    }

    pub fn addr_mask(&self) -> (r: Ipv4Address)
        ensures
            r == self.spec_addr_mask(),
    {
        self.addr_mask
    }

    pub fn from(header: &[u8], data: &[u8]) -> (r: Self)
        requires
            header@.len() >= 8,
            data@.len() >= 4,
        ensures
            r.spec_id() == spec_be16(header@[4], header@[5]),
            r.spec_seq_num() == spec_be16(header@[6], header@[7]),
            r.spec_addr_mask().spec_octets() == data@.subrange(0, 4),
    {
        let mask = Ipv4Address::from_octets([data[0], data[1], data[2], data[3]]);
        proof {
            assert(mask.spec_octets() =~= data@.subrange(0, 4));
        }
        Self { id: be16(header[4], header[5]), seq_num: be16(header[6], header[7]), addr_mask: mask }
    }
}

/// Classified ICMP message, per the type byte taxonomy.
pub enum IcmpMsg {
    EchoReply,
    Reserved(u8),
    DestUnreachable(DestUnreachable),
    SrcQuench,
    RedirectMsg(RedirectMsg),
    AltHostAddr,
    EchoRequest,
    RouterAdv,
    RouterSolicitation,
    TimeExceeded(TimeExceeded),
    BadIpHeader(BadIpHeader),
    Timestamp(Timestamp),
    TimestampReply(TimestampReply),
    InfoRequest,
    InfoReply,
    AddrMaskRequest(AddrMaskRequest),
    AddrMaskReply(AddrMaskReply),
    Traceroute,
}

/// The rendering of each classified message kind.
pub open spec fn icmp_msg_display(m: IcmpMsg) -> Seq<char> {
    match m {
        IcmpMsg::EchoReply => "Echo reply"@,
        IcmpMsg::DestUnreachable(_) => "Destination unreachable"@,
        IcmpMsg::SrcQuench => "Source quench (congestion control) [deprecated]"@,
        IcmpMsg::RedirectMsg(_) => "Redirect message"@,
        IcmpMsg::AltHostAddr => "Alternate Host Address [deprecated]"@,
        IcmpMsg::EchoRequest => "Echo request"@,
        IcmpMsg::RouterAdv => "Router Advertisement"@,
        IcmpMsg::RouterSolicitation => "Router discovery/selection/solicitation"@,
        IcmpMsg::TimeExceeded(_) => "Time exceeded"@,
        IcmpMsg::BadIpHeader(_) => "Parameter Problem - Bad IP header"@,
        IcmpMsg::Timestamp(_) => "Timestamp"@,
        IcmpMsg::TimestampReply(_) => "Timestamp reply"@,
        IcmpMsg::InfoRequest => "Information Request [deprecated]"@,
        IcmpMsg::InfoReply => "Information Reply [deprecated]"@,
        IcmpMsg::AddrMaskRequest(_) => "Address Mask Request [deprecated]"@,
        IcmpMsg::AddrMaskReply(_) => "Address Mask Reply [deprecated]"@,
        IcmpMsg::Traceroute => "Traceroute [deprecated]"@,
        IcmpMsg::Reserved(other) => "Reserved ("@ + dec_u8(other) + ")"@,
    }
}

impl IcmpMsg {
    /// Human-readable name of the message kind.
    pub fn display_string(&self) -> (s: String)
        ensures
            s@ == icmp_msg_display(*self),
    {
        match self {
            IcmpMsg::EchoReply => String::from_str("Echo reply"),
            IcmpMsg::DestUnreachable(_) => String::from_str("Destination unreachable"),
            IcmpMsg::SrcQuench => String::from_str("Source quench (congestion control) [deprecated]"),
            IcmpMsg::RedirectMsg(_) => String::from_str("Redirect message"),
            IcmpMsg::AltHostAddr => String::from_str("Alternate Host Address [deprecated]"),
            IcmpMsg::EchoRequest => String::from_str("Echo request"),
            IcmpMsg::RouterAdv => String::from_str("Router Advertisement"),
            IcmpMsg::RouterSolicitation => String::from_str(
                "Router discovery/selection/solicitation",
            ),
            IcmpMsg::TimeExceeded(_) => String::from_str("Time exceeded"),
            IcmpMsg::BadIpHeader(_) => String::from_str("Parameter Problem - Bad IP header"),
            IcmpMsg::Timestamp(_) => String::from_str("Timestamp"),
            IcmpMsg::TimestampReply(_) => String::from_str("Timestamp reply"),
            IcmpMsg::InfoRequest => String::from_str("Information Request [deprecated]"),
            IcmpMsg::InfoReply => String::from_str("Information Reply [deprecated]"),
            IcmpMsg::AddrMaskRequest(_) => String::from_str("Address Mask Request [deprecated]"),
            IcmpMsg::AddrMaskReply(_) => String::from_str("Address Mask Reply [deprecated]"),
            IcmpMsg::Traceroute => String::from_str("Traceroute [deprecated]"),
            IcmpMsg::Reserved(other) => {
                let mut s = String::from_str("Reserved (");
                push_dec_u8(&mut s, *other);
                s.append(")");
                s
            },
        }
    }
}

/// Zero-copy view of an ICMP message: 8-byte header, protocol-specific
/// payload.
pub struct IcmpFrame<'a> {
    header: &'a [u8],
    payload: &'a [u8],
}

impl<'a> IcmpFrame<'a> {
    pub closed spec fn spec_header(self) -> Seq<u8> {
        self.header@
    }

    pub closed spec fn spec_payload(self) -> Seq<u8> {
        self.payload@
    }

    pub open spec fn wf(self) -> bool {
        &&& self.spec_header().len() == 8
        &&& self.spec_payload().len() < 0x1_0000_0000
    }

    pub open spec fn is_parse_of(self, b: Seq<u8>) -> bool {
        &&& self.spec_header() == b.subrange(0, 8)
        &&& self.spec_payload() == b.subrange(8, b.len() as int)
    }

    /// View an IPv4 payload as an ICMP message.
    pub fn from_ipv4(frame: Ipv4Frame<'a>) -> (r: Result<Self, DecodeError>)
        requires
            frame.wf(),
        ensures
            frame.spec_payload().len() >= 8 ==> (r matches Ok(f) && f.wf() && f.is_parse_of(
                frame.spec_payload(),
            )),
            frame.spec_payload().len() < 8 ==> r == Err::<Self, DecodeError>(
                DecodeError::BufferTooShort,
            ),
    {
        let payload = frame.payload();
        if payload.len() < 8 {
            return Err(DecodeError::BufferTooShort);
        }
        let header = slice_subrange(payload, 0, 8);
        let rest = slice_subrange(payload, 8, payload.len());
        Ok(IcmpFrame { header, payload: rest })
    }

    pub fn raw_header(&self) -> (r: &'a [u8])
        ensures
            r@ == self.spec_header(),
    {
        self.header
    }

    pub fn payload(&self) -> (r: &'a [u8])
        ensures
            r@ == self.spec_payload(),
    {
        self.payload
    }

    pub fn type_(&self) -> (r: u8)
        requires
            self.wf(),
        ensures
            r == self.spec_header()[0],
    {
        self.header[0]
    }

    pub fn code(&self) -> (r: u8)
        requires
            self.wf(),
        ensures
            r == self.spec_header()[1],
    {
        self.header[1]
    }

    pub fn checksum(&self) -> (r: u16)
        requires
            self.wf(),
        ensures
            r == spec_be16(self.spec_header()[2], self.spec_header()[3]),
    {
        be16(self.header[2], self.header[3])
    }

    /// Header and payload together checksum to zero.
    pub open spec fn spec_has_integrity(self) -> bool {
        checksum16_u8_spec(self.spec_header() + self.spec_payload()) == 0
    }

    pub fn has_integrity(&self) -> (r: bool)
        requires
            self.wf(),
        ensures
            r == self.spec_has_integrity(),
    {
        let sh = u8_slice_to_sum16(self.header);
        let sp = u8_slice_to_sum16(self.payload);
        let words: [u16; 2] = [sh, sp];
        let c = u16_checksum16(array_as_slice(&words));
        proof {
            assert(words@ =~= seq![sh, sp]);
            lemma_word_sum_two(sh, sp);
            lemma_byte_pair_sum_nonneg(self.spec_header());
            lemma_byte_pair_sum_nonneg(self.spec_payload());
            lemma_ones_fold_add(
                byte_pair_sum(self.spec_header()),
                byte_pair_sum(self.spec_payload()),
            );
            lemma_byte_pair_sum_concat(self.spec_header(), self.spec_payload());
        }
        c == 0
    }

    /// The "Rest of Header": header bytes 4 through 7.
    pub fn roh(&self) -> (r: &'a [u8])
        requires
            self.wf(),
        ensures
            r@ == self.spec_header().subrange(4, 8),
    {
        slice_subrange(self.header, 4, 8)
    }

    /// Decode the typed sub-message the type byte selects. Sub-code spaces
    /// that the standard enumerates completely reject out-of-range codes;
    /// typed payload reads reject a payload too short to hold them; every
    /// unlisted type is surfaced as `Reserved` with the raw type byte.
    pub fn get_control_msg(&self) -> (r: Result<IcmpMsg, DecodeError>)
        requires
            self.wf(),
        ensures
            ({
                let h = self.spec_header();
                let p = self.spec_payload();
                let t = h[0];
                let c = h[1];
                &&& (t == 0 ==> (r matches Ok(m) && m matches IcmpMsg::EchoReply))
                &&& (t == 3 && c < 16 ==> (r matches Ok(m) && m matches IcmpMsg::DestUnreachable(d)
                    && d == dest_unreachable_of(c, spec_be16(h[6], h[7]) as u16)))
                &&& (t == 3 && c >= 16 ==> r == Err::<IcmpMsg, DecodeError>(
                    DecodeError::UnrecognizedCode,
                ))
                &&& (t == 4 ==> (r matches Ok(m) && m matches IcmpMsg::SrcQuench))
                &&& (t == 5 && c < 4 ==> (r matches Ok(m) && m matches IcmpMsg::RedirectMsg(rm)
                    && rm.spec_kind() == redirect_type_of(c) && rm.spec_addr().spec_octets()
                    == h.subrange(4, 8)))
                &&& (t == 5 && c >= 4 ==> r == Err::<IcmpMsg, DecodeError>(
                    DecodeError::UnrecognizedCode,
                ))
                &&& (t == 6 ==> (r matches Ok(m) && m matches IcmpMsg::AltHostAddr))
                &&& (t == 8 ==> (r matches Ok(m) && m matches IcmpMsg::EchoRequest))
                &&& (t == 9 ==> (r matches Ok(m) && m matches IcmpMsg::RouterAdv))
                &&& (t == 10 ==> (r matches Ok(m) && m matches IcmpMsg::RouterSolicitation))
                &&& (t == 11 && c < 2 ==> (r matches Ok(m) && m matches IcmpMsg::TimeExceeded(te)
                    && te == time_exceeded_of(c)))
                &&& (t == 11 && c >= 2 ==> r == Err::<IcmpMsg, DecodeError>(
                    DecodeError::UnrecognizedCode,
                ))
                &&& (t == 12 && c < 3 ==> (r matches Ok(m) && m matches IcmpMsg::BadIpHeader(bh)
                    && bh == bad_ip_header_of(c)))
                &&& (t == 12 && c >= 3 ==> r == Err::<IcmpMsg, DecodeError>(
                    DecodeError::UnrecognizedCode,
                ))
                &&& (t == 13 && p.len() >= 4 ==> (r matches Ok(m) && m matches IcmpMsg::Timestamp(
                    ts,
                ) && ts.spec_id() == spec_be16(h[4], h[5]) && ts.spec_seq_num() == spec_be16(
                    h[6],
                    h[7],
                ) && ts.spec_originate() == spec_be32(p[0], p[1], p[2], p[3])))
                &&& (t == 13 && p.len() < 4 ==> r == Err::<IcmpMsg, DecodeError>(
                    DecodeError::BufferTooShort,
                ))
                &&& (t == 14 && p.len() >= 12 ==> (r matches Ok(m) && m matches
                    IcmpMsg::TimestampReply(ts) && ts.spec_id() == spec_be16(h[4], h[5])
                    && ts.spec_seq_num() == spec_be16(h[6], h[7]) && ts.spec_originate()
                    == spec_be32(p[0], p[1], p[2], p[3]) && ts.spec_receive() == spec_be32(
                    p[4],
                    p[5],
                    p[6],
                    p[7],
                ) && ts.spec_transmit() == spec_be32(p[8], p[9], p[10], p[11])))
                &&& (t == 14 && p.len() < 12 ==> r == Err::<IcmpMsg, DecodeError>(
                    DecodeError::BufferTooShort,
                ))
                &&& (t == 15 ==> (r matches Ok(m) && m matches IcmpMsg::InfoRequest))
                &&& (t == 16 ==> (r matches Ok(m) && m matches IcmpMsg::InfoReply))
                &&& (t == 17 ==> (r matches Ok(m) && m matches IcmpMsg::AddrMaskRequest(a)
                    && a.spec_id() == spec_be16(h[4], h[5]) && a.spec_seq_num() == spec_be16(
                    h[6],
                    h[7],
                )))
                &&& (t == 18 && p.len() >= 4 ==> (r matches Ok(m) && m matches
                    IcmpMsg::AddrMaskReply(a) && a.spec_id() == spec_be16(h[4], h[5])
                    && a.spec_seq_num() == spec_be16(h[6], h[7])
                    && a.spec_addr_mask().spec_octets() == p.subrange(0, 4)))
                &&& (t == 18 && p.len() < 4 ==> r == Err::<IcmpMsg, DecodeError>(
                    DecodeError::BufferTooShort,
                ))
                &&& (t == 30 ==> (r matches Ok(m) && m matches IcmpMsg::Traceroute))
                &&& ((t == 1 || t == 2 || t == 7 || (19 <= t && t <= 29) || t > 30) ==> (r matches
                    Ok(m) && m matches IcmpMsg::Reserved(v) && v == t))
            }),
    {
        match self.header[0] {
            0 => Ok(IcmpMsg::EchoReply),
            3 => {
                if self.header[1] < 16 {
                    Ok(IcmpMsg::DestUnreachable(DestUnreachable::from_header(self.header)))
                } else {
                    Err(DecodeError::UnrecognizedCode)
                }
            },
            4 => Ok(IcmpMsg::SrcQuench),
            5 => {
                if self.header[1] < 4 {
                    let addr = Ipv4Address::from_octets(
                        [self.header[4], self.header[5], self.header[6], self.header[7]],
                    );
                    proof {
                        assert(addr.spec_octets() =~= self.spec_header().subrange(4, 8));
                    }
                    Ok(IcmpMsg::RedirectMsg(RedirectMsg::from(self.header[1], addr)))
                } else {
                    Err(DecodeError::UnrecognizedCode)
                }
            },
            6 => Ok(IcmpMsg::AltHostAddr),
            8 => Ok(IcmpMsg::EchoRequest),
            9 => Ok(IcmpMsg::RouterAdv),
            10 => Ok(IcmpMsg::RouterSolicitation),
            11 => {
                if self.header[1] < 2 {
                    Ok(IcmpMsg::TimeExceeded(TimeExceeded::from_u8(self.header[1])))
                } else {
                    Err(DecodeError::UnrecognizedCode)
                }
            },
            12 => {
                if self.header[1] < 3 {
                    Ok(IcmpMsg::BadIpHeader(BadIpHeader::from_u8(self.header[1])))
                } else {
                    Err(DecodeError::UnrecognizedCode)
                }
            },
            13 => {
                if self.payload.len() < 4 {
                    Err(DecodeError::BufferTooShort)
                } else {
                    Ok(IcmpMsg::Timestamp(Timestamp::from(self.header, self.payload)))
                }
            },
            14 => {
                if self.payload.len() < 12 {
                    Err(DecodeError::BufferTooShort)
                } else {
                    Ok(IcmpMsg::TimestampReply(TimestampReply::from(self.header, self.payload)))
                }
            },
            15 => Ok(IcmpMsg::InfoRequest),
            16 => Ok(IcmpMsg::InfoReply),
            17 => Ok(IcmpMsg::AddrMaskRequest(AddrMaskRequest::from_header(self.header))),
            18 => {
                if self.payload.len() < 4 {
                    Err(DecodeError::BufferTooShort)
                } else {
                    Ok(IcmpMsg::AddrMaskReply(AddrMaskReply::from(self.header, self.payload)))
                }
            },
            30 => Ok(IcmpMsg::Traceroute),
            other => Ok(IcmpMsg::Reserved(other)),
        }
    }
}

} // verus!
