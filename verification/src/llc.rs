//! IEEE 802.2 LLC view: DSAP/SSAP decoding, the SAP name dictionary, and
//! the U/I/S control-field variants, including the 16-bit extended
//! controls. The subtlest part is U-frame modifier decoding: the 8-bit
//! control byte is bit-reversed, then the low three bits and bits 4-5 of
//! the reversed byte are gathered into a 5-bit modifier code.

use vstd::prelude::*;
use vstd::slice::slice_subrange;
use vstd::string::StringExecFns;
use crate::DecodeError;
use crate::spec_be16;
use crate::be16;
use crate::narrow::U3;
use crate::narrow::U7;
use crate::render::hex2;
use crate::render::push_hex2;

verus! {

/// Bit-reversal of a byte by the three swap steps (nibbles, pairs, bits).
pub open spec fn spec_reverse(b: u8) -> u8 {
    let n = ((b & 0xF0) >> 4) | ((b & 0x0F) << 4);
    let p = ((n & 0xCC) >> 2) | ((n & 0x33) << 2);
    (((p & 0xAA) >> 1) | ((p & 0x55) << 1)) as u8
}

/// Reverse the bits of a byte (`lemma_reverse_bits` states the bit-level
/// meaning of the swap steps).
pub fn reverse_byte(b: u8) -> (r: u8)
    ensures
        r == spec_reverse(b),
{
    let n = ((b & 0xF0) >> 4) | ((b & 0x0F) << 4);
    let p = ((n & 0xCC) >> 2) | ((n & 0x33) << 2);
    ((p & 0xAA) >> 1) | ((p & 0x55) << 1)
}

/// Bit `i` of a byte.
pub open spec fn bit_of(b: u8, i: int) -> bool {
    (b >> (i as u8)) & 1 == 1
}

/// The swap-step reversal really reverses the bits: bit `i` of the result
/// is bit `7 - i` of the argument.
pub proof fn lemma_reverse_bits(b: u8)
    ensures
        forall|i: int| 0 <= i < 8 ==> bit_of(spec_reverse(b), i) == bit_of(b, 7 - i),
{
    assert forall|i: int| 0 <= i < 8 implies bit_of(spec_reverse(b), i) == bit_of(b, 7 - i) by {
        let j = i as u8;
        let k = (7 - i) as u8;
        assert(j < 8 && k < 8 && j + k == 7 ==> (((spec_reverse(b) >> j) & 1 == 1) == ((b >> k) & 1
            == 1))) by (bit_vector);
    }
}

/// The 5-bit U-frame modifier code extracted from an 8-bit control byte:
/// bits 0-2 and 4-5 of the bit-reversed byte, gathered together.
pub open spec fn ucode_bits(control: u8) -> u8 {
    (spec_reverse(control) & 0x07) | ((spec_reverse(control) & 0x30) >> 1)
}

/// The extraction loses nothing a U-frame control byte carries: two
/// control bytes that agree on the U-frame marker bits (low two) and the
/// poll/final bit (bit 4) and extract to the same 5-bit code are equal, so
/// every 5-bit code has at most one encoding per poll/final setting.
pub proof fn lemma_ucode_bits_injective(b1: u8, b2: u8)
    requires
        b1 & 0x13 == b2 & 0x13,
        ucode_bits(b1) == ucode_bits(b2),
    ensures
        b1 == b2,
{
    assert(((b1 & 0x13 == b2 & 0x13) && (ucode_bits(b1) == ucode_bits(b2))) ==> b1 == b2)
        by (bit_vector);
}

/// The canonical control byte that encodes a 5-bit modifier code: the
/// reversal of the code bits spread to positions 0-2 and 4-5, with the
/// poll/final bit at reversed position 3 and the U-frame marker at
/// reversed positions 6-7.
pub open spec fn ucode_encode(code: u8, poll_final: bool) -> u8 {
    spec_reverse(
        ((code & 0x07) | ((code & 0x18) << 1) | (if poll_final {
            8u8
        } else {
            0u8
        }) | 0xC0) as u8,
    )
}

/// Extraction inverts the canonical encoding on the whole 5-bit space, and
/// the encoding always carries the U-frame marker and the chosen
/// poll/final bit.
pub proof fn lemma_ucode_bits_roundtrip(code: u8, poll_final: bool)
    requires
        code < 32,
    ensures
        ucode_bits(ucode_encode(code, poll_final)) == code,
        ucode_encode(code, poll_final) % 4 == 3,
        ((ucode_encode(code, poll_final) / 16) % 2 == 1) == poll_final,
{
    let pf: u8 = if poll_final {
        8
    } else {
        0
    };
    assert(code < 32 && (pf == 8 || pf == 0) ==> ucode_bits(
        spec_reverse((code & 0x07) | ((code & 0x18) << 1) | pf | 0xC0),
    ) == code) by (bit_vector);
    assert(code < 32 && (pf == 8 || pf == 0) ==> spec_reverse(
        (code & 0x07) | ((code & 0x18) << 1) | pf | 0xC0,
    ) % 4 == 3) by (bit_vector);
    assert(code < 32 && (pf == 8 || pf == 0) ==> ((spec_reverse(
        (code & 0x07) | ((code & 0x18) << 1) | pf | 0xC0,
    ) / 16) % 2 == 1) == (pf == 8)) by (bit_vector);
}

/// Service Access Point names (DSAP/SSAP dictionary).
#[derive(Clone, Copy, Debug, PartialEq, Eq, Structural)]
pub enum SapName {
    NullSap,
    ILlc,
    GLlc,
    SnaI,
    SnaG,
    DodIp,
    ProWayLan,
    TexasIns,
    SpanningTree,
    EiaRs511,
    IsiIp,
    Iso802_2,
    Xns,
    Bacnet,
    Nestar,
    ProWayLan955,
    Arp,
    Rde,
    Snap,
    Banyan,
    NetWare,
    NetBios,
    LanManI,
    LanManG,
    Rpl,
    Ungermann,
    Osi,
    GlobalSap,
    Other(u8),
}

/// The dictionary entry for a SAP value.
pub open spec fn sap_name_of(val: u8) -> SapName {
    if val == 0x00 {
        SapName::NullSap
    } else if val == 0x02 {
        SapName::ILlc
    } else if val == 0x03 {
        SapName::GLlc
    } else if val == 0x04 {
        SapName::SnaI
    } else if val == 0x05 {
        SapName::SnaG
    } else if val == 0x06 {
        SapName::DodIp
    } else if val == 0x0E {
        SapName::ProWayLan
    } else if val == 0x18 {
        SapName::TexasIns
    } else if val == 0x42 {
        SapName::SpanningTree
    } else if val == 0x4E {
        SapName::EiaRs511
    } else if val == 0x5E {
        SapName::IsiIp
    } else if val == 0x7F {
        SapName::Iso802_2
    } else if val == 0x80 {
        SapName::Xns
    } else if val == 0x82 {
        SapName::Bacnet
    } else if val == 0x86 {
        SapName::Nestar
    } else if val == 0x8E {
        SapName::ProWayLan955
    } else if val == 0x98 {
        SapName::Arp
    } else if val == 0xA6 {
        SapName::Rde
    } else if val == 0xAA {
        SapName::Snap
    } else if val == 0xBC {
        SapName::Banyan
    } else if val == 0xE0 {
        SapName::NetWare
    } else if val == 0xF0 {
        SapName::NetBios
    } else if val == 0xF4 {
        SapName::LanManI
    } else if val == 0xF5 {
        SapName::LanManG
    } else if val == 0xF8 || val == 0xFC {
        SapName::Rpl
    } else if val == 0xFA {
        SapName::Ungermann
    } else if val == 0xFE {
        SapName::Osi
    } else if val == 0xFF {
        SapName::GlobalSap
    } else {
        SapName::Other(val)
    }
}

/// The rendering of each SAP name.
pub open spec fn sap_name_display(s: SapName) -> Seq<char> {
    match s {
        SapName::NullSap => "Null SAP"@,
        SapName::ILlc => "Individual LLC Sublayer Mgt"@,
        SapName::GLlc => "Group LLC Sublayer Mgt"@,
        SapName::SnaI => "SNA Path Control (individual)"@,
        SapName::SnaG => "SNA Path Control (group)"@,
        SapName::DodIp => "Reserved for DoD IP"@,
        SapName::ProWayLan => "ProWay-LAN"@,
        SapName::TexasIns => "Texas Instruments"@,
        SapName::SpanningTree => "IEEE 802.1 Bridge Spanning Tree Protocol"@,
        SapName::EiaRs511 => "EIA-RS 511"@,
        SapName::IsiIp => "ISI IP"@,
        SapName::Iso802_2 => "ISO 802.2"@,
        SapName::Xns => "Xerox Network Systems (XNS)"@,
        SapName::Bacnet => "BACnet/Ethernet"@,
        SapName::Nestar => "Nestar"@,
        SapName::ProWayLan955 => "ProWay-LAN (IEC 955)"@,
        SapName::Arp => "ARPANET Address Resolution Protocol (ARP)"@,
        SapName::Rde => "RDE (route determination entity)"@,
        SapName::Snap => "SNAP Extension Used"@,
        SapName::Banyan => "Banyan Vines"@,
        SapName::NetWare => "Novell NetWare"@,
        SapName::NetBios => "IBM NetBIOS"@,
        SapName::LanManI => "IBM LAN Management (individual)"@,
        SapName::LanManG => "IBM LAN Management (group)"@,
        SapName::Rpl => "IBM Remote Program Load (RPL)"@,
        SapName::Ungermann => "Ungermann-Bass"@,
        SapName::Osi => "OSI protocols ISO CLNS IS 8473"@,
        SapName::GlobalSap => "Global DSAP (broadcast to all)"@,
        SapName::Other(sap) => "Other (0x"@ + hex2(sap) + ")"@,
    }
}

impl SapName {
    /// Look a SAP value up in the dictionary.
    pub fn from_u8(val: u8) -> (r: Self)
        ensures
            r == sap_name_of(val),
    {
        match val {
            0x00 => Self::NullSap,
            0x02 => Self::ILlc,
            0x03 => Self::GLlc,
            0x04 => Self::SnaI,
            0x05 => Self::SnaG,
            0x06 => Self::DodIp,
            0x0E => Self::ProWayLan,
            0x18 => Self::TexasIns,
            0x42 => Self::SpanningTree,
            0x4E => Self::EiaRs511,
            0x5E => Self::IsiIp,
            0x7F => Self::Iso802_2,
            0x80 => Self::Xns,
            0x82 => Self::Bacnet,
            0x86 => Self::Nestar,
            0x8E => Self::ProWayLan955,
            0x98 => Self::Arp,
            0xA6 => Self::Rde,
            0xAA => Self::Snap,
            0xBC => Self::Banyan,
            0xE0 => Self::NetWare,
            0xF0 => Self::NetBios,
            0xF4 => Self::LanManI,
            0xF5 => Self::LanManG,
            0xF8 | 0xFC => Self::Rpl,
            0xFA => Self::Ungermann,
            0xFE => Self::Osi,
            0xFF => Self::GlobalSap,
            _ => Self::Other(val),
        }
    }

    /// Human-readable SAP name.
    pub fn display_string(&self) -> (s: String)
        ensures
            s@ == sap_name_display(*self),
    {
        match self {
            Self::NullSap => String::from_str("Null SAP"),
            Self::ILlc => String::from_str("Individual LLC Sublayer Mgt"),
            Self::GLlc => String::from_str("Group LLC Sublayer Mgt"),
            Self::SnaI => String::from_str("SNA Path Control (individual)"),
            Self::SnaG => String::from_str("SNA Path Control (group)"),
            Self::DodIp => String::from_str("Reserved for DoD IP"),
            Self::ProWayLan => String::from_str("ProWay-LAN"),
            Self::TexasIns => String::from_str("Texas Instruments"),
            Self::SpanningTree => String::from_str("IEEE 802.1 Bridge Spanning Tree Protocol"),
            Self::EiaRs511 => String::from_str("EIA-RS 511"),
            Self::IsiIp => String::from_str("ISI IP"),
            Self::Iso802_2 => String::from_str("ISO 802.2"),
            Self::Xns => String::from_str("Xerox Network Systems (XNS)"),
            Self::Bacnet => String::from_str("BACnet/Ethernet"),
            Self::Nestar => String::from_str("Nestar"),
            Self::ProWayLan955 => String::from_str("ProWay-LAN (IEC 955)"),
            Self::Arp => String::from_str("ARPANET Address Resolution Protocol (ARP)"),
            Self::Rde => String::from_str("RDE (route determination entity)"),
            Self::Snap => String::from_str("SNAP Extension Used"),
            Self::Banyan => String::from_str("Banyan Vines"),
            Self::NetWare => String::from_str("Novell NetWare"),
            Self::NetBios => String::from_str("IBM NetBIOS"),
            Self::LanManI => String::from_str("IBM LAN Management (individual)"),
            Self::LanManG => String::from_str("IBM LAN Management (group)"),
            Self::Rpl => String::from_str("IBM Remote Program Load (RPL)"),
            Self::Ungermann => String::from_str("Ungermann-Bass"),
            Self::Osi => String::from_str("OSI protocols ISO CLNS IS 8473"),
            Self::GlobalSap => String::from_str("Global DSAP (broadcast to all)"),
            Self::Other(sap) => {
                let mut s = String::from_str("Other (0x");
                push_hex2(&mut s, *sap);
                s.append(")");
                s
            },
        }
    }
}

/// U-frame modifier codes (ISO 7776 unnumbered commands and responses).
#[derive(Clone, Copy, Debug, PartialEq, Eq, Structural)]
pub enum UCode {
    SNRM,
    SNRME,
    SARM,
    DM,
    SARME,
    SABM,
    SABME,
    UI,
    UA,
    DISC,
    RD,
    SIM,
    RIM,
    UP,
    RSET,
    XID,
    FRMR,
}

/// The modifier named by a 5-bit code together with the command/response
/// flag; `None` for the code points the standard leaves unassigned.
pub open spec fn ucode_of(val: u8, is_command: bool) -> Option<UCode> {
    if val == 0b00_001 {
        if is_command {
            Some(UCode::SNRM)
        } else {
            None
        }
    } else if val == 0b11_011 {
        if is_command {
            Some(UCode::SNRME)
        } else {
            None
        }
    } else if val == 0b11_100 {
        if is_command {
            Some(UCode::SABM)
        } else {
            Some(UCode::DM)
        }
    } else if val == 0b11_110 {
        if is_command {
            Some(UCode::SABME)
        } else {
            None
        }
    } else if val == 0b00_000 {
        Some(UCode::UI)
    } else if val == 0b00_110 {
        if !is_command {
            Some(UCode::UA)
        } else {
            None
        }
    } else if val == 0b00_010 {
        if is_command {
            Some(UCode::DISC)
        } else {
            Some(UCode::RD)
        }
    } else if val == 0b10_000 {
        if is_command {
            Some(UCode::SIM)
        } else {
            Some(UCode::RIM)
        }
    } else if val == 0b00_100 {
        if is_command {
            Some(UCode::UP)
        } else {
            None
        }
    } else if val == 0b11_001 {
        if is_command {
            Some(UCode::RSET)
        } else {
            None
        }
    } else if val == 0b11_101 {
        Some(UCode::XID)
    } else if val == 0b10_001 {
        Some(UCode::FRMR)
    } else {
        None
    }
}

/// The rendering of each modifier.
pub open spec fn ucode_display(u: UCode) -> Seq<char> {
    match u {
        UCode::SNRM => "Set normal response mode SNRM"@,
        UCode::SNRME => "SNRM extended SNRME"@,
        UCode::SARM => "Set asynchronous response mode SARM"@,
        UCode::SARME => "SARM extended SARME"@,
        UCode::SABM => "Set asynchronous balanced mode SABM"@,
        UCode::SABME => "SABM extended SABME"@,
        UCode::DM => "Disconnect mode DM"@,
        UCode::UI => "Unnumbered information UI"@,
        UCode::UA => "Unnumbered acknowledgment UA"@,
        UCode::DISC => "Disconnect DISC"@,
        UCode::RD => "Request disconnect RD"@,
        UCode::SIM => "Set initialization mode SIM"@,
        UCode::RIM => "Request initialization mode RIM"@,
        UCode::UP => "Unnumbered poll UP"@,
        UCode::RSET => "Reset RSET"@,
        UCode::XID => "Exchange identification XID"@,
        UCode::FRMR => "Frame reject FRMR"@,
    }
}

impl UCode {
    /// Look a 5-bit modifier code up; an unassigned code point is a hard
    /// decoding failure, never an arbitrary value.
    pub fn from_u8(val: u8, is_command: bool) -> (r: Result<Self, DecodeError>)
        ensures
            ucode_of(val, is_command) matches Some(u) ==> r == Ok::<Self, DecodeError>(u),
            ucode_of(val, is_command) is None ==> r == Err::<Self, DecodeError>(
                DecodeError::UnrecognizedCode,
            ),
    {
        match val {
            0b00_001 if is_command => Ok(Self::SNRM),
            0b11_011 if is_command => Ok(Self::SNRME),
            0b11_100 => {
                if is_command {
                    Ok(Self::SABM)
                } else {
                    Ok(Self::DM)
                }
            },
            0b11_110 if is_command => Ok(Self::SABME),
            0b00_000 => Ok(Self::UI),
            0b00_110 if !is_command => Ok(Self::UA),
            0b00_010 => {
                if is_command {
                    Ok(Self::DISC)
                } else {
                    Ok(Self::RD)
                }
            },
            0b10_000 => {
                if is_command {
                    Ok(Self::SIM)
                } else {
                    Ok(Self::RIM)
                }
            },
            0b00_100 if is_command => Ok(Self::UP),
            0b11_001 if is_command => Ok(Self::RSET),
            0b11_101 => Ok(Self::XID),
            0b10_001 => Ok(Self::FRMR),
            _ => Err(DecodeError::UnrecognizedCode),
        }
    }

    /// Human-readable modifier name.
    pub fn display_string(&self) -> (s: String)
        ensures
            s@ == ucode_display(*self),
    {
        match self {
            Self::SNRM => String::from_str("Set normal response mode SNRM"),
            Self::SNRME => String::from_str("SNRM extended SNRME"),
            Self::SARM => String::from_str("Set asynchronous response mode SARM"),
            Self::SARME => String::from_str("SARM extended SARME"),
            Self::SABM => String::from_str("Set asynchronous balanced mode SABM"),
            Self::SABME => String::from_str("SABM extended SABME"),
            Self::DM => String::from_str("Disconnect mode DM"),
            Self::UI => String::from_str("Unnumbered information UI"),
            Self::UA => String::from_str("Unnumbered acknowledgment UA"),
            Self::DISC => String::from_str("Disconnect DISC"),
            Self::RD => String::from_str("Request disconnect RD"),
            Self::SIM => String::from_str("Set initialization mode SIM"),
            Self::RIM => String::from_str("Request initialization mode RIM"),
            Self::UP => String::from_str("Unnumbered poll UP"),
            Self::RSET => String::from_str("Reset RSET"),
            Self::XID => String::from_str("Exchange identification XID"),
            Self::FRMR => String::from_str("Frame reject FRMR"),
        }
    }
}

/// Supervisory frame codes.
#[derive(Clone, Copy, Debug, PartialEq, Eq, Structural)]
pub enum SCode {
    RR,
    REJ,
    RNR,
    SREJ,
}

/// The supervisory code named by a 2-bit value.
pub open spec fn scode_of(val: u8) -> SCode
    recommends
        val < 4,
{
    if val == 0 {
        SCode::RR
    } else if val == 1 {
        SCode::REJ
    } else if val == 2 {
        SCode::RNR
    } else {
        SCode::SREJ
    }
}

/// The rendering of each supervisory code.
pub open spec fn scode_display(s: SCode) -> Seq<char> {
    match s {
        SCode::RR => "Receive Ready (RR)"@,
        SCode::REJ => "Reject (REJ)"@,
        SCode::RNR => "Receive Not Ready (RNR)"@,
        SCode::SREJ => "Selective Reject (SREJ)"@,
    }
}

impl SCode {
    /// Look a 2-bit supervisory code up; the space is fully enumerated.
    pub fn from_u8(val: u8) -> (r: Self)
        requires
            val < 4,
        ensures
            r == scode_of(val),
    {
        if val == 0 {
            Self::RR
        } else if val == 1 {
            Self::REJ
        } else if val == 2 {
            Self::RNR
        } else {
            Self::SREJ
        }
    }

    /// Human-readable supervisory code name.
    pub fn display_string(&self) -> (s: String)
        ensures
            s@ == scode_display(*self),
    {
        match self {
            Self::RR => String::from_str("Receive Ready (RR)"),
            Self::REJ => String::from_str("Reject (REJ)"),
            Self::RNR => String::from_str("Receive Not Ready (RNR)"),
            Self::SREJ => String::from_str("Selective Reject (SREJ)"),
        }
    }
}

/// Unnumbered frame: 8-bit control with a 5-bit modifier code.
#[derive(Clone, Copy, Debug, PartialEq, Eq, Structural)]
pub struct UFrame {
    header: u8,
    is_command: bool,
}

impl UFrame {
    pub closed spec fn spec_header(self) -> u8 {
        self.header
    }

    pub closed spec fn spec_is_command(self) -> bool {
        self.is_command
    }

    pub fn new(header: u8, is_command: bool) -> (r: Self)
        ensures
            r.spec_header() == header,
            r.spec_is_command() == is_command,
    {
        UFrame { header, is_command }
    }

    /// Decode the 5-bit modifier: bit-reverse the control byte, gather the
    /// code bits, and look the code up. An unassigned code point is a hard
    /// decoding failure.
    pub fn ucode(&self) -> (r: Result<UCode, DecodeError>)
        ensures
            ucode_of(ucode_bits(self.spec_header()), self.spec_is_command()) matches Some(u) ==> r
                == Ok::<UCode, DecodeError>(u),
            ucode_of(ucode_bits(self.spec_header()), self.spec_is_command()) is None ==> r == Err::<
                UCode,
                DecodeError,
            >(DecodeError::UnrecognizedCode),
    {
        let rev = reverse_byte(self.header);
        let code = (rev & 0x07) | ((rev & 0x30) >> 1);
        UCode::from_u8(code, self.is_command)
    }

    /// Poll/final bit (bit 4 of the control byte).
    pub fn poll_final(&self) -> (r: bool)
        ensures
            r == ((self.spec_header() as int / 16) % 2 == 1),
    {
        self.header / 16 % 2 == 1
    }

    pub fn is_command(&self) -> (r: bool)
        ensures
            r == self.spec_is_command(),
    {
        self.is_command
    }
}

/// Information frame: 8-bit control with 3-bit sequence numbers.
#[derive(Clone, Copy, Debug, PartialEq, Eq, Structural)]
pub struct IFrame {
    header: u8,
    is_command: bool,
}

impl IFrame {
    pub closed spec fn spec_header(self) -> u8 {
        self.header
    }

    pub closed spec fn spec_is_command(self) -> bool {
        self.is_command
    }

    pub fn new(header: u8, is_command: bool) -> (r: Self)
        ensures
            r.spec_header() == header,
            r.spec_is_command() == is_command,
    {
        IFrame { header, is_command }
    }

    /// N(R), the receive sequence number (high three bits).
    pub fn rec_seq(&self) -> (r: U3)
        ensures
            r.spec_value() == self.spec_header() as int / 32,
    {
        U3::new(self.header / 32)
    }

    /// N(S), the send sequence number (bits 1-3).
    pub fn send_seq(&self) -> (r: U3)
        ensures
            r.spec_value() == (self.spec_header() as int / 2) % 8,
    {
        U3::new(self.header / 2 % 8)
    }

    /// Poll/final bit (bit 4 of the control byte).
    pub fn poll_final(&self) -> (r: bool)
        ensures
            r == ((self.spec_header() as int / 16) % 2 == 1),
    {
        self.header / 16 % 2 == 1
    }

    pub fn is_command(&self) -> (r: bool)
        ensures
            r == self.spec_is_command(),
    {
        self.is_command
    }
}

/// Information frame with a 16-bit extended control: 7-bit sequence
/// numbers, poll/final in the lowest bit.
#[derive(Clone, Copy, Debug, PartialEq, Eq, Structural)]
pub struct IFrameExt {
    header: u16,
    is_command: bool,
}

impl IFrameExt {
    pub closed spec fn spec_header(self) -> u16 {
        self.header
    }

    pub closed spec fn spec_is_command(self) -> bool {
        self.is_command
    }

    pub fn new(header: u16, is_command: bool) -> (r: Self)
        ensures
            r.spec_header() == header,
            r.spec_is_command() == is_command,
    {
        IFrameExt { header, is_command }
    }

    /// N(R), the receive sequence number (bits 1-7).
    pub fn rec_seq(&self) -> (r: U7)
        ensures
            r.spec_value() == (self.spec_header() as int / 2) % 128,
    {
        U7::new((self.header / 2 % 128) as u8)
    }

    /// N(S), the send sequence number (bits 9-15).
    pub fn send_seq(&self) -> (r: U7)
        ensures
            r.spec_value() == self.spec_header() as int / 512,
    {
        U7::new((self.header / 512) as u8)
    }

    /// Poll/final bit (lowest bit of the extended control).
    pub fn poll_final(&self) -> (r: bool)
        ensures
            r == (self.spec_header() as int % 2 == 1),
    {
        self.header % 2 == 1
    }

    pub fn is_command(&self) -> (r: bool)
        ensures
            r == self.spec_is_command(),
    {
        self.is_command
    }
}

/// Supervisory frame: 8-bit control with a 2-bit supervisory code.
#[derive(Clone, Copy, Debug, PartialEq, Eq, Structural)]
pub struct SFrame {
    header: u8,
    is_command: bool,
}

impl SFrame {
    pub closed spec fn spec_header(self) -> u8 {
        self.header
    }

    pub closed spec fn spec_is_command(self) -> bool {
        self.is_command
    }

    pub fn new(header: u8, is_command: bool) -> (r: Self)
        ensures
            r.spec_header() == header,
            r.spec_is_command() == is_command,
    {
        SFrame { header, is_command }
    }

    /// N(R), the receive sequence number (high three bits).
    pub fn rec_seq(&self) -> (r: U3)
        ensures
            r.spec_value() == self.spec_header() as int / 32,
    {
        U3::new(self.header / 32)
    }

    /// Poll/final bit (bit 4 of the control byte).
    pub fn poll_final(&self) -> (r: bool)
        ensures
            r == ((self.spec_header() as int / 16) % 2 == 1),
    {
        self.header / 16 % 2 == 1
    }

    /// Supervisory code (bits 2-3 of the control byte).
    pub fn scode(&self) -> (r: SCode)
        ensures
            r == scode_of(((self.spec_header() as int / 4) % 4) as u8),
    {
        SCode::from_u8(self.header / 4 % 4)
    }

    pub fn is_command(&self) -> (r: bool)
        ensures
            r == self.spec_is_command(),
    {
        self.is_command
    }
}

/// Supervisory frame with a 16-bit extended control: 7-bit receive
/// sequence number, poll/final in the lowest bit.
#[derive(Clone, Copy, Debug, PartialEq, Eq, Structural)]
pub struct SFrameExt {
    header: u16,
    is_command: bool,
}

impl SFrameExt {
    pub closed spec fn spec_header(self) -> u16 {
        self.header
    }

    pub closed spec fn spec_is_command(self) -> bool {
        self.is_command
    }

    pub fn new(header: u16, is_command: bool) -> (r: Self)
        ensures
            r.spec_header() == header,
            r.spec_is_command() == is_command,
    {
        SFrameExt { header, is_command }
    }

    /// N(R), the receive sequence number (bits 1-7).
    pub fn rec_seq(&self) -> (r: U7)
        ensures
            r.spec_value() == (self.spec_header() as int / 2) % 128,
    {
        U7::new((self.header / 2 % 128) as u8)
    }

    /// Poll/final bit (lowest bit of the extended control).
    pub fn poll_final(&self) -> (r: bool)
        ensures
            r == (self.spec_header() as int % 2 == 1),
    {
        self.header % 2 == 1
    }

    /// Supervisory code (bits 10-11 of the extended control).
    pub fn scode(&self) -> (r: SCode)
        ensures
            r == scode_of(((self.spec_header() as int / 1024) % 4) as u8),
    {
        SCode::from_u8((self.header / 1024 % 4) as u8)
    }

    pub fn is_command(&self) -> (r: bool)
        ensures
            r == self.spec_is_command(),
    {
        self.is_command
    }
}

/// The decoded control field of an LLC frame.
pub enum LlcControl {
    UFrame(UFrame),
    IFrame(IFrame),
    IFrameExt(IFrameExt),
    SFrame(SFrame),
    SFrameExt(SFrameExt),
}

/// The rendering of each control class.
pub open spec fn llc_control_display(c: LlcControl) -> Seq<char> {
    match c {
        LlcControl::UFrame(_) => "Unnumbered Frame"@,
        LlcControl::IFrame(_) => "Information Frame"@,
        LlcControl::IFrameExt(_) => "Information Extended Frame"@,
        LlcControl::SFrame(_) => "Supervisory frame"@,
        LlcControl::SFrameExt(_) => "Supervisory Extended Frame "@,
    }
}

impl LlcControl {
    /// Human-readable control class name.
    pub fn display_string(&self) -> (s: String)
        ensures
            s@ == llc_control_display(*self),
    {
        match self {
            LlcControl::UFrame(_) => String::from_str("Unnumbered Frame"),
            LlcControl::IFrame(_) => String::from_str("Information Frame"),
            LlcControl::IFrameExt(_) => String::from_str("Information Extended Frame"),
            LlcControl::SFrame(_) => String::from_str("Supervisory frame"),
            LlcControl::SFrameExt(_) => String::from_str("Supervisory Extended Frame "),
        }
    }
}

/// The frame is U-type: the lowest two bits of the first control byte are
/// both set.
pub open spec fn llc_u_type(b: Seq<u8>) -> bool {
    b[2] as int % 4 == 3
}

/// Header width: 3 bytes for a U-frame (8-bit control), 4 bytes otherwise
/// (16-bit control).
pub open spec fn llc_header_len(b: Seq<u8>) -> int {
    if llc_u_type(b) {
        3
    } else {
        4
    }
}

/// The bytes can carry an LLC header of the width the control bits select.
pub open spec fn llc_parsable(b: Seq<u8>) -> bool {
    &&& b.len() >= 3
    &&& b.len() >= llc_header_len(b)
}

/// Zero-copy view of an IEEE 802.2 LLC frame: 3- or 4-byte header (the
/// control bits decide, before the control itself is decoded) and payload.
pub struct IeeeLlcFrame<'a> {
    header: &'a [u8],
    payload: &'a [u8],
}

impl<'a> IeeeLlcFrame<'a> {
    pub closed spec fn spec_header(self) -> Seq<u8> {
        self.header@
    }

    pub closed spec fn spec_payload(self) -> Seq<u8> {
        self.payload@
    }

    /// Structural invariant: the header width matches the control bits.
    pub open spec fn wf(self) -> bool {
        &&& (self.spec_header().len() == 3 || self.spec_header().len() == 4)
        &&& self.spec_header().len() == llc_header_len(self.spec_header())
    }

    pub open spec fn is_parse_of(self, b: Seq<u8>) -> bool {
        &&& self.spec_header() == b.subrange(0, llc_header_len(b))
        &&& self.spec_payload() == b.subrange(llc_header_len(b), b.len() as int)
    }

    /// View a byte slice as an LLC frame: split the header at the width
    /// the control bits select.
    pub fn from_bytes(slice: &'a [u8]) -> (r: Result<Self, DecodeError>)
        ensures
            llc_parsable(slice@) ==> (r matches Ok(f) && f.wf() && f.is_parse_of(slice@)),
            !llc_parsable(slice@) ==> r == Err::<Self, DecodeError>(DecodeError::BufferTooShort),
    {
        if slice.len() < 3 {
            return Err(DecodeError::BufferTooShort);
        }
        let header_len: usize = if slice[2] % 4 == 3 {
            3
        } else {
            4
        };
        if slice.len() < header_len {
            return Err(DecodeError::BufferTooShort);
        }
        let header = slice_subrange(slice, 0, header_len);
        let payload = slice_subrange(slice, header_len, slice.len());
        Ok(IeeeLlcFrame { header, payload })
    }

    pub fn raw_header(&self) -> (r: &'a [u8])
        ensures
            r@ == self.spec_header(),
    {
        self.header
    }

    pub fn payload(&self) -> (r: &'a [u8])
        ensures
            r@ == self.spec_payload(),
    {
        self.payload
    }

    /// Destination SAP name.
    pub fn dsap(&self) -> (r: SapName)
        requires
            self.wf(),
        ensures
            r == sap_name_of(self.spec_header()[0]),
    {
        SapName::from_u8(self.header[0])
    }

    /// Source SAP name.
    pub fn ssap(&self) -> (r: SapName)
        requires
            self.wf(),
        ensures
            r == sap_name_of(self.spec_header()[1]),
    {
        SapName::from_u8(self.header[1])
    }

    /// Individual (not group) destination: bit 0 of DSAP is clear.
    pub fn is_individual(&self) -> (r: bool)
        requires
            self.wf(),
        ensures
            r == (self.spec_header()[0] as int % 2 == 0),
    {
        self.header[0] % 2 == 0
    }

    /// Command (not response) frame: bit 0 of SSAP is clear.
    pub fn is_command(&self) -> (r: bool)
        requires
            self.wf(),
        ensures
            r == (self.spec_header()[1] as int % 2 == 0),
    {
        self.header[1] % 2 == 0
    }

    /// The raw control bytes: one for a U-frame, two otherwise.
    pub fn raw_control(&self) -> (r: &'a [u8])
        requires
            self.wf(),
        ensures
            r@ == self.spec_header().subrange(2, self.spec_header().len() as int),
    {
        slice_subrange(self.header, 2, self.header.len())
    }

    /// Decode the control field, consuming the view: an 8-bit control is
    /// classified by its low two bits, a 16-bit control by the low two
    /// bits of its first byte.
    pub fn control(self) -> (r: LlcControl)
        requires
            self.wf(),
        ensures
            ({
                let h = self.spec_header();
                let cmd = h[1] as int % 2 == 0;
                &&& (h.len() == 3 && h[2] as int % 4 == 3 ==> (r matches LlcControl::UFrame(u)
                    && u.spec_header() == h[2] && u.spec_is_command() == cmd))
                &&& (h.len() == 3 && h[2] as int % 4 == 1 ==> (r matches LlcControl::SFrame(s)
                    && s.spec_header() == h[2] && s.spec_is_command() == cmd))
                &&& (h.len() == 3 && h[2] as int % 4 != 3 && h[2] as int % 4 != 1 ==> (r matches
                    LlcControl::IFrame(i) && i.spec_header() == h[2] && i.spec_is_command() == cmd))
                &&& (h.len() == 4 && h[2] as int % 4 == 3 ==> (r matches LlcControl::UFrame(u)
                    && u.spec_header() == h[2] && u.spec_is_command() == cmd))
                &&& (h.len() == 4 && h[2] as int % 4 == 1 ==> (r matches LlcControl::SFrameExt(s)
                    && s.spec_header() == spec_be16(h[2], h[3]) && s.spec_is_command() == cmd))
                &&& (h.len() == 4 && h[2] as int % 4 != 3 && h[2] as int % 4 != 1 ==> (r matches
                    LlcControl::IFrameExt(i) && i.spec_header() == spec_be16(h[2], h[3])
                    && i.spec_is_command() == cmd))
            }),
    {
        let cmd = self.is_command();
        if self.header.len() == 3 {
            let control = self.header[2];
            match control % 4 {
                3 => LlcControl::UFrame(UFrame::new(control, cmd)),
                1 => LlcControl::SFrame(SFrame::new(control, cmd)),
                _ => LlcControl::IFrame(IFrame::new(control, cmd)),
            }
        } else {
            let hi = self.header[2];
            let control = be16(self.header[2], self.header[3]);
            match hi % 4 {
                3 => LlcControl::UFrame(UFrame::new(hi, cmd)),
                1 => LlcControl::SFrameExt(SFrameExt::new(control, cmd)),
                _ => LlcControl::IFrameExt(IFrameExt::new(control, cmd)),
            }
        }
    }
}

} // verus!
