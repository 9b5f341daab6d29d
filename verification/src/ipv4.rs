//! IPv4 header view (RFC 791): fixed 20-byte header, optional options
//! segment of `(IHL - 5) * 4` bytes, payload, and the header-only
//! one's-complement integrity check.

use vstd::prelude::*;
use vstd::slice::slice_subrange;
use vstd::array::array_as_slice;
use vstd::string::StringExecFns;
use crate::DecodeError;
use crate::UnknownFrame;
use crate::render::hex_min2;
use crate::render::push_hex_min2;
use crate::tcp::TcpFrame;
use crate::tcp::tcp_parsable;
use crate::tcp::tcp_parse_err;
use crate::udp::UdpFrame;
use crate::icmp::IcmpFrame;
use crate::igmp::IgmpFrame;
use crate::pseudo::ipv4_pseudo;
use crate::spec_be16;
use crate::be16;
use crate::addr::Ipv4Address;
use crate::narrow::U2;
use crate::narrow::U4;
use crate::narrow::U6;
use crate::narrow::U13;
use crate::checksum::checksum16_u8_spec;
use crate::checksum::sum16_u8_spec;
use crate::checksum::byte_pair_sum;
use crate::checksum::ones_fold;
use crate::checksum::word_sum;
use crate::checksum::u8_checksum16;
use crate::checksum::u16_checksum16;
use crate::checksum::u8_slice_to_sum16;
use crate::checksum::lemma_byte_pair_sum_concat;
use crate::checksum::lemma_byte_pair_sum_nonneg;
use crate::checksum::lemma_byte_pair_sum_update;
use crate::checksum::lemma_ones_fold_add;
use crate::checksum::lemma_ones_fold_properties;
use crate::checksum::lemma_word_sum_two;
use vstd::arithmetic::div_mod::lemma_fundamental_div_mod;
use vstd::arithmetic::div_mod::lemma_add_mod_noop;
use vstd::arithmetic::div_mod::lemma_sub_mod_noop;
use vstd::arithmetic::div_mod::lemma_small_mod;
use vstd::arithmetic::div_mod::lemma_mod_self_0;
use vstd::arithmetic::div_mod::lemma_mod_twice;
use vstd::arithmetic::div_mod::lemma_mod_add_multiples_vanish;

verus! {

/// The IHL field: low nibble of the first header byte.
pub open spec fn ipv4_ihl(b: Seq<u8>) -> int {
    b[0] as int % 16
}

/// The bytes can carry an IPv4 header: room for the fixed part, a legal
/// IHL, and room for the full header IHL promises.
pub open spec fn ipv4_parsable(b: Seq<u8>) -> bool {
    &&& b.len() >= 20
    &&& ipv4_ihl(b) >= 5
    &&& 4 * ipv4_ihl(b) <= b.len()
}

/// The failure reported for bytes that cannot carry an IPv4 header.
pub open spec fn ipv4_parse_err(b: Seq<u8>) -> DecodeError {
    if b.len() < 20 {
        DecodeError::BufferTooShort
    } else if ipv4_ihl(b) < 5 {
        DecodeError::InvalidHeader
    } else {
        DecodeError::BufferTooShort
    }
}

/// The transport protocol an IP packet hands its payload to, as a view of
/// that payload; protocols the decoder does not recognize are carried raw.
pub enum IpProtocol<'a> {
    Tcp(TcpFrame<'a>),
    Udp(UdpFrame<'a>),
    Icmp(IcmpFrame<'a>),
    Igmp(IgmpFrame<'a>),
    Other(UnknownFrame<'a>),
}

/// The rendering of each transport protocol tag.
pub open spec fn ip_protocol_display(p: IpProtocol) -> Seq<char> {
    match p {
        IpProtocol::Tcp(_) => "TCP (0x06)"@,
        IpProtocol::Udp(_) => "UDP (0x11)"@,
        IpProtocol::Icmp(_) => "ICMP (0x01)"@,
        IpProtocol::Igmp(_) => "IGMP (0x02)"@,
        IpProtocol::Other(u) => "Other (0x"@ + hex_min2(u.spec_type_id()) + ")"@,
    }
}

impl<'a> IpProtocol<'a> {
    /// Human-readable protocol name and number.
    pub fn display_string(&self) -> (s: String)
        ensures
            s@ == ip_protocol_display(*self),
    {
        match self {
            IpProtocol::Tcp(_) => String::from_str("TCP (0x06)"),
            IpProtocol::Udp(_) => String::from_str("UDP (0x11)"),
            IpProtocol::Icmp(_) => String::from_str("ICMP (0x01)"),
            IpProtocol::Igmp(_) => String::from_str("IGMP (0x02)"),
            IpProtocol::Other(u) => {
                let mut s = String::from_str("Other (0x");
                push_hex_min2(&mut s, u.type_id());
                s.append(")");
                s
            },
        }
    }
}

/// Zero-copy view of an IPv4 packet: fixed header, options (present only
/// when IHL > 5), payload.
pub struct Ipv4Frame<'a> {
    header: &'a [u8],
    opts: Option<&'a [u8]>,
    payload: &'a [u8],
}

impl<'a> Ipv4Frame<'a> {
    pub closed spec fn spec_header(self) -> Seq<u8> {
        self.header@
    }

    pub closed spec fn spec_has_opts(self) -> bool {
        self.opts is Some
    }

    pub closed spec fn spec_opts_bytes(self) -> Seq<u8> {
        match self.opts {
            Some(o) => o@,
            None => Seq::empty(),
        }
    }

    pub closed spec fn spec_payload(self) -> Seq<u8> {
        self.payload@
    }

    /// Structural invariant of a decoded view.
    pub open spec fn wf(self) -> bool {
        &&& self.spec_header().len() == 20
        &&& 4 * ipv4_ihl(self.spec_header()) == 20 + self.spec_opts_bytes().len()
        &&& (self.spec_has_opts() <==> self.spec_opts_bytes().len() > 0)
        &&& self.spec_opts_bytes().len() % 4 == 0
        &&& self.spec_payload().len() < 0x1_0000_0000
    }

    /// The view splits the given bytes at the offsets IHL prescribes.
    pub open spec fn is_parse_of(self, b: Seq<u8>) -> bool {
        &&& self.spec_header() == b.subrange(0, 20)
        &&& self.spec_opts_bytes() == b.subrange(20, 4 * ipv4_ihl(b))
        &&& self.spec_payload() == b.subrange(4 * ipv4_ihl(b), b.len() as int)
    }

    /// Split a byte slice into an IPv4 view, reporting exactly why the
    /// bytes cannot carry one.
    pub fn from_bytes(slice: &'a [u8]) -> (r: Result<Self, DecodeError>)
        requires
            slice@.len() < 0x1_0000_0000,
        ensures
            ipv4_parsable(slice@) ==> (r matches Ok(f) && f.wf() && f.is_parse_of(slice@)),
            !ipv4_parsable(slice@) ==> r == Err::<Self, DecodeError>(ipv4_parse_err(slice@)),
    {
        if slice.len() < 20 {
            return Err(DecodeError::BufferTooShort);
        }
        let ihl = slice[0] % 16;
        if ihl < 5 {
            return Err(DecodeError::InvalidHeader);
        }
        let header_len: usize = 4 * (ihl as usize);
        if header_len > slice.len() {
            return Err(DecodeError::BufferTooShort);
        }
        let header = slice_subrange(slice, 0, 20);
        let opts_slice = slice_subrange(slice, 20, header_len);
        let payload = slice_subrange(slice, header_len, slice.len());
        let opts = if header_len == 20 {
            None
        } else {
            Some(opts_slice)
        };
        let f = Ipv4Frame { header, opts, payload };
        proof {
            assert(f.spec_header() == slice@.subrange(0, 20));
            if header_len == 20 {
                assert(f.spec_opts_bytes() =~= slice@.subrange(20, 20));
            }
            assert((4 * ipv4_ihl(slice@) - 20) % 4 == 0) by {
                assert(4 * ipv4_ihl(slice@) - 20 == 4 * (ipv4_ihl(slice@) - 5));
                vstd::arithmetic::div_mod::lemma_mod_multiples_basic(ipv4_ihl(slice@) - 5, 4);
            }
        }
        Ok(f)
    }

    pub fn raw_header(&self) -> (r: &'a [u8])
        ensures
            r@ == self.spec_header(),
    {
        self.header
    }

    /// Version nibble (high nibble of byte 0).
    pub fn ver(&self) -> (r: U4)
        requires
            self.wf(),
        ensures
            r.spec_value() == self.spec_header()[0] as int / 16,
    {
        U4::new(self.header[0] / 16)
    }

    /// Header length in 32-bit words (low nibble of byte 0).
    pub fn ihl(&self) -> (r: U4)
        requires
            self.wf(),
        ensures
            r.spec_value() == ipv4_ihl(self.spec_header()),
    {
        U4::new(self.header[0] % 16)
    }

    /// Differentiated services code point (high six bits of byte 1).
    pub fn dscp(&self) -> (r: U6)
        requires
            self.wf(),
        ensures
            r.spec_value() == self.spec_header()[1] as int / 4,
    {
        U6::new(self.header[1] / 4)
    }

    /// Explicit congestion notification (low two bits of byte 1).
    pub fn ecn(&self) -> (r: U2)
        requires
            self.wf(),
        ensures
            r.spec_value() == self.spec_header()[1] as int % 4,
    {
        U2::new(self.header[1] % 4)
    }

    pub fn total_len(&self) -> (r: u16)
        requires
            self.wf(),
        ensures
            r == spec_be16(self.spec_header()[2], self.spec_header()[3]),
    {
        be16(self.header[2], self.header[3])
    }

    pub fn id(&self) -> (r: u16)
        requires
            self.wf(),
        ensures
            r == spec_be16(self.spec_header()[4], self.spec_header()[5]),
    {
        be16(self.header[4], self.header[5])
    }

    /// The three flag bits (high three bits of byte 6).
    pub fn flags(&self) -> (r: u8)
        requires
            self.wf(),
        ensures
            r == self.spec_header()[6] as int / 32,
    {
        self.header[6] / 32
    }

    /// DF is the middle flag bit (weight 2 within the three-bit field).
    pub fn dont_fragment(&self) -> (r: bool)
        requires
            self.wf(),
        ensures
            r == ((self.spec_header()[6] as int / 64) % 2 == 1),
    {
        (self.header[6] / 32) / 2 % 2 == 1
    }

    /// MF is the lowest flag bit (weight 1 within the three-bit field).
    pub fn more_fragments(&self) -> (r: bool)
        requires
            self.wf(),
        ensures
            r == ((self.spec_header()[6] as int / 32) % 2 == 1),
    {
        (self.header[6] / 32) % 2 == 1
    }

    /// 13-bit fragment offset (low five bits of byte 6 and byte 7).
    pub fn offset(&self) -> (r: U13)
        requires
            self.wf(),
        ensures
            r.spec_value() == 256 * (self.spec_header()[6] as int % 32) + self.spec_header()[7],
    {
        U13::new(256 * ((self.header[6] % 32) as u16) + self.header[7] as u16)
    }

    pub fn ttl(&self) -> (r: u8)
        requires
            self.wf(),
        ensures
            r == self.spec_header()[8],
    {
        self.header[8]
    }

    pub fn protocol(&self) -> (r: u8)
        requires
            self.wf(),
        ensures
            r == self.spec_header()[9],
    {
        self.header[9]
    }

    pub fn checksum(&self) -> (r: u16)
        requires
            self.wf(),
        ensures
            r == spec_be16(self.spec_header()[10], self.spec_header()[11]),
    {
        be16(self.header[10], self.header[11])
    }

    pub fn src_addr(&self) -> (r: Ipv4Address)
        requires
            self.wf(),
        ensures
            r.spec_octets() == self.spec_header().subrange(12, 16),
    {
        let r = Ipv4Address::from_octets(
            [self.header[12], self.header[13], self.header[14], self.header[15]],
        );
        proof {
            assert(r.spec_octets() =~= self.spec_header().subrange(12, 16));
        }
        r
    }

    pub fn dest_addr(&self) -> (r: Ipv4Address)
        requires
            self.wf(),
        ensures
            r.spec_octets() == self.spec_header().subrange(16, 20),
    {
        let r = Ipv4Address::from_octets(
            [self.header[16], self.header[17], self.header[18], self.header[19]],
        );
        proof {
            assert(r.spec_octets() =~= self.spec_header().subrange(16, 20));
        }
        r
    }

    /// Header length in bytes: IHL times four.
    pub fn header_len(&self) -> (r: u16)
        requires
            self.wf(),
        ensures
            r == 4 * ipv4_ihl(self.spec_header()),
    {
        4 * (self.header[0] % 16) as u16
    }

    pub fn payload(&self) -> (r: &'a [u8])
        ensures
            r@ == self.spec_payload(),
    {
        self.payload
    }

    pub fn opts(&self) -> (r: Option<&'a [u8]>)
        ensures
            self.spec_has_opts() ==> (r matches Some(o) && o@ == self.spec_opts_bytes()),
            !self.spec_has_opts() ==> r is None,
    {
        self.opts
    }

    /// Hand the payload to the transport protocol the protocol byte names
    /// (TCP, UDP, ICMP or IGMP), consuming this view; any other protocol
    /// number is surfaced raw with the untouched payload.
    pub fn try_next_header(self) -> (r: Result<IpProtocol<'a>, DecodeError>)
        requires
            self.wf(),
        ensures
            ({
                let p = self.spec_payload();
                let proto = self.spec_header()[9];
                &&& (proto == 0x06 && tcp_parsable(p) ==> (r matches Ok(v) && v matches
                    IpProtocol::Tcp(f) && f.wf() && f.is_parse_of(p) && f.spec_pseudo()
                    == ipv4_pseudo(self.spec_header(), 0x06, p.len() as int % 0x1_0000)))
                &&& (proto == 0x06 && !tcp_parsable(p) ==> r == Err::<IpProtocol<'a>, DecodeError>(
                    tcp_parse_err(p),
                ))
                &&& (proto == 0x11 && p.len() >= 8 ==> (r matches Ok(v) && v matches
                    IpProtocol::Udp(f) && f.wf() && f.is_parse_of(p) && f.spec_pseudo()
                    == ipv4_pseudo(self.spec_header(), 0x11, p.len() as int % 0x1_0000)))
                &&& (proto == 0x11 && p.len() < 8 ==> r == Err::<IpProtocol<'a>, DecodeError>(
                    DecodeError::BufferTooShort,
                ))
                &&& (proto == 0x01 && p.len() >= 8 ==> (r matches Ok(v) && v matches
                    IpProtocol::Icmp(f) && f.wf() && f.is_parse_of(p)))
                &&& (proto == 0x01 && p.len() < 8 ==> r == Err::<IpProtocol<'a>, DecodeError>(
                    DecodeError::BufferTooShort,
                ))
                &&& (proto == 0x02 && p.len() >= 8 ==> (r matches Ok(v) && v matches
                    IpProtocol::Igmp(f) && f.wf() && f.is_parse_of(p)))
                &&& (proto == 0x02 && p.len() < 8 ==> r == Err::<IpProtocol<'a>, DecodeError>(
                    DecodeError::BufferTooShort,
                ))
                &&& (proto != 0x01 && proto != 0x02 && proto != 0x06 && proto != 0x11 ==> (r
                    matches Ok(v) && v matches IpProtocol::Other(u) && u.spec_type_id() == proto
                    && u.spec_payload() == p))
            }),
    {
        match self.protocol() {
            0x06 => match TcpFrame::from_ipv4(self) {
                Ok(f) => Ok(IpProtocol::Tcp(f)),
                Err(e) => Err(e),
            },
            0x11 => match UdpFrame::from_ipv4(self) {
                Ok(f) => Ok(IpProtocol::Udp(f)),
                Err(e) => Err(e),
            },
            0x01 => match IcmpFrame::from_ipv4(self) {
                Ok(f) => Ok(IpProtocol::Icmp(f)),
                Err(e) => Err(e),
            },
            0x02 => match IgmpFrame::from_ipv4(self) {
                Ok(f) => Ok(IpProtocol::Igmp(f)),
                Err(e) => Err(e),
            },
            other => Ok(IpProtocol::Other(UnknownFrame::from_u8_slice(self.payload, other as u16))),
        }
    }

    /// The header checksums to zero: `checksum16_u8(header ++ opts) == 0`.
    pub open spec fn spec_has_integrity(self) -> bool {
        checksum16_u8_spec(self.spec_header() + self.spec_opts_bytes()) == 0
    }

    pub fn has_integrity(&self) -> (r: bool)
        requires
            self.wf(),
        ensures
            r == self.spec_has_integrity(),
    {
        match self.opts {
            None => {
                let c = u8_checksum16(self.header);
                proof {
                    assert(self.spec_header() + self.spec_opts_bytes() =~= self.spec_header());
                }
                c == 0
            },
            Some(opts) => {
                let sh = u8_slice_to_sum16(self.header);
                let so = u8_slice_to_sum16(opts);
                let words: [u16; 2] = [sh, so];
                let c = u16_checksum16(array_as_slice(&words));
                proof {
                    assert(words@ =~= seq![sh, so]);
                    lemma_word_sum_two(sh, so);
                    lemma_byte_pair_sum_nonneg(self.spec_header());
                    lemma_byte_pair_sum_nonneg(self.spec_opts_bytes());
                    lemma_ones_fold_add(
                        byte_pair_sum(self.spec_header()),
                        byte_pair_sum(self.spec_opts_bytes()),
                    );
                    lemma_byte_pair_sum_concat(self.spec_header(), self.spec_opts_bytes());
                }
                c == 0
            },
        }
    }
}

/// Writing the standard checksum into the IPv4 checksum field makes the
/// header pass the integrity check: take any even-length header-and-options
/// byte sequence, zero bytes 10 and 11, complement the folded sum of the
/// result, and store it big-endian at bytes 10 and 11; the whole then
/// checksums to zero.
pub proof fn lemma_ipv4_checksum_roundtrip(h: Seq<u8>)
    requires
        h.len() >= 12,
        h.len() % 2 == 0,
    ensures
        ({
            let h0 = h.update(10, 0u8).update(11, 0u8);
            let c = checksum16_u8_spec(h0);
            let h1 = h0.update(10, (c / 256) as u8).update(11, (c % 256) as u8);
            checksum16_u8_spec(h1) == 0
        }),
{
    let h0 = h.update(10, 0u8).update(11, 0u8);
    let s0 = byte_pair_sum(h0);
    lemma_byte_pair_sum_nonneg(h0);
    lemma_ones_fold_properties(s0);
    let f = ones_fold(s0);
    let c = 0xFFFF - f;
    let hi = (c / 256) as u8;
    let lo = (c % 256) as u8;
    let ha = h0.update(10, hi);
    let h1 = ha.update(11, lo);

    // Writing the two checksum bytes adds exactly `c` to the paired sum.
    lemma_byte_pair_sum_update(h0, 10, hi);
    assert(h0[10] == 0 && h0[11] == 0);
    lemma_byte_pair_sum_update(ha, 11, lo);
    assert(ha[11] == 0);
    lemma_fundamental_div_mod(c, 256);
    assert(byte_pair_sum(h1) == s0 + c);

    // The total is a positive multiple of 0xFFFF, so it folds to 0xFFFF
    // and its complement is zero.
    let t = s0 + c;
    assert(t == (s0 - f) + 0xFFFF);
    lemma_sub_mod_noop(s0, f, 0xFFFF);
    lemma_mod_self_0(0xFFFF);
    assert((s0 - f) % 0xFFFF == 0) by {
        assert(s0 % 0xFFFF == f % 0xFFFF);
        assert((s0 % 0xFFFF - f % 0xFFFF) % 0xFFFF == (s0 - f) % 0xFFFF);
        lemma_small_mod(0, 0xFFFF);
    }
    lemma_add_mod_noop(s0 - f, 0xFFFF, 0xFFFF);
    lemma_small_mod(0, 0xFFFF);
    assert(t % 0xFFFF == 0);
    assert(t > 0);
    assert(ones_fold(t) == 0xFFFF);
}

/// The bit `j` of byte `i` flipped.
pub open spec fn flip_bit(b: u8, j: int) -> u8 {
    b ^ (1u8 << (j as u8))
}

/// A single flipped bit never escapes the checksum: if a header-and-options
/// byte sequence checksums to zero, the same sequence with any one bit of
/// any byte flipped does not.
pub proof fn lemma_ipv4_checksum_bit_flip(h: Seq<u8>, i: int, j: int)
    requires
        0 <= i < h.len(),
        0 <= j < 8,
        checksum16_u8_spec(h) == 0,
    ensures
        checksum16_u8_spec(h.update(i, flip_bit(h[i], j))) != 0,
{
    let s = byte_pair_sum(h);
    lemma_byte_pair_sum_nonneg(h);
    lemma_ones_fold_properties(s);
    // Integrity means the sum folds to 0xFFFF: a positive multiple of 0xFFFF.
    assert(ones_fold(s) == 0xFFFF);
    assert(s % 0xFFFF == 0 && s > 0) by {
        lemma_mod_self_0(0xFFFF);
        if s % 0xFFFF != 0 {
            assert(ones_fold(s) == s % 0xFFFF);
            vstd::arithmetic::div_mod::lemma_mod_division_less_than_divisor(s, 0xFFFF);
        }
    }

    // Flipping bit j changes the byte by exactly +/- 2^j.
    let b = h[i];
    let x = flip_bit(h[i], j);
    let jj = j as u8;
    assert(jj < 8 ==> (((b ^ (1u8 << jj)) as int == b + (1u8 << jj) || (b ^ (1u8 << jj)) as int
        == b - (1u8 << jj)) && 1 <= (1u8 << jj) <= 128)) by (bit_vector);
    let pow = (1u8 << jj) as int;
    assert(x as int == b + pow || x as int == b - pow);

    // So the paired sum changes by +/- 2^j or +/- 2^(j+8): nonzero modulo
    // 0xFFFF in every case.
    let h2 = h.update(i, x);
    lemma_byte_pair_sum_update(h, i, x);
    let coeff: int = if i % 2 == 0 {
        256
    } else {
        1
    };
    let d = coeff * (x - b);
    assert(byte_pair_sum(h2) == s + d);
    assert(d == pow * coeff || d == -(pow * coeff));
    assert(1 <= pow * coeff <= 32768);
    let s2 = byte_pair_sum(h2);
    lemma_byte_pair_sum_nonneg(h2);

    // s2 mod 0xFFFF equals d mod 0xFFFF, which is not zero.
    lemma_add_mod_noop(s, d, 0xFFFF);
    lemma_mod_self_0(0xFFFF);
    lemma_mod_twice(d, 0xFFFF);
    assert(s2 % 0xFFFF == d % 0xFFFF);
    if d > 0 {
        lemma_small_mod(d as nat, 0xFFFF);
        assert(d % 0xFFFF == d);
    } else {
        lemma_mod_add_multiples_vanish(d, 0xFFFF);
        lemma_small_mod((d + 0xFFFF) as nat, 0xFFFF);
        assert(d % 0xFFFF == d + 0xFFFF);
    }
    assert(s2 % 0xFFFF != 0);
    lemma_ones_fold_properties(s2);
    assert(ones_fold(s2) == s2 % 0xFFFF);
    vstd::arithmetic::div_mod::lemma_mod_division_less_than_divisor(s2, 0xFFFF);
    assert(ones_fold(s2) < 0xFFFF);
}

} // verus!
