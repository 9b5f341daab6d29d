//! TCP view (RFC 793, with the NS/CWR/ECE flags): fixed 20-byte header,
//! optional options up to `data_offset * 4`, payload, and the
//! pseudo-header-aware integrity check. The pseudo-header partial sum is
//! precomputed from the parent network-layer view at construction time.

use vstd::prelude::*;
use vstd::slice::slice_subrange;
use vstd::array::array_as_slice;
use vstd::arithmetic::div_mod::lemma_mod_multiples_basic;
use crate::DecodeError;
use crate::spec_be16;
use crate::be16;
use crate::spec_be32;
use crate::be32;
use crate::narrow::U4;
use crate::checksum::checksum16_u8_spec;
use crate::checksum::sum16_u8_spec;
use crate::checksum::byte_pair_sum;
use crate::checksum::u8_slice_to_sum16;
use crate::checksum::u16_checksum16;
use crate::checksum::lemma_byte_pair_sum_concat;
use crate::checksum::lemma_byte_pair_sum_nonneg;
use crate::checksum::lemma_word_sum_four;
use crate::checksum::lemma_fold_sum4;
use crate::pseudo::ipv4_pseudo;
use crate::pseudo::ipv6_pseudo;
use crate::pseudo::ipv4_pseudo_sum;
use crate::pseudo::ipv6_pseudo_sum;
use crate::ipv4::Ipv4Frame;
use crate::ipv6::Ipv6Frame;

verus! {

/// The data-offset field: high nibble of transport byte 12, in 32-bit
/// words.
pub open spec fn tcp_data_offset(b: Seq<u8>) -> int {
    b[12] as int / 16
}

/// The bytes can carry a TCP segment: room for the fixed header, a legal
/// data offset, and room for the full header it promises.
pub open spec fn tcp_parsable(b: Seq<u8>) -> bool {
    &&& b.len() >= 20
    &&& tcp_data_offset(b) >= 5
    &&& 4 * tcp_data_offset(b) <= b.len()
}

/// The failure reported for bytes that cannot carry a TCP segment.
pub open spec fn tcp_parse_err(b: Seq<u8>) -> DecodeError {
    if b.len() < 20 {
        DecodeError::BufferTooShort
    } else if tcp_data_offset(b) < 5 {
        DecodeError::InvalidHeader
    } else {
        DecodeError::BufferTooShort
    }
}

/// Zero-copy view of a TCP segment: fixed header, options (present only
/// when the data offset exceeds 5 words), payload, plus the folded
/// pseudo-header partial sum of the enclosing network layer (the
/// pseudo-header bytes themselves are kept as a ghost model).
pub struct TcpFrame<'a> {
    pseudo_header_sum: u16,
    pseudo: Ghost<Seq<u8>>,
    header: &'a [u8],
    opts: Option<&'a [u8]>,
    payload: &'a [u8],
}

impl<'a> TcpFrame<'a> {
    pub closed spec fn spec_header(self) -> Seq<u8> {
        self.header@
    }

    pub closed spec fn spec_has_opts(self) -> bool {
        self.opts is Some
    }

    pub closed spec fn spec_opts_bytes(self) -> Seq<u8> {
        match self.opts {
            Some(o) => o@,
            None => Seq::empty(),
        }
    }

    pub closed spec fn spec_payload(self) -> Seq<u8> {
        self.payload@
    }

    /// The pseudo-header bytes the stored partial sum covers.
    pub closed spec fn spec_pseudo(self) -> Seq<u8> {
        self.pseudo@
    }

    pub closed spec fn spec_pseudo_sum(self) -> u16 {
        self.pseudo_header_sum
    }

    /// Structural invariant: header and options lengths agree with the
    /// data offset, and the stored scalar is the folded sum of the
    /// even-length pseudo-header byte model.
    pub open spec fn wf(self) -> bool {
        &&& self.spec_header().len() == 20
        &&& 4 * tcp_data_offset(self.spec_header()) == 20 + self.spec_opts_bytes().len()
        &&& (self.spec_has_opts() <==> self.spec_opts_bytes().len() > 0)
        &&& self.spec_opts_bytes().len() % 4 == 0
        &&& self.spec_pseudo().len() % 2 == 0
        &&& self.spec_pseudo_sum() == sum16_u8_spec(self.spec_pseudo())
        &&& self.spec_payload().len() < 0x1_0000_0000
    }

    /// The view splits the given transport bytes at the offsets the data
    /// offset prescribes.
    pub open spec fn is_parse_of(self, b: Seq<u8>) -> bool {
        &&& self.spec_header() == b.subrange(0, 20)
        &&& self.spec_opts_bytes() == b.subrange(20, 4 * tcp_data_offset(b))
        &&& self.spec_payload() == b.subrange(4 * tcp_data_offset(b), b.len() as int)
    }

    /// Split transport bytes into header, options and payload.
    fn split_transport(payload: &'a [u8]) -> (r: Result<
        (&'a [u8], Option<&'a [u8]>, &'a [u8]),
        DecodeError,
    >)
        requires
            payload@.len() < 0x1_0000_0000,
        ensures
            tcp_parsable(payload@) ==> (r matches Ok((h, o, p)) && h@ == payload@.subrange(0, 20)
                && (match o {
                Some(ob) => ob@ == payload@.subrange(20, 4 * tcp_data_offset(payload@))
                    && ob@.len() > 0,
                None => 4 * tcp_data_offset(payload@) == 20,
            }) && p@ == payload@.subrange(4 * tcp_data_offset(payload@), payload@.len() as int)),
            !tcp_parsable(payload@) ==> r == Err::<(&'a [u8], Option<&'a [u8]>, &'a [u8]),
                DecodeError,
            >(tcp_parse_err(payload@)),
    {
        if payload.len() < 20 {
            return Err(DecodeError::BufferTooShort);
        }
        let data_offset = payload[12] / 16;
        if data_offset < 5 {
            return Err(DecodeError::InvalidHeader);
        }
        let header_len: usize = 4 * (data_offset as usize);
        if header_len > payload.len() {
            return Err(DecodeError::BufferTooShort);
        }
        let header = slice_subrange(payload, 0, 20);
        let opts_slice = slice_subrange(payload, 20, header_len);
        let rest = slice_subrange(payload, header_len, payload.len());
        let opts = if header_len == 20 {
            None
        } else {
            Some(opts_slice)
        };
        Ok((header, opts, rest))
    }

    /// View an IPv4 payload as a TCP segment, with the pseudo-header
    /// partial sum derived from the IPv4 header.
    pub fn from_ipv4(frame: Ipv4Frame<'a>) -> (r: Result<Self, DecodeError>)
        requires
            frame.wf(),
        ensures
            tcp_parsable(frame.spec_payload()) ==> (r matches Ok(f) && f.wf() && f.is_parse_of(
                frame.spec_payload(),
            ) && f.spec_pseudo() == ipv4_pseudo(
                frame.spec_header(),
                0x06,
                frame.spec_payload().len() as int % 0x1_0000,
            )),
            !tcp_parsable(frame.spec_payload()) ==> r == Err::<Self, DecodeError>(
                tcp_parse_err(frame.spec_payload()),
            ),
    {
        let psum = ipv4_pseudo_sum(&frame, 0x06);
        let ghost pseudo = ipv4_pseudo(
            frame.spec_header(),
            0x06,
            frame.spec_payload().len() as int % 0x1_0000,
        );
        let payload = frame.payload();
        match Self::split_transport(payload) {
            Ok((header, opts, rest)) => {
                let f = TcpFrame {
                    pseudo_header_sum: psum,
                    pseudo: Ghost(pseudo),
                    header,
                    opts,
                    payload: rest,
                };
                proof {
                    lemma_opts_len_mod4(payload@);
                    if 4 * tcp_data_offset(payload@) == 20 {
                        assert(Seq::<u8>::empty() =~= payload@.subrange(
                            20,
                            4 * tcp_data_offset(payload@),
                        ));
                    }
                }
                Ok(f)
            },
            Err(e) => Err(e),
        }
    }

    /// View an IPv6 payload as a TCP segment, with the pseudo-header
    /// partial sum derived from the IPv6 header.
    pub fn from_ipv6(frame: Ipv6Frame<'a>) -> (r: Result<Self, DecodeError>)
        requires
            frame.wf(),
        ensures
            tcp_parsable(frame.spec_payload()) ==> (r matches Ok(f) && f.wf() && f.is_parse_of(
                frame.spec_payload(),
            ) && f.spec_pseudo() == ipv6_pseudo(
                frame.spec_header(),
                0x06,
                frame.spec_payload().len() as int,
            )),
            !tcp_parsable(frame.spec_payload()) ==> r == Err::<Self, DecodeError>(
                tcp_parse_err(frame.spec_payload()),
            ),
    {
        let psum = ipv6_pseudo_sum(&frame, 0x06);
        let ghost pseudo = ipv6_pseudo(frame.spec_header(), 0x06, frame.spec_payload().len() as int);
        let payload = frame.payload();
        match Self::split_transport(payload) {
            Ok((header, opts, rest)) => {
                let f = TcpFrame {
                    pseudo_header_sum: psum,
                    pseudo: Ghost(pseudo),
                    header,
                    opts,
                    payload: rest,
                };
                proof {
                    lemma_opts_len_mod4(payload@);
                    if 4 * tcp_data_offset(payload@) == 20 {
                        assert(Seq::<u8>::empty() =~= payload@.subrange(
                            20,
                            4 * tcp_data_offset(payload@),
                        ));
                    }
                }
                Ok(f)
            },
            Err(e) => Err(e),
        }
    }

    pub fn raw_header(&self) -> (r: &'a [u8])
        ensures
            r@ == self.spec_header(),
    {
        self.header
    }

    pub fn src_port(&self) -> (r: u16)
        requires
            self.wf(),
        ensures
            r == spec_be16(self.spec_header()[0], self.spec_header()[1]),
    {
        be16(self.header[0], self.header[1])
    }

    pub fn dest_port(&self) -> (r: u16)
        requires
            self.wf(),
        ensures
            r == spec_be16(self.spec_header()[2], self.spec_header()[3]),
    {
        be16(self.header[2], self.header[3])
    }

    pub fn seq_num(&self) -> (r: u32)
        requires
            self.wf(),
        ensures
            r == spec_be32(
                self.spec_header()[4],
                self.spec_header()[5],
                self.spec_header()[6],
                self.spec_header()[7],
            ),
    {
        be32(self.header[4], self.header[5], self.header[6], self.header[7])
    }

    /// The acknowledgment number, meaningful only when ACK is set.
    pub fn ack_num(&self) -> (r: Option<u32>)
        requires
            self.wf(),
        ensures
            self.spec_ack() ==> (r matches Some(v) && v == spec_be32(
                self.spec_header()[8],
                self.spec_header()[9],
                self.spec_header()[10],
                self.spec_header()[11],
            )),
            !self.spec_ack() ==> r is None,
    {
        if self.ack() {
            Some(be32(self.header[8], self.header[9], self.header[10], self.header[11]))
        } else {
            None
        }
    }

    /// Header length in 32-bit words (high nibble of byte 12).
    pub fn data_offset(&self) -> (r: U4)
        requires
            self.wf(),
        ensures
            r.spec_value() == tcp_data_offset(self.spec_header()),
    {
        U4::new(self.header[12] / 16)
    }

    /// NS flag: lowest bit of byte 12.
    pub fn ns(&self) -> (r: bool)
        requires
            self.wf(),
        ensures
            r == (self.spec_header()[12] as int % 2 == 1),
    {
        self.header[12] % 2 == 1
    }

    pub open spec fn spec_flag(self, weight: int) -> bool {
        (self.spec_header()[13] as int / weight) % 2 == 1
    }

    /// CWR flag: bit 7 of byte 13.
    pub fn cwr(&self) -> (r: bool)
        requires
            self.wf(),
        ensures
            r == self.spec_flag(128),
    {
        self.header[13] / 128 % 2 == 1
    }

    /// ECE flag: bit 6 of byte 13.
    pub fn ece(&self) -> (r: bool)
        requires
            self.wf(),
        ensures
            r == self.spec_flag(64),
    {
        self.header[13] / 64 % 2 == 1
    }

    /// URG flag: bit 5 of byte 13.
    pub fn urg(&self) -> (r: bool)
        requires
            self.wf(),
        ensures
            r == self.spec_flag(32),
    {
        self.header[13] / 32 % 2 == 1
    }

    pub open spec fn spec_ack(self) -> bool {
        self.spec_flag(16)
    }

    /// ACK flag: bit 4 of byte 13.
    pub fn ack(&self) -> (r: bool)
        requires
            self.wf(),
        ensures
            r == self.spec_ack(),
    {
        self.header[13] / 16 % 2 == 1
    }

    /// PSH flag: bit 3 of byte 13.
    pub fn psh(&self) -> (r: bool)
        requires
            self.wf(),
        ensures
            r == self.spec_flag(8),
    {
        self.header[13] / 8 % 2 == 1
    }

    /// RST flag: bit 2 of byte 13.
    pub fn rst(&self) -> (r: bool)
        requires
            self.wf(),
        ensures
            r == self.spec_flag(4),
    {
        self.header[13] / 4 % 2 == 1
    }

    /// SYN flag: bit 1 of byte 13.
    pub fn syn(&self) -> (r: bool)
        requires
            self.wf(),
        ensures
            r == self.spec_flag(2),
    {
        self.header[13] / 2 % 2 == 1
    }

    /// FIN flag: bit 0 of byte 13.
    pub fn fin(&self) -> (r: bool)
        requires
            self.wf(),
        ensures
            r == self.spec_flag(1),
    {
        self.header[13] % 2 == 1
    }

    pub fn window_sz(&self) -> (r: u16)
        requires
            self.wf(),
        ensures
            r == spec_be16(self.spec_header()[14], self.spec_header()[15]),
    {
        be16(self.header[14], self.header[15])
    }

    pub fn checksum(&self) -> (r: u16)
        requires
            self.wf(),
        ensures
            r == spec_be16(self.spec_header()[16], self.spec_header()[17]),
    {
        be16(self.header[16], self.header[17])
    }

    /// The urgent pointer, meaningful only when URG is set.
    pub fn urg_pnt(&self) -> (r: Option<u16>)
        requires
            self.wf(),
        ensures
            self.spec_flag(32) ==> (r matches Some(v) && v == spec_be16(
                self.spec_header()[18],
                self.spec_header()[19],
            )),
            !self.spec_flag(32) ==> r is None,
    {
        if self.urg() {
            Some(be16(self.header[18], self.header[19]))
        } else {
            None
        }
    }

    pub fn opts(&self) -> (r: Option<&'a [u8]>)
        ensures
            self.spec_has_opts() ==> (r matches Some(o) && o@ == self.spec_opts_bytes()),
            !self.spec_has_opts() ==> r is None,
    {
        self.opts
    }

    pub fn payload(&self) -> (r: &'a [u8])
        ensures
            r@ == self.spec_payload(),
    {
        self.payload
    }

    /// Everything the TCP checksum covers, in wire order.
    pub open spec fn spec_transport_bytes(self) -> Seq<u8> {
        self.spec_pseudo() + self.spec_header() + self.spec_opts_bytes() + self.spec_payload()
    }

    /// Pseudo-header, header, options and payload together checksum to
    /// zero.
    pub open spec fn spec_has_integrity(self) -> bool {
        checksum16_u8_spec(self.spec_transport_bytes()) == 0
    }

    pub fn has_integrity(&self) -> (r: bool)
        requires
            self.wf(),
        ensures
            r == self.spec_has_integrity(),
    {
        let sh = u8_slice_to_sum16(self.header);
        let sp = u8_slice_to_sum16(self.payload);
        let so = if let Some(opts) = self.opts {
            u8_slice_to_sum16(opts)
        } else {
            0
        };
        let words: [u16; 4] = [self.pseudo_header_sum, sh, sp, so];
        let c = u16_checksum16(array_as_slice(&words));
        proof {
            let ps = self.spec_pseudo();
            let hd = self.spec_header();
            let ob = self.spec_opts_bytes();
            let pl = self.spec_payload();
            assert(words@ =~= seq![self.pseudo_header_sum, sh, sp, so]);
            lemma_word_sum_four(self.pseudo_header_sum, sh, sp, so);
            if !self.spec_has_opts() {
                assert(byte_pair_sum(ob) == 0);
                assert(so == sum16_u8_spec(ob));
            }
            lemma_byte_pair_sum_nonneg(ps);
            lemma_byte_pair_sum_nonneg(hd);
            lemma_byte_pair_sum_nonneg(ob);
            lemma_byte_pair_sum_nonneg(pl);
            lemma_fold_sum4(
                byte_pair_sum(ps),
                byte_pair_sum(hd),
                byte_pair_sum(pl),
                byte_pair_sum(ob),
            );
            lemma_byte_pair_sum_concat(ob, pl);
            lemma_byte_pair_sum_concat(hd, ob + pl);
            lemma_byte_pair_sum_concat(ps, hd + (ob + pl));
            assert(ps + hd + ob + pl =~= ps + (hd + (ob + pl)));
        }
        c == 0
    }
}

/// The options segment of a parsable TCP header has a length divisible by
/// four.
proof fn lemma_opts_len_mod4(b: Seq<u8>)
    requires
        tcp_parsable(b),
    ensures
        (4 * tcp_data_offset(b) - 20) % 4 == 0,
{
    assert(4 * tcp_data_offset(b) - 20 == 4 * (tcp_data_offset(b) - 5));
    lemma_mod_multiples_basic(tcp_data_offset(b) - 5, 4);
}

/// Whether a TCP view reports integrity is a function of the covered bytes
/// alone: two views over the same pseudo-header, header, options and
/// payload concatenation agree, wherever their splits fall.
pub proof fn lemma_tcp_integrity_from_bytes(a: TcpFrame, b: TcpFrame)
    requires
        a.spec_transport_bytes() == b.spec_transport_bytes(),
    ensures
        a.spec_has_integrity() == b.spec_has_integrity(),
{
}

} // verus!
