//! Transport pseudo-headers (RFC 793 / RFC 768 / RFC 8200): the synthetic
//! prefix of network-layer addresses, protocol number and transport length
//! that TCP and UDP checksums cover. A transport view stores only the
//! folded partial sum of these bytes; the byte sequences here are the
//! ghost model that partial sum is proved against.

use vstd::prelude::*;
use vstd::slice::slice_subrange;
use vstd::array::array_as_slice;
use vstd::arithmetic::div_mod::lemma_fundamental_div_mod;
use vstd::arithmetic::div_mod::lemma_div_denominator;
use vstd::arithmetic::div_mod::lemma_breakdown;
use vstd::arithmetic::div_mod::lemma_small_mod;
use vstd::arithmetic::div_mod::lemma_mod_self_0;
use crate::checksum::sum16_u8_spec;
use crate::checksum::byte_pair_sum;
use crate::checksum::ones_fold;
use crate::checksum::word_sum;
use crate::checksum::u8_slice_to_sum16;
use crate::checksum::u16_slice_to_sum16;
use crate::checksum::lemma_byte_pair_sum_concat;
use crate::checksum::lemma_byte_pair_sum_nonneg;
use crate::checksum::lemma_byte_pair_sum_four;
use crate::checksum::lemma_word_sum_two;
use crate::checksum::lemma_word_sum_three;
use crate::checksum::lemma_ones_fold_add_left;
use crate::checksum::lemma_ones_fold_properties;
use crate::ipv4::Ipv4Frame;
use crate::ipv6::Ipv6Frame;

verus! {

/// IPv4 pseudo-header: source and destination addresses (header bytes 12
/// through 19), a zero byte, the protocol number, and the 16-bit transport
/// length.
pub open spec fn ipv4_pseudo(header: Seq<u8>, proto: u8, plen: int) -> Seq<u8> {
    header.subrange(12, 20) + seq![0u8, proto, (plen / 256) as u8, (plen % 256) as u8]
}

/// IPv6 pseudo-header: source and destination addresses (header bytes 8
/// through 39), the 32-bit transport length, three zero bytes, and the
/// next-header number.
pub open spec fn ipv6_pseudo(header: Seq<u8>, next: u8, plen: int) -> Seq<u8> {
    header.subrange(8, 40) + seq![
        (plen / 0x100_0000) as u8,
        ((plen / 0x1_0000) % 256) as u8,
        ((plen / 256) % 256) as u8,
        (plen % 256) as u8,
        0u8,
        0u8,
        0u8,
        next,
    ]
}

/// Fold the IPv4 pseudo-header of a parent view into a 16-bit partial sum:
/// address sum, protocol constant, and the payload length truncated to 16
/// bits, folded together.
pub fn ipv4_pseudo_sum(parent: &Ipv4Frame, proto: u8) -> (r: u16)
    requires
        parent.wf(),
    ensures
        r == sum16_u8_spec(
            ipv4_pseudo(
                parent.spec_header(),
                proto,
                parent.spec_payload().len() as int % 0x1_0000,
            ),
        ),
{
    let addr_sum = u8_slice_to_sum16(slice_subrange(parent.raw_header(), 12, 20));
    let plen: u16 = (parent.payload().len() % 0x1_0000) as u16;
    let words: [u16; 3] = [addr_sum, proto as u16, plen];
    let r = u16_slice_to_sum16(array_as_slice(&words));
    proof {
        let h = parent.spec_header();
        let lv = parent.spec_payload().len() as int % 0x1_0000;
        let addrs = h.subrange(12, 20);
        let tail = seq![0u8, proto, (lv / 256) as u8, (lv % 256) as u8];
        assert(words@ =~= seq![addr_sum, proto as u16, plen]);
        lemma_word_sum_three(addr_sum, proto as u16, plen);
        lemma_byte_pair_sum_four(0u8, proto, (lv / 256) as u8, (lv % 256) as u8);
        lemma_fundamental_div_mod(lv, 256);
        assert(byte_pair_sum(tail) == proto + lv);
        lemma_byte_pair_sum_concat(addrs, tail);
        lemma_byte_pair_sum_nonneg(addrs);
        lemma_ones_fold_add_left(byte_pair_sum(addrs), proto + lv);
    }
    r
}

/// Fold the IPv6 pseudo-header of a parent view into a 16-bit partial sum:
/// address sum, next-header constant, and the 32-bit payload length split
/// into two 16-bit words, folded together.
pub fn ipv6_pseudo_sum(parent: &Ipv6Frame, next: u8) -> (r: u16)
    requires
        parent.wf(),
    ensures
        r == sum16_u8_spec(
            ipv6_pseudo(parent.spec_header(), next, parent.spec_payload().len() as int),
        ),
{
    let addr_sum = u8_slice_to_sum16(slice_subrange(parent.raw_header(), 8, 40));
    let len = parent.payload().len();
    let plen_word: u16 = if len > 0xFFFF {
        let hi = (len / 0x1_0000) as u16;
        let lo = (len % 0x1_0000) as u16;
        let words2: [u16; 2] = [hi, lo];
        let w = u16_slice_to_sum16(array_as_slice(&words2));
        proof {
            assert(words2@ =~= seq![hi, lo]);
            lemma_word_sum_two(hi, lo);
        }
        w
    } else {
        proof {
            if len < 0xFFFF {
                lemma_small_mod(len as nat, 0xFFFF);
            } else {
                lemma_mod_self_0(0xFFFF);
            }
            lemma_small_mod(len as nat, 0x1_0000);
        }
        len as u16
    };
    let words: [u16; 3] = [addr_sum, next as u16, plen_word];
    let r = u16_slice_to_sum16(array_as_slice(&words));
    proof {
        let h = parent.spec_header();
        let lv = parent.spec_payload().len() as int;
        let addrs = h.subrange(8, 40);
        let l0 = (lv / 0x100_0000) as u8;
        let l1 = ((lv / 0x1_0000) % 256) as u8;
        let l2 = ((lv / 256) % 256) as u8;
        let l3 = (lv % 256) as u8;
        let tail = seq![l0, l1, l2, l3, 0u8, 0u8, 0u8, next];
        let lhi = lv / 0x1_0000;
        let llo = lv % 0x1_0000;

        // The four length bytes spell the two 16-bit halves of the length.
        lemma_div_denominator(lv, 0x1_0000, 256);
        lemma_fundamental_div_mod(lhi, 256);
        assert(256 * l0 + l1 == lhi);
        lemma_breakdown(lv, 256, 256);
        assert(256 * l2 + l3 == llo);

        // Byte-pair sum of the eight-byte tail.
        lemma_byte_pair_sum_four(l0, l1, l2, l3);
        lemma_byte_pair_sum_four(0u8, 0u8, 0u8, next);
        lemma_byte_pair_sum_concat(seq![l0, l1, l2, l3], seq![0u8, 0u8, 0u8, next]);
        assert(seq![l0, l1, l2, l3] + seq![0u8, 0u8, 0u8, next] =~= tail);
        assert(byte_pair_sum(tail) == lhi + llo + next);

        // The folded length word is the fold of the two halves.
        assert(plen_word == ones_fold(lhi + llo));

        // Assemble: fold(addr_sum + next + fold(lhi + llo)) is the fold of
        // the whole pseudo-header's byte-pair sum.
        assert(words@ =~= seq![addr_sum, next as u16, plen_word]);
        lemma_word_sum_three(addr_sum, next as u16, plen_word);
        lemma_byte_pair_sum_concat(addrs, tail);
        lemma_byte_pair_sum_nonneg(addrs);
        lemma_ones_fold_add_left(lhi + llo, byte_pair_sum(addrs) + next);
        lemma_ones_fold_add_left(byte_pair_sum(addrs), next + ones_fold(lhi + llo));
        lemma_ones_fold_properties(lhi + llo);
    }
    r
}

} // verus!
