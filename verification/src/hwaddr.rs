//! 48-bit hardware (MAC) address value type: construction from octets or a
//! borrowed slice, broadcast test, and the colon-separated hex rendering.

use vstd::prelude::*;
use vstd::slice::slice_subrange;
use vstd::string::StringExecFns;
use vstd::string::StringSliceAdditionalSpecFns;
use crate::render::hex2;
use crate::render::push_hex2;

verus! {

/// A 48-bit hardware address, six octets in wire order.
#[derive(Clone, Copy, Debug, PartialEq, Eq, Hash)]
pub struct HwAddr {
    octets: [u8; 6],
}

/// The colon-separated upper-case hex rendering of six octets.
pub open spec fn hwaddr_display(o: Seq<u8>) -> Seq<char> {
    hex2(o[0]) + seq![':'] + hex2(o[1]) + seq![':'] + hex2(o[2]) + seq![':'] + hex2(o[3])
        + seq![':'] + hex2(o[4]) + seq![':'] + hex2(o[5])
}

impl HwAddr {
    pub closed spec fn spec_octets(self) -> Seq<u8> {
        self.octets@
    }

    pub fn from_octets(octets: [u8; 6]) -> (r: Self)
        ensures
            r.spec_octets() == octets@,
    {
        HwAddr { octets }
    }

    /// The address read from the first six bytes of a slice.
    pub fn from_slice(value: &[u8]) -> (r: Self)
        requires
            value@.len() >= 6,
        ensures
            r.spec_octets() == value@.subrange(0, 6),
    {
        let octets: [u8; 6] = [value[0], value[1], value[2], value[3], value[4], value[5]];
        proof {
            assert(octets@ =~= value@.subrange(0, 6));
        }
        HwAddr { octets }
    }

    pub fn octets(&self) -> (r: [u8; 6])
        ensures
            r@ == self.spec_octets(),
    {
        self.octets
    }

    /// All-ones broadcast address test.
    pub fn is_broadcast(&self) -> (r: bool)
        ensures
            r <==> self.spec_octets() == seq![0xffu8, 0xffu8, 0xffu8, 0xffu8, 0xffu8, 0xffu8],
    {
        let r = self.octets[0] == 0xff && self.octets[1] == 0xff && self.octets[2] == 0xff
            && self.octets[3] == 0xff && self.octets[4] == 0xff && self.octets[5] == 0xff;
        proof {
            if r {
                assert(self.spec_octets() =~= seq![0xffu8, 0xffu8, 0xffu8, 0xffu8, 0xffu8, 0xffu8]);
            } else {
                assert(self.spec_octets() !~= seq![0xffu8, 0xffu8, 0xffu8, 0xffu8, 0xffu8, 0xffu8]);
            }
        }
        r
    }

    /// Colon-separated upper-case hex form, e.g. `00:11:22:33:44:55`.
    pub fn display_string(&self) -> (s: String)
        ensures
            s@ == hwaddr_display(self.spec_octets()),
    {
        let mut s = String::new();
        push_hex2(&mut s, self.octets[0]);
        s.append(":");
        push_hex2(&mut s, self.octets[1]);
        s.append(":");
        push_hex2(&mut s, self.octets[2]);
        s.append(":");
        push_hex2(&mut s, self.octets[3]);
        s.append(":");
        push_hex2(&mut s, self.octets[4]);
        s.append(":");
        push_hex2(&mut s, self.octets[5]);
        proof {
            reveal_strlit(":");
            assert(":"@ =~= seq![':']);
            assert(s@ =~= hwaddr_display(self.spec_octets()));
        }
        s
    }
}

/// A segment separator: `:` (0x3A) or `-` (0x2D).
pub open spec fn is_sep(c: u8) -> bool {
    c == 0x3A || c == 0x2D
}

/// Value of an ASCII hex digit, or -1 for any other byte.
pub open spec fn hex_digit_val(c: u8) -> int {
    if 0x30 <= c <= 0x39 {
        c - 0x30
    } else if 0x61 <= c <= 0x66 {
        c - 0x57
    } else if 0x41 <= c <= 0x46 {
        c - 0x37
    } else {
        -1
    }
}

/// Index of the first separator, or the length if there is none.
pub open spec fn first_sep_idx(s: Seq<u8>) -> int
    decreases s.len(),
{
    if s.len() == 0 {
        0
    } else if is_sep(s[0]) {
        0
    } else {
        1 + first_sep_idx(s.skip(1))
    }
}

/// The first separator, if any, sits within the sequence.
pub proof fn lemma_first_sep_idx_bounds(s: Seq<u8>)
    ensures
        0 <= first_sep_idx(s) <= s.len(),
    decreases s.len(),
{
    if s.len() > 0 && !is_sep(s[0]) {
        lemma_first_sep_idx_bounds(s.skip(1));
    }
}

/// The input split at every separator (a trailing or doubled separator
/// yields an empty segment, which no segment rule accepts).
pub open spec fn mac_segments(s: Seq<u8>) -> Seq<Seq<u8>>
    decreases s.len(),
    via mac_segments_decreases
{
    let k = first_sep_idx(s);
    if k == s.len() {
        seq![s]
    } else {
        seq![s.take(k)] + mac_segments(s.skip(k + 1))
    }
}

#[via_fn]
proof fn mac_segments_decreases(s: Seq<u8>) {
    lemma_first_sep_idx_bounds(s);
}

/// A segment's digits: everything after an optional leading `+` (0x2B).
pub open spec fn seg_digits(seg: Seq<u8>) -> Seq<u8> {
    if seg.len() > 0 && seg[0] == 0x2B {
        seg.skip(1)
    } else {
        seg
    }
}

/// At least one digit, and nothing but hex digits.
pub open spec fn digits_valid(d: Seq<u8>) -> bool {
    &&& d.len() > 0
    &&& forall|k: int| 0 <= k < d.len() ==> hex_digit_val(d[k]) >= 0
}

/// The number the digits spell, most significant first.
pub open spec fn digits_value(d: Seq<u8>) -> int
    decreases d.len(),
{
    if d.len() == 0 {
        0
    } else {
        16 * digits_value(d.drop_last()) + hex_digit_val(d.last())
    }
}

/// A segment parses as one octet: valid hex digits spelling a value below
/// 256.
pub open spec fn seg_valid(seg: Seq<u8>) -> bool {
    &&& digits_valid(seg_digits(seg))
    &&& digits_value(seg_digits(seg)) < 256
}

/// The whole input parses as a hardware address: at most six segments,
/// each one octet. Missing trailing segments default to zero.
pub open spec fn mac_valid(s: Seq<u8>) -> bool {
    &&& mac_segments(s).len() <= 6
    &&& forall|k: int| 0 <= k < mac_segments(s).len() ==> seg_valid(mac_segments(s)[k])
}

/// Octet `k` of a parsed address: the `k`-th segment's value, or zero past
/// the last segment.
pub open spec fn mac_octet(s: Seq<u8>, k: int) -> u8 {
    if k < mac_segments(s).len() {
        digits_value(seg_digits(mac_segments(s)[k])) as u8
    } else {
        0u8
    }
}

/// A scan that passes `k` non-separators and stops at a separator or the
/// end finds the first separator.
proof fn lemma_first_sep_idx_is(s: Seq<u8>, k: int)
    requires
        0 <= k <= s.len(),
        forall|j: int| 0 <= j < k ==> !is_sep(s[j]),
        k < s.len() ==> is_sep(s[k]),
    ensures
        first_sep_idx(s) == k,
    decreases k,
{
    if k == 0 {
    } else {
        lemma_first_sep_idx_is(s.skip(1), k - 1);
    }
}

proof fn lemma_mac_segments_nonempty(s: Seq<u8>)
    ensures
        mac_segments(s).len() >= 1,
{
}

proof fn lemma_digits_value_nonneg(d: Seq<u8>)
    requires
        forall|k: int| 0 <= k < d.len() ==> hex_digit_val(d[k]) >= 0,
    ensures
        digits_value(d) >= 0,
    decreases d.len(),
{
    if d.len() > 0 {
        lemma_digits_value_nonneg(d.drop_last());
    }
}

/// Reading one more digit multiplies by the radix and adds the digit.
proof fn lemma_digits_value_step(d: Seq<u8>, i: int)
    requires
        0 <= i < d.len(),
    ensures
        digits_value(d.take(i + 1)) == 16 * digits_value(d.take(i)) + hex_digit_val(d[i]),
{
    assert(d.take(i + 1).drop_last() =~= d.take(i));
    assert(d.take(i + 1).last() == d[i]);
}

/// With valid digits the value never shrinks as digits are appended.
proof fn lemma_digits_value_mono(d: Seq<u8>, p: int)
    requires
        0 <= p <= d.len(),
        forall|k: int| 0 <= k < d.len() ==> hex_digit_val(d[k]) >= 0,
    ensures
        digits_value(d.take(p)) <= digits_value(d),
    decreases d.len() - p,
{
    if p == d.len() {
        assert(d.take(p) =~= d);
    } else {
        lemma_digits_value_step(d, p);
        assert(forall|k: int| 0 <= k < d.take(p).len() ==> hex_digit_val(d.take(p)[k]) >= 0);
        lemma_digits_value_nonneg(d.take(p));
        lemma_digits_value_mono(d, p + 1);
    }
}

/// Parse one segment as a hex octet: an optional leading `+`, then one or
/// more hex digits spelling a value below 256.
fn parse_hex_seg(seg: &[u8]) -> (r: Option<u8>)
    ensures
        seg_valid(seg@) ==> (r matches Some(v) && v == digits_value(seg_digits(seg@))),
        !seg_valid(seg@) ==> r is None,
{
    let len = seg.len();
    let start: usize = if len > 0 && seg[0] == 0x2B {
        1
    } else {
        0
    };
    let ghost d = seg_digits(seg@);
    proof {
        assert(d =~= seg@.skip(start as int));
    }
    if start == len {
        return None;
    }
    let mut acc: u32 = 0;
    let mut i: usize = start;
    while i < len
        invariant
            start <= i <= len,
            len == seg@.len(),
            start < len,
            d == seg_digits(seg@),
            d == seg@.skip(start as int),
            forall|k: int| 0 <= k < i - start ==> hex_digit_val(d[k]) >= 0,
            acc == digits_value(d.take(i - start)),
            acc < 256,
        decreases len - i,
    {
        let c = seg[i];
        let v: u32 = if 0x30 <= c && c <= 0x39 {
            (c - 0x30) as u32
        } else if 0x61 <= c && c <= 0x66 {
            (c - 0x57) as u32
        } else if 0x41 <= c && c <= 0x46 {
            (c - 0x37) as u32
        } else {
            proof {
                assert(0 <= i - start < d.len());
                assert(d[i - start] == seg@[i as int]);
                assert(hex_digit_val(d[i - start]) < 0);
                assert(!digits_valid(d));
                assert(!seg_valid(seg@));
            }
            return None;
        };
        proof {
            assert(d[i - start] == seg@[i as int]);
            lemma_digits_value_step(d, i - start);
        }
        acc = acc * 16 + v;
        i = i + 1;
        if acc > 255 {
            proof {
                if seg_valid(seg@) {
                    assert(digits_valid(d));
                    assert(forall|k: int| 0 <= k < d.len() ==> hex_digit_val(d[k]) >= 0);
                    assert(0 <= i - start <= d.len());
                    lemma_digits_value_mono(d, i - start);
                    assert(digits_value(d) >= acc);
                }
                assert(!seg_valid(seg@));
            }
            return None;
        }
    }
    proof {
        assert(d.take(len - start) =~= d);
    }
    Some(acc as u8)
}

impl HwAddr {
    /// Parse a hardware address from ASCII bytes: up to six segments
    /// separated by `:` or `-`, each an octet in hex; segments past the
    /// sixth are rejected, missing trailing segments default to zero.
    pub fn parse(bytes: &[u8]) -> (r: Option<HwAddr>)
        requires
            bytes@.len() < 0xFFFF_FFFF,
        ensures
            mac_valid(bytes@) ==> (r matches Some(a) && forall|k: int|
                0 <= k < 6 ==> a.spec_octets()[k] == mac_octet(bytes@, k)),
            !mac_valid(bytes@) ==> r is None,
    {
        let len = bytes.len();
        let ghost segs = mac_segments(bytes@);
        let mut result: [u8; 6] = [0, 0, 0, 0, 0, 0];
        let mut seg_idx: usize = 0;
        let mut pos: usize = 0;
        proof {
            assert(bytes@.skip(0) =~= bytes@);
            assert(segs.skip(0) =~= segs);
            lemma_mac_segments_nonempty(bytes@);
        }
        while pos <= len
            invariant
                len == bytes@.len() < 0xFFFF_FFFF,
                pos <= len + 1,
                seg_idx <= 6,
                seg_idx <= segs.len(),
                segs == mac_segments(bytes@),
                result@.len() == 6,
                forall|k: int| 0 <= k < seg_idx ==> seg_valid(#[trigger] segs[k]),
                forall|k: int|
                    0 <= k < seg_idx ==> result@[k] == digits_value(seg_digits(#[trigger] segs[k])),
                forall|k: int| seg_idx <= k < 6 ==> result@[k] == 0,
                pos <= len ==> mac_segments(bytes@.skip(pos as int)) == segs.skip(seg_idx as int),
                pos == len + 1 ==> seg_idx == segs.len(),
            decreases len + 1 - pos,
        {
            let ghost rem = bytes@.skip(pos as int);
            let mut end: usize = pos;
            while end < len && bytes[end] != 0x3A && bytes[end] != 0x2D
                invariant
                    pos <= end <= len,
                    len == bytes@.len(),
                    forall|j: int| pos <= j < end ==> !is_sep(bytes@[j]),
                decreases len - end,
            {
                end = end + 1;
            }
            proof {
                assert(forall|j: int| 0 <= j < end - pos ==> rem[j] == bytes@[pos + j]);
                lemma_first_sep_idx_is(rem, end - pos);
            }
            if seg_idx > 5 {
                proof {
                    if end < len {
                        lemma_mac_segments_nonempty(rem.skip(end - pos + 1));
                        assert(mac_segments(rem).len() >= 2);
                        assert(segs.len() >= seg_idx + 2);
                    } else {
                        assert(segs.len() >= seg_idx + 1);
                    }
                }
                return None;
            }
            let seg = slice_subrange(bytes, pos, end);
            proof {
                lemma_mac_segments_nonempty(rem);
                assert(segs.skip(seg_idx as int)[0] == segs[seg_idx as int]);
                if end - pos == rem.len() {
                    assert(mac_segments(rem) == seq![rem]);
                    assert(seg@ =~= rem);
                    assert(segs[seg_idx as int] == rem);
                } else {
                    assert(mac_segments(rem) == seq![rem.take(end - pos)] + mac_segments(
                        rem.skip(end - pos + 1),
                    ));
                    assert(mac_segments(rem)[0] == rem.take(end - pos));
                    assert(seg@ =~= rem.take(end - pos));
                    assert(segs[seg_idx as int] == rem.take(end - pos));
                }
            }
            match parse_hex_seg(seg) {
                Some(v) => {
                    result[seg_idx] = v;
                },
                None => {
                    return None;
                },
            }
            proof {
                assert(segs[seg_idx as int] == seg@);
                assert(seg_valid(segs[seg_idx as int]));
                assert(result@[seg_idx as int] == digits_value(seg_digits(segs[seg_idx as int])));
                assert forall|k: int|
                    0 <= k < seg_idx + 1 implies seg_valid(#[trigger] segs[k]) && result@[k]
                    == digits_value(seg_digits(segs[k])) by {
                    if k < seg_idx {
                        assert(seg_valid(segs[k]));
                        assert(result@[k] == digits_value(seg_digits(segs[k])));
                    }
                }
            }
            proof {
                if end < len {
                    assert(rem.skip(end - pos + 1) =~= bytes@.skip(end + 1));
                    assert((seq![rem.take(end - pos)] + mac_segments(rem.skip(end - pos + 1))).skip(
                        1,
                    ) =~= mac_segments(rem.skip(end - pos + 1)));
                    assert(segs.skip(seg_idx as int).skip(1) =~= segs.skip(seg_idx + 1));
                    assert(mac_segments(bytes@.skip(end + 1)) == segs.skip(seg_idx + 1));
                } else {
                    assert(mac_segments(rem) == seq![rem]);
                    assert(segs.skip(seg_idx as int).len() == 1);
                    assert(seg_idx + 1 == segs.len());
                }
            }
            seg_idx = seg_idx + 1;
            pos = end + 1;
        }
        let r = HwAddr::from_octets(result);
        proof {
            assert(seg_idx == segs.len());
            assert forall|k: int| 0 <= k < 6 implies r.spec_octets()[k] == mac_octet(bytes@, k) by {
                if k < segs.len() {
                    assert(seg_valid(segs[k]));
                    lemma_digits_value_nonneg(seg_digits(segs[k]));
                }
            }
        }
        Some(r)
    }

    /// Parse a hardware address from its text form, e.g. `00:11:22:33:44:55`
    /// or `00-11-22-33-44-55`.
    pub fn parse_str(s: &str) -> (r: Option<HwAddr>)
        requires
            s.spec_bytes().len() < 0xFFFF_FFFF,
        ensures
            mac_valid(s.spec_bytes()) ==> (r matches Some(a) && forall|k: int|
                0 <= k < 6 ==> a.spec_octets()[k] == mac_octet(s.spec_bytes(), k)),
            !mac_valid(s.spec_bytes()) ==> r is None,
    {
        HwAddr::parse(s.as_bytes())
    }
}

} // verus!
