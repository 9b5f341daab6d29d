//! RFC 1071 one's-complement checksum engine.
//!
//! The mathematical model: a byte (or word) sequence is summed as an
//! unbounded integer and then folded end-around-carry style into 16 bits
//! (`ones_fold`). The executable functions compute the same value with a
//! single 64-bit accumulation followed by constant-step carry folding.

use vstd::prelude::*;
use vstd::arithmetic::div_mod::lemma_fundamental_div_mod;
use vstd::arithmetic::div_mod::lemma_mod_multiples_vanish;
use vstd::arithmetic::div_mod::lemma_add_mod_noop;
use vstd::arithmetic::div_mod::lemma_small_mod;
use vstd::arithmetic::div_mod::lemma_mod_self_0;
use vstd::arithmetic::div_mod::lemma_div_denominator;
use vstd::arithmetic::div_mod::lemma_multiply_divide_lt;
use vstd::arithmetic::div_mod::lemma_div_pos_is_pos;
use vstd::arithmetic::div_mod::lemma_mod_division_less_than_divisor;

verus! {

/// Sum of a sequence of 16-bit words as an unbounded integer.
pub open spec fn word_sum(s: Seq<u16>) -> int
    decreases s.len(),
{
    if s.len() == 0 {
        0
    } else {
        s[0] + word_sum(s.skip(1))
    }
}

/// Bytes paired big-endian into 16-bit words and summed as an unbounded
/// integer; an odd trailing byte is promoted to the high-order byte of a
/// final word (right zero-padding).
pub open spec fn byte_pair_sum(s: Seq<u8>) -> int
    decreases s.len(),
{
    if s.len() == 0 {
        0
    } else if s.len() == 1 {
        256 * s[0]
    } else {
        256 * s[0] + s[1] + byte_pair_sum(s.skip(2))
    }
}

/// End-around-carry folding of a non-negative sum into 16 bits: the unique
/// value in `0 ..= 0xFFFF` congruent to `n` modulo 0xFFFF that is zero
/// exactly when `n` is zero.
pub open spec fn ones_fold(n: int) -> int
    recommends
        n >= 0,
{
    if n % 0xFFFF == 0 {
        if n == 0 {
            0
        } else {
            0xFFFF
        }
    } else {
        n % 0xFFFF
    }
}

/// Folded one's-complement sum of a word sequence.
pub open spec fn sum16_u16_spec(s: Seq<u16>) -> int {
    ones_fold(word_sum(s))
}

/// Folded one's-complement sum of a byte sequence.
pub open spec fn sum16_u8_spec(s: Seq<u8>) -> int {
    ones_fold(byte_pair_sum(s))
}

/// Internet checksum of a word sequence: complement of the folded sum.
pub open spec fn checksum16_u16_spec(s: Seq<u16>) -> int {
    0xFFFF - sum16_u16_spec(s)
}

/// Internet checksum of a byte sequence: complement of the folded sum.
pub open spec fn checksum16_u8_spec(s: Seq<u8>) -> int {
    0xFFFF - sum16_u8_spec(s)
}

/// An even-length byte sequence read as big-endian 16-bit words.
pub open spec fn words_of_bytes(s: Seq<u8>) -> Seq<u16>
    decreases s.len(),
{
    if s.len() < 2 {
        Seq::empty()
    } else {
        seq![(256 * s[0] + s[1]) as u16] + words_of_bytes(s.skip(2))
    }
}

pub proof fn lemma_word_sum_nonneg(s: Seq<u16>)
    ensures
        word_sum(s) >= 0,
    decreases s.len(),
{
    if s.len() > 0 {
        lemma_word_sum_nonneg(s.skip(1));
    }
}

pub proof fn lemma_byte_pair_sum_nonneg(s: Seq<u8>)
    ensures
        byte_pair_sum(s) >= 0,
    decreases s.len(),
{
    if s.len() >= 2 {
        lemma_byte_pair_sum_nonneg(s.skip(2));
    }
}

/// Word sums add over concatenation.
pub proof fn lemma_word_sum_concat(a: Seq<u16>, b: Seq<u16>)
    ensures
        word_sum(a + b) == word_sum(a) + word_sum(b),
    decreases a.len(),
{
    if a.len() == 0 {
        assert(a + b =~= b);
    } else {
        lemma_word_sum_concat(a.skip(1), b);
        assert((a + b).skip(1) =~= a.skip(1) + b);
        assert((a + b)[0] == a[0]);
    }
}

/// Byte-pair sums add over concatenation when the first segment splits at
/// an even boundary (the pairing of the second segment is then unchanged).
pub proof fn lemma_byte_pair_sum_concat(a: Seq<u8>, b: Seq<u8>)
    requires
        a.len() % 2 == 0,
    ensures
        byte_pair_sum(a + b) == byte_pair_sum(a) + byte_pair_sum(b),
    decreases a.len(),
{
    if a.len() == 0 {
        assert(a + b =~= b);
    } else {
        lemma_byte_pair_sum_concat(a.skip(2), b);
        assert((a + b).skip(2) =~= a.skip(2) + b);
        assert((a + b)[0] == a[0] && (a + b)[1] == a[1]);
    }
}

proof fn lemma_byte_pair_sum_pair(x: u8, y: u8)
    ensures
        byte_pair_sum(seq![x, y]) == 256 * x + y,
{
    assert(byte_pair_sum(Seq::<u8>::empty()) == 0);
    assert(seq![x, y].skip(2) =~= Seq::<u8>::empty());
}

proof fn lemma_byte_pair_sum_single(x: u8)
    ensures
        byte_pair_sum(seq![x]) == 256 * x,
{
}

proof fn lemma_word_sum_single(x: u16)
    ensures
        word_sum(seq![x]) == x,
{
    assert(word_sum(Seq::<u16>::empty()) == 0);
    assert(seq![x].skip(1) =~= Seq::<u16>::empty());
}

/// `ones_fold` keeps the residue modulo 0xFFFF, lands in `0 ..= 0xFFFF`,
/// and is zero exactly on zero.
pub proof fn lemma_ones_fold_properties(n: int)
    requires
        n >= 0,
    ensures
        0 <= ones_fold(n) <= 0xFFFF,
        ones_fold(n) % 0xFFFF == n % 0xFFFF,
        (ones_fold(n) == 0) == (n == 0),
        ones_fold(n) <= n,
{
    lemma_mod_division_less_than_divisor(n, 0xFFFF);
    if n % 0xFFFF == 0 {
        lemma_mod_self_0(0xFFFF);
        if n != 0 {
            // n is a positive multiple of 0xFFFF, hence at least 0xFFFF
            lemma_fundamental_div_mod(n, 0xFFFF);
            lemma_div_pos_is_pos(n, 0xFFFF);
            if n / 0xFFFF == 0 {
                assert(n == 0xFFFF * (n / 0xFFFF) + n % 0xFFFF);
                assert(n == 0);
            }
            assert(n / 0xFFFF >= 1);
            assert(n >= 0xFFFF) by (nonlinear_arith)
                requires
                    n == 0xFFFF * (n / 0xFFFF),
                    n / 0xFFFF >= 1,
            ;
        }
    } else {
        lemma_small_mod((n % 0xFFFF) as nat, 0xFFFF);
        if n < 0xFFFF {
            lemma_small_mod(n as nat, 0xFFFF);
        }
    }
}

/// Any value in `0 ..= 0xFFFF` with the right residue and the right
/// zero-ness is the fold.
proof fn lemma_fold_characterization(n: int, f: int)
    requires
        n >= 0,
        0 <= f <= 0xFFFF,
        f % 0xFFFF == n % 0xFFFF,
        (f == 0) == (n == 0),
    ensures
        f == ones_fold(n),
{
    if f < 0xFFFF {
        lemma_small_mod(f as nat, 0xFFFF);
    } else {
        lemma_mod_self_0(0xFFFF);
    }
}

/// Folding one operand before adding does not change the folded total.
pub proof fn lemma_ones_fold_add_left(x: int, y: int)
    requires
        x >= 0,
        y >= 0,
    ensures
        ones_fold(ones_fold(x) + y) == ones_fold(x + y),
{
    lemma_ones_fold_properties(x);
    let fx = ones_fold(x);
    lemma_add_mod_noop(fx, y, 0xFFFF);
    lemma_add_mod_noop(x, y, 0xFFFF);
    assert((fx + y) % 0xFFFF == (x + y) % 0xFFFF);
    lemma_ones_fold_properties(fx + y);
    lemma_ones_fold_properties(x + y);
    lemma_fold_characterization(x + y, ones_fold(fx + y));
}

/// Folding both operands before adding does not change the folded total.
pub proof fn lemma_ones_fold_add(x: int, y: int)
    requires
        x >= 0,
        y >= 0,
    ensures
        ones_fold(ones_fold(x) + ones_fold(y)) == ones_fold(x + y),
{
    lemma_ones_fold_properties(x);
    lemma_ones_fold_properties(y);
    lemma_ones_fold_add_left(x, ones_fold(y));
    lemma_ones_fold_add_left(y, x);
    assert(ones_fold(ones_fold(y) + x) == ones_fold(y + x));
}

/// Pairing two bytes big-endian and folding is the same whether the bytes
/// are summed as bytes or as the 16-bit words they spell: byte and word
/// sums of an even-length sequence agree before folding.
pub proof fn lemma_byte_sum_is_word_sum(s: Seq<u8>)
    requires
        s.len() % 2 == 0,
    ensures
        byte_pair_sum(s) == word_sum(words_of_bytes(s)),
    decreases s.len(),
{
    if s.len() >= 2 {
        lemma_byte_sum_is_word_sum(s.skip(2));
        let w = (256 * s[0] + s[1]) as u16;
        assert(w == 256 * s[0] + s[1]);
        lemma_word_sum_concat(seq![w], words_of_bytes(s.skip(2)));
        lemma_word_sum_single(w);
    }
}

/// Exact description of how replacing one byte shifts the paired sum:
/// a byte at an even offset carries weight 256, at an odd offset weight 1.
pub proof fn lemma_byte_pair_sum_update(s: Seq<u8>, p: int, x: u8)
    requires
        0 <= p < s.len(),
    ensures
        byte_pair_sum(s.update(p, x)) == byte_pair_sum(s) + (if p % 2 == 0 {
            256 * (x - s[p])
        } else {
            x - s[p]
        }),
    decreases s.len(),
{
    let t = s.update(p, x);
    if s.len() == 1 {
        assert(t[0] == x);
    } else if p < 2 {
        assert(t.skip(2) =~= s.skip(2));
        if p == 0 {
            assert(t[0] == x && t[1] == s[1]);
        } else {
            assert(t[0] == s[0] && t[1] == x);
        }
    } else {
        lemma_byte_pair_sum_update(s.skip(2), p - 2, x);
        assert(t.skip(2) =~= s.skip(2).update(p - 2, x));
        assert(t[0] == s[0] && t[1] == s[1]);
        assert(s.skip(2)[p - 2] == s[p]);
    }
}

/// The carry-folding tail shared by the executable sums: fold a 64-bit
/// accumulator into 16 bits in constant steps (split into four 16-bit
/// halves, add, then fold the carries twice).
fn fold_carries(sum: u64) -> (r: u16)
    ensures
        r == ones_fold(sum as int),
{
    let a: u64 = sum % 0x10000;
    let b: u64 = (sum / 0x10000) % 0x10000;
    let c: u64 = (sum / 0x1_0000_0000) % 0x10000;
    let d: u64 = sum / 0x1_0000_0000_0000;
    proof {
        lemma_multiply_divide_lt(sum as int, 0x10000, 0x1_0000_0000_0000);
    }
    let carry_add: u64 = a + b + c + d;
    let f1: u64 = (carry_add % 0x10000) + (carry_add / 0x10000);
    let f2: u64 = (f1 % 0x10000) + (f1 / 0x10000);
    proof {
        lemma_fold_carries_math(sum as int, a as int, b as int, c as int, d as int);
        lemma_fold_step(carry_add as int);
        lemma_fold_step(f1 as int);
        assert(carry_add <= 4 * 0xFFFF);
        assert(f1 == carry_add % 0x10000 + carry_add / 0x10000);
        assert(f1 <= 0xFFFF + 3);
        assert(f2 <= 0xFFFF);
        lemma_add_mod_noop(0, 0, 0xFFFF);
        assert((sum as int) % 0xFFFF == (carry_add as int) % 0xFFFF);
        assert((carry_add as int) % 0xFFFF == (f1 as int) % 0xFFFF);
        assert((f1 as int) % 0xFFFF == (f2 as int) % 0xFFFF);
        lemma_fold_characterization(sum as int, f2 as int);
    }
    f2 as u16
}

/// One end-around-carry step: adding the high half back into the low half
/// keeps the residue modulo 0xFFFF and keeps positivity.
proof fn lemma_fold_step(x: int)
    requires
        x >= 0,
    ensures
        (x % 0x10000 + x / 0x10000) % 0xFFFF == x % 0xFFFF,
        (x % 0x10000 + x / 0x10000 == 0) == (x == 0),
        x % 0x10000 + x / 0x10000 >= 0,
{
    lemma_fundamental_div_mod(x, 0x10000);
    lemma_div_pos_is_pos(x, 0x10000);
    lemma_mod_division_less_than_divisor(x, 0x10000);
    let q = x / 0x10000;
    let r = x % 0x10000;
    assert(x == 0x10000 * q + r);
    assert(x == (r + q) + 0xFFFF * q);
    lemma_mod_multiples_vanish(q, r + q, 0xFFFF);
}

/// The four 16-bit halves of a 64-bit value sum to the value modulo 0xFFFF.
proof fn lemma_fold_carries_math(x: int, a: int, b: int, c: int, d: int)
    requires
        x >= 0,
        a == x % 0x10000,
        b == (x / 0x10000) % 0x10000,
        c == (x / 0x1_0000_0000) % 0x10000,
        d == x / 0x1_0000_0000_0000,
    ensures
        (a + b + c + d) % 0xFFFF == x % 0xFFFF,
        (a + b + c + d == 0) == (x == 0),
        a + b + c + d >= 0,
{
    let q1 = x / 0x10000;
    let q2 = x / 0x1_0000_0000;
    lemma_fundamental_div_mod(x, 0x10000);
    lemma_fundamental_div_mod(q1, 0x10000);
    lemma_fundamental_div_mod(q2, 0x10000);
    lemma_div_denominator(x, 0x10000, 0x10000);
    lemma_div_denominator(x, 0x1_0000_0000, 0x10000);
    lemma_div_pos_is_pos(x, 0x10000);
    lemma_div_pos_is_pos(q1, 0x10000);
    lemma_div_pos_is_pos(q2, 0x10000);
    lemma_mod_division_less_than_divisor(x, 0x10000);
    lemma_mod_division_less_than_divisor(q1, 0x10000);
    lemma_mod_division_less_than_divisor(q2, 0x10000);
    assert(q1 / 0x10000 == q2);
    assert(q2 / 0x10000 == d);
    assert(x == 0x10000 * q1 + a);
    assert(q1 == 0x10000 * q2 + b);
    assert(q2 == 0x10000 * d + c);
    assert(x == a + 0x10000 * b + 0x1_0000_0000 * c + 0x1_0000_0000_0000 * d);
    assert(x == (a + b + c + d) + 0xFFFF * (b + 0x10001 * c + 0x1_0001_0001 * d));
    lemma_mod_multiples_vanish(b + 0x10001 * c + 0x1_0001_0001 * d, a + b + c + d, 0xFFFF);
}

/// Sum a sequence of 16-bit words with one 64-bit accumulation, then fold
/// the carries into 16 bits.
pub fn u16_slice_to_sum16(slice: &[u16]) -> (r: u16)
    requires
        slice@.len() < 0x1_0000_0000,
    ensures
        r == sum16_u16_spec(slice@),
{
    let len = slice.len();
    let mut sum: u64 = 0;
    let mut i: usize = 0;
    while i < len
        invariant
            i <= len,
            len == slice@.len() < 0x1_0000_0000,
            sum == word_sum(slice@.take(i as int)),
            sum <= 0x1_0000 * i,
        decreases len - i,
    {
        proof {
            lemma_word_sum_concat(slice@.take(i as int), seq![slice@[i as int]]);
            lemma_word_sum_single(slice@[i as int]);
            assert(slice@.take(i + 1) =~= slice@.take(i as int) + seq![slice@[i as int]]);
        }
        sum = sum + slice[i] as u64;
        i = i + 1;
    }
    proof {
        assert(slice@.take(len as int) =~= slice@);
    }
    fold_carries(sum)
}

/// Sum a byte sequence pairing adjacent bytes big-endian (odd tail promoted
/// to a high-order byte), then fold the carries into 16 bits.
pub fn u8_slice_to_sum16(slice: &[u8]) -> (r: u16)
    requires
        slice@.len() < 0x1_0000_0000,
    ensures
        r == sum16_u8_spec(slice@),
{
    let len = slice.len();
    let mut sum: u64 = 0;
    let mut i: usize = 0;
    while i + 1 < len
        invariant
            i <= len,
            i % 2 == 0,
            len == slice@.len() < 0x1_0000_0000,
            sum == byte_pair_sum(slice@.take(i as int)),
            sum <= 0x8000 * i,
        decreases len - i,
    {
        proof {
            lemma_byte_pair_sum_concat(
                slice@.take(i as int),
                seq![slice@[i as int], slice@[i + 1]],
            );
            lemma_byte_pair_sum_pair(slice@[i as int], slice@[i + 1]);
            assert(slice@.take(i + 2) =~= slice@.take(i as int) + seq![
                slice@[i as int],
                slice@[i + 1],
            ]);
        }
        sum = sum + 256 * (slice[i] as u64) + slice[i + 1] as u64;
        i = i + 2;
    }
    if i < len {
        proof {
            lemma_byte_pair_sum_concat(slice@.take(i as int), seq![slice@[i as int]]);
            lemma_byte_pair_sum_single(slice@[i as int]);
            assert(slice@.take(i + 1) =~= slice@.take(i as int) + seq![slice@[i as int]]);
        }
        sum = sum + 256 * (slice[i] as u64);
        i = i + 1;
    }
    proof {
        assert(slice@.take(len as int) =~= slice@);
    }
    fold_carries(sum)
}

proof fn lemma_not_u16(x: u16)
    requires
        x <= 0xFFFF,
    ensures
        !x == (0xFFFF - x) as u16,
{
    assert((!x) as int == 0xFFFF - x) by (bit_vector);
}

/// Internet checksum of a word sequence: complement of the folded sum.
pub fn u16_checksum16(slice: &[u16]) -> (r: u16)
    requires
        slice@.len() < 0x1_0000_0000,
    ensures
        r == checksum16_u16_spec(slice@),
{
    let s = u16_slice_to_sum16(slice);
    proof {
        lemma_word_sum_nonneg(slice@);
        lemma_ones_fold_properties(word_sum(slice@));
        lemma_not_u16(s);
    }
    !s
}

/// Internet checksum of a byte sequence: complement of the folded sum.
pub fn u8_checksum16(slice: &[u8]) -> (r: u16)
    requires
        slice@.len() < 0x1_0000_0000,
    ensures
        r == checksum16_u8_spec(slice@),
{
    let s = u8_slice_to_sum16(slice);
    proof {
        lemma_byte_pair_sum_nonneg(slice@);
        lemma_ones_fold_properties(byte_pair_sum(slice@));
        lemma_not_u16(s);
    }
    !s
}

/// An even-length byte sequence sums (and so checksums) the same whether it
/// is fed to the byte engine or read as big-endian 16-bit words and fed to
/// the word engine.
pub proof fn lemma_sum16_bytes_as_words(s: Seq<u8>)
    requires
        s.len() % 2 == 0,
    ensures
        sum16_u8_spec(s) == sum16_u16_spec(words_of_bytes(s)),
        checksum16_u8_spec(s) == checksum16_u16_spec(words_of_bytes(s)),
{
    lemma_byte_sum_is_word_sum(s);
}

/// Composability of the one's-complement sum: splitting a byte sequence at
/// any even boundary, summing the halves independently and folding the two
/// partial sums together yields the sum (and so the checksum) of the whole.
pub proof fn lemma_sum16_concat(a: Seq<u8>, b: Seq<u8>)
    requires
        a.len() % 2 == 0,
    ensures
        sum16_u8_spec(a + b) == ones_fold(sum16_u8_spec(a) + sum16_u8_spec(b)),
        checksum16_u8_spec(a + b) == 0xFFFF - ones_fold(sum16_u8_spec(a) + sum16_u8_spec(b)),
{
    lemma_byte_pair_sum_concat(a, b);
    lemma_byte_pair_sum_nonneg(a);
    lemma_byte_pair_sum_nonneg(b);
    lemma_ones_fold_add(byte_pair_sum(a), byte_pair_sum(b));
}

/// Word sum of a two-element sequence.
pub proof fn lemma_word_sum_two(a: u16, b: u16)
    ensures
        word_sum(seq![a, b]) == a + b,
{
    lemma_word_sum_concat(seq![a], seq![b]);
    lemma_word_sum_single(a);
    lemma_word_sum_single(b);
    assert(seq![a] + seq![b] =~= seq![a, b]);
}

/// Word sum of a three-element sequence.
pub proof fn lemma_word_sum_three(a: u16, b: u16, c: u16)
    ensures
        word_sum(seq![a, b, c]) == a + b + c,
{
    lemma_word_sum_concat(seq![a, b], seq![c]);
    lemma_word_sum_two(a, b);
    lemma_word_sum_single(c);
    assert(seq![a, b] + seq![c] =~= seq![a, b, c]);
}

/// Word sum of a four-element sequence.
pub proof fn lemma_word_sum_four(a: u16, b: u16, c: u16, d: u16)
    ensures
        word_sum(seq![a, b, c, d]) == a + b + c + d,
{
    lemma_word_sum_concat(seq![a, b], seq![c, d]);
    lemma_word_sum_two(a, b);
    lemma_word_sum_two(c, d);
    assert(seq![a, b] + seq![c, d] =~= seq![a, b, c, d]);
}

/// Byte-pair sum of a four-element sequence.
pub proof fn lemma_byte_pair_sum_four(a: u8, b: u8, c: u8, d: u8)
    ensures
        byte_pair_sum(seq![a, b, c, d]) == 256 * a + b + 256 * c + d,
{
    lemma_byte_pair_sum_concat(seq![a, b], seq![c, d]);
    lemma_byte_pair_sum_pair(a, b);
    lemma_byte_pair_sum_pair(c, d);
    assert(seq![a, b] + seq![c, d] =~= seq![a, b, c, d]);
}

/// Folding each operand of a three-way sum first does not change the total.
pub proof fn lemma_fold_sum3(x: int, y: int, z: int)
    requires
        x >= 0,
        y >= 0,
        z >= 0,
    ensures
        ones_fold(ones_fold(x) + ones_fold(y) + ones_fold(z)) == ones_fold(x + y + z),
{
    lemma_ones_fold_properties(x);
    lemma_ones_fold_properties(y);
    lemma_ones_fold_properties(z);
    lemma_ones_fold_add_left(x, ones_fold(y) + ones_fold(z));
    lemma_ones_fold_add_left(y, x + ones_fold(z));
    lemma_ones_fold_add_left(z, x + y);
}

/// Folding each operand of a four-way sum first does not change the total.
pub proof fn lemma_fold_sum4(x: int, y: int, z: int, w: int)
    requires
        x >= 0,
        y >= 0,
        z >= 0,
        w >= 0,
    ensures
        ones_fold(ones_fold(x) + ones_fold(y) + ones_fold(z) + ones_fold(w)) == ones_fold(
            x + y + z + w,
        ),
{
    lemma_ones_fold_properties(x);
    lemma_ones_fold_properties(y);
    lemma_ones_fold_properties(z);
    lemma_ones_fold_properties(w);
    lemma_ones_fold_add_left(x, ones_fold(y) + ones_fold(z) + ones_fold(w));
    lemma_ones_fold_add_left(y, x + ones_fold(z) + ones_fold(w));
    lemma_ones_fold_add_left(z, x + y + ones_fold(w));
    lemma_ones_fold_add_left(w, x + y + z);
}

/// Sum of bytes as an unbounded integer (the 8-bit engine's model).
pub open spec fn byte_sum(s: Seq<u8>) -> int
    decreases s.len(),
{
    if s.len() == 0 {
        0
    } else {
        s[0] + byte_sum(s.skip(1))
    }
}

/// End-around-carry folding into 8 bits, modulo 0xFF.
pub open spec fn ones_fold8(n: int) -> int
    recommends
        n >= 0,
{
    if n % 0xFF == 0 {
        if n == 0 {
            0
        } else {
            0xFF
        }
    } else {
        n % 0xFF
    }
}

pub proof fn lemma_byte_sum_nonneg(s: Seq<u8>)
    ensures
        byte_sum(s) >= 0,
    decreases s.len(),
{
    if s.len() > 0 {
        lemma_byte_sum_nonneg(s.skip(1));
    }
}

proof fn lemma_byte_sum_concat(a: Seq<u8>, b: Seq<u8>)
    ensures
        byte_sum(a + b) == byte_sum(a) + byte_sum(b),
    decreases a.len(),
{
    if a.len() == 0 {
        assert(a + b =~= b);
    } else {
        lemma_byte_sum_concat(a.skip(1), b);
        assert((a + b).skip(1) =~= a.skip(1) + b);
        assert((a + b)[0] == a[0]);
    }
}

/// One 8-bit end-around-carry step keeps the residue modulo 0xFF, keeps
/// positivity, and strictly shrinks anything wider than 8 bits.
proof fn lemma_fold8_step(x: int)
    requires
        x > 0xFF,
    ensures
        (x % 0x100 + x / 0x100) % 0xFF == x % 0xFF,
        x % 0x100 + x / 0x100 > 0,
        x % 0x100 + x / 0x100 < x,
{
    lemma_fundamental_div_mod(x, 0x100);
    lemma_div_pos_is_pos(x, 0x100);
    lemma_mod_division_less_than_divisor(x, 0x100);
    let q = x / 0x100;
    let r = x % 0x100;
    assert(x == 0x100 * q + r);
    assert(x == (r + q) + 0xFF * q);
    lemma_mod_multiples_vanish(q, r + q, 0xFF);
    if q == 0 {
        assert(x == r);
    }
    assert(q >= 1);
}

/// 8-bit analogue of the Internet checksum: sum the bytes, fold the carries
/// into 8 bits, complement.
pub fn checksum8(data: &[u8]) -> (r: u8)
    requires
        data@.len() < 0x1_0000_0000,
    ensures
        r == 0xFF - ones_fold8(byte_sum(data@)),
{
    let len = data.len();
    let mut sum: u64 = 0;
    let mut i: usize = 0;
    while i < len
        invariant
            i <= len,
            len == data@.len() < 0x1_0000_0000,
            sum == byte_sum(data@.take(i as int)),
            sum <= 0x100 * i,
        decreases len - i,
    {
        proof {
            lemma_byte_sum_concat(data@.take(i as int), seq![data@[i as int]]);
            assert(byte_sum(Seq::<u8>::empty()) == 0);
            assert(seq![data@[i as int]].skip(1) =~= Seq::<u8>::empty());
            assert(data@.take(i + 1) =~= data@.take(i as int) + seq![data@[i as int]]);
        }
        sum = sum + data[i] as u64;
        i = i + 1;
    }
    proof {
        assert(data@.take(len as int) =~= data@);
    }
    let ghost total = sum as int;
    while sum > 0xFF
        invariant
            sum >= 0,
            total >= 0,
            sum as int % 0xFF == total % 0xFF,
            (sum == 0) == (total == 0),
        decreases sum,
    {
        proof {
            lemma_fold8_step(sum as int);
        }
        sum = sum % 0x100 + sum / 0x100;
    }
    proof {
        if sum < 0xFF {
            lemma_small_mod(sum as nat, 0xFF);
        } else {
            lemma_mod_self_0(0xFF);
        }
    }
    0xFF - (sum as u8)
}

} // verus!
