//! Verified building blocks for the human-readable renderings: hexadecimal
//! and decimal digits appended to a `String`, with the produced characters
//! pinned down by spec functions.

use vstd::prelude::*;
use vstd::string::StringExecFns;

verus! {

/// The character for one hexadecimal digit (upper case).
pub open spec fn hex_digit(n: int) -> char {
    if n == 0 {
        '0'
    } else if n == 1 {
        '1'
    } else if n == 2 {
        '2'
    } else if n == 3 {
        '3'
    } else if n == 4 {
        '4'
    } else if n == 5 {
        '5'
    } else if n == 6 {
        '6'
    } else if n == 7 {
        '7'
    } else if n == 8 {
        '8'
    } else if n == 9 {
        '9'
    } else if n == 10 {
        'A'
    } else if n == 11 {
        'B'
    } else if n == 12 {
        'C'
    } else if n == 13 {
        'D'
    } else if n == 14 {
        'E'
    } else {
        'F'
    }
}

/// Two hex digits of a byte, high nibble first.
pub open spec fn hex2(b: u8) -> Seq<char> {
    seq![hex_digit(b as int / 16), hex_digit(b as int % 16)]
}

/// Four hex digits of a 16-bit value, high byte first.
pub open spec fn hex4(w: u16) -> Seq<char> {
    hex2((w / 256) as u8) + hex2((w % 256) as u8)
}

/// Hex digits of a 16-bit value with leading zeros stripped down to a
/// minimum width of two (the `{:02X}` rendering).
pub open spec fn hex_min2(w: u16) -> Seq<char> {
    if w < 0x100 {
        hex2(w as u8)
    } else if w < 0x1000 {
        seq![hex_digit(w as int / 256)] + hex2((w % 256) as u8)
    } else {
        hex4(w)
    }
}

/// Decimal digits of a byte, no leading zeros (the `{}` rendering).
pub open spec fn dec_u8(n: u8) -> Seq<char> {
    if n < 10 {
        seq![hex_digit(n as int)]
    } else if n < 100 {
        seq![hex_digit(n as int / 10), hex_digit(n as int % 10)]
    } else {
        seq![hex_digit(n as int / 100), hex_digit((n as int / 10) % 10), hex_digit(n as int % 10)]
    }
}

/// One hex digit as a string slice.
fn hex_digit_str(n: u8) -> (r: &'static str)
    requires
        n < 16,
    ensures
        r@ == seq![hex_digit(n as int)],
{
    match n {
        0 => {
            proof {
                reveal_strlit("0");
                assert("0"@ =~= seq![hex_digit(0)]);
            }
            "0"
        },
        1 => {
            proof {
                reveal_strlit("1");
                assert("1"@ =~= seq![hex_digit(1)]);
            }
            "1"
        },
        2 => {
            proof {
                reveal_strlit("2");
                assert("2"@ =~= seq![hex_digit(2)]);
            }
            "2"
        },
        3 => {
            proof {
                reveal_strlit("3");
                assert("3"@ =~= seq![hex_digit(3)]);
            }
            "3"
        },
        4 => {
            proof {
                reveal_strlit("4");
                assert("4"@ =~= seq![hex_digit(4)]);
            }
            "4"
        },
        5 => {
            proof {
                reveal_strlit("5");
                assert("5"@ =~= seq![hex_digit(5)]);
            }
            "5"
        },
        6 => {
            proof {
                reveal_strlit("6");
                assert("6"@ =~= seq![hex_digit(6)]);
            }
            "6"
        },
        7 => {
            proof {
                reveal_strlit("7");
                assert("7"@ =~= seq![hex_digit(7)]);
            }
            "7"
        },
        8 => {
            proof {
                reveal_strlit("8");
                assert("8"@ =~= seq![hex_digit(8)]);
            }
            "8"
        },
        9 => {
            proof {
                reveal_strlit("9");
                assert("9"@ =~= seq![hex_digit(9)]);
            }
            "9"
        },
        10 => {
            proof {
                reveal_strlit("A");
                assert("A"@ =~= seq![hex_digit(10)]);
            }
            "A"
        },
        11 => {
            proof {
                reveal_strlit("B");
                assert("B"@ =~= seq![hex_digit(11)]);
            }
            "B"
        },
        12 => {
            proof {
                reveal_strlit("C");
                assert("C"@ =~= seq![hex_digit(12)]);
            }
            "C"
        },
        13 => {
            proof {
                reveal_strlit("D");
                assert("D"@ =~= seq![hex_digit(13)]);
            }
            "D"
        },
        14 => {
            proof {
                reveal_strlit("E");
                assert("E"@ =~= seq![hex_digit(14)]);
            }
            "E"
        },
        _ => {
            proof {
                reveal_strlit("F");
                assert("F"@ =~= seq![hex_digit(15)]);
            }
            "F"
        },
    }
}

/// Append the two hex digits of a byte.
pub fn push_hex2(s: &mut String, b: u8)
    ensures
        final(s)@ == old(s)@ + hex2(b),
{
    s.append(hex_digit_str(b / 16));
    s.append(hex_digit_str(b % 16));
    proof {
        assert(old(s)@ + seq![hex_digit(b as int / 16)] + seq![hex_digit(b as int % 16)] =~= old(
            s,
        )@ + hex2(b));
    }
}

/// Append the four hex digits of a 16-bit value.
pub fn push_hex4(s: &mut String, w: u16)
    ensures
        final(s)@ == old(s)@ + hex4(w),
{
    push_hex2(s, (w / 256) as u8);
    push_hex2(s, (w % 256) as u8);
    proof {
        assert(old(s)@ + hex2((w / 256) as u8) + hex2((w % 256) as u8) =~= old(s)@ + hex4(w));
    }
}

/// Append the hex digits of a 16-bit value, at least two of them.
pub fn push_hex_min2(s: &mut String, w: u16)
    ensures
        final(s)@ == old(s)@ + hex_min2(w),
{
    if w < 0x100 {
        push_hex2(s, w as u8);
    } else if w < 0x1000 {
        s.append(hex_digit_str((w / 256) as u8));
        push_hex2(s, (w % 256) as u8);
        proof {
            assert(old(s)@ + seq![hex_digit(w as int / 256)] + hex2((w % 256) as u8) =~= old(s)@
                + hex_min2(w));
        }
    } else {
        push_hex4(s, w);
    }
}

/// Append the decimal digits of a byte.
pub fn push_dec_u8(s: &mut String, n: u8)
    ensures
        final(s)@ == old(s)@ + dec_u8(n),
{
    if n < 10 {
        s.append(hex_digit_str(n));
    } else if n < 100 {
        s.append(hex_digit_str(n / 10));
        s.append(hex_digit_str(n % 10));
        proof {
            assert(old(s)@ + seq![hex_digit(n as int / 10)] + seq![hex_digit(n as int % 10)] =~= old(
                s,
            )@ + dec_u8(n));
        }
    } else {
        s.append(hex_digit_str(n / 100));
        s.append(hex_digit_str((n / 10) % 10));
        s.append(hex_digit_str(n % 10));
        proof {
            assert(old(s)@ + seq![hex_digit(n as int / 100)] + seq![hex_digit((n as int / 10) % 10)]
                + seq![hex_digit(n as int % 10)] =~= old(s)@ + dec_u8(n));
        }
    }
}

} // verus!
