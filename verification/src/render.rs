//! Rendering primitives shared by the field formatters: decimal and
//! hexadecimal digit strings.
use vstd::prelude::*;

verus! {

/// The decimal digit character for a value below ten.
pub open spec fn dec_digit_char(d: nat) -> char
    recommends
        d < 10,
{
    if d == 0 {
        '0'
    } else if d == 1 {
        '1'
    } else if d == 2 {
        '2'
    } else if d == 3 {
        '3'
    } else if d == 4 {
        '4'
    } else if d == 5 {
        '5'
    } else if d == 6 {
        '6'
    } else if d == 7 {
        '7'
    } else if d == 8 {
        '8'
    } else {
        '9'
    }
}

/// The decimal rendering of a natural number: most significant digit first,
/// no leading zeros (zero itself renders as a single digit).
pub open spec fn dec_chars(n: nat) -> Seq<char>
    decreases n,
{
    if n < 10 {
        seq![dec_digit_char(n)]
    } else {
        dec_chars(n / 10).push(dec_digit_char(n % 10))
    }
}

/// The string holding exactly one decimal digit.
fn dec_digit_str(d: u64) -> (r: &'static str)
    requires
        d < 10,
    ensures
        r@ == seq![dec_digit_char(d as nat)],
{
    proof {
        reveal_strlit("0");
        reveal_strlit("1");
        reveal_strlit("2");
        reveal_strlit("3");
        reveal_strlit("4");
        reveal_strlit("5");
        reveal_strlit("6");
        reveal_strlit("7");
        reveal_strlit("8");
        reveal_strlit("9");
    }
    let r = if d == 0 {
        "0"
    } else if d == 1 {
        "1"
    } else if d == 2 {
        "2"
    } else if d == 3 {
        "3"
    } else if d == 4 {
        "4"
    } else if d == 5 {
        "5"
    } else if d == 6 {
        "6"
    } else if d == 7 {
        "7"
    } else if d == 8 {
        "8"
    } else {
        "9"
    };
    proof {
        assert(r@ =~= seq![dec_digit_char(d as nat)]);
    }
    r
}

/// The lowercase hexadecimal digit character for a value below sixteen.
pub open spec fn hex_digit_char(d: nat) -> char
    recommends
        d < 16,
{
    if d == 0 {
        '0'
    } else if d == 1 {
        '1'
    } else if d == 2 {
        '2'
    } else if d == 3 {
        '3'
    } else if d == 4 {
        '4'
    } else if d == 5 {
        '5'
    } else if d == 6 {
        '6'
    } else if d == 7 {
        '7'
    } else if d == 8 {
        '8'
    } else if d == 9 {
        '9'
    } else if d == 10 {
        'a'
    } else if d == 11 {
        'b'
    } else if d == 12 {
        'c'
    } else if d == 13 {
        'd'
    } else if d == 14 {
        'e'
    } else {
        'f'
    }
}

/// A byte as exactly two lowercase hexadecimal digits.
pub open spec fn hex2_chars(b: nat) -> Seq<char>
    recommends
        b < 256,
{
    seq![hex_digit_char(b / 16), hex_digit_char(b % 16)]
}

/// The lowercase hexadecimal rendering of a natural number without leading
/// zeros (zero itself renders as a single digit).
pub open spec fn hex_chars(n: nat) -> Seq<char>
    decreases n,
{
    if n < 16 {
        seq![hex_digit_char(n)]
    } else {
        hex_chars(n / 16).push(hex_digit_char(n % 16))
    }
}

/// The string holding exactly one lowercase hexadecimal digit.
fn hex_digit_str(d: u64) -> (r: &'static str)
    requires
        d < 16,
    ensures
        r@ == seq![hex_digit_char(d as nat)],
{
    if d < 10 {
        dec_digit_str(d)
    } else {
        proof {
            reveal_strlit("a");
            reveal_strlit("b");
            reveal_strlit("c");
            reveal_strlit("d");
            reveal_strlit("e");
            reveal_strlit("f");
        }
        let r = if d == 10 {
            "a"
        } else if d == 11 {
            "b"
        } else if d == 12 {
            "c"
        } else if d == 13 {
            "d"
        } else if d == 14 {
            "e"
        } else {
            "f"
        };
        proof {
            assert(r@ =~= seq![hex_digit_char(d as nat)]);
        }
        r
    }
}

/// Appends a byte as exactly two lowercase hexadecimal digits.
pub fn append_hex2(out: &mut String, b: u8)
    ensures
        final(out)@ == old(out)@ + hex2_chars(b as nat),
{
    out.append(hex_digit_str((b / 16) as u64));
    out.append(hex_digit_str((b % 16) as u64));
    proof {
        assert(final(out)@ =~= old(out)@ + hex2_chars(b as nat));
    }
}

/// Renders a number in lowercase hexadecimal without leading zeros.
pub fn u64_to_hex(n: u64) -> (r: String)
    ensures
        r@ == hex_chars(n as nat),
    decreases n,
{
    if n < 16 {
        let r = hex_digit_str(n).to_owned();
        proof {
            assert(r@ =~= hex_chars(n as nat));
        }
        r
    } else {
        let mut r = u64_to_hex(n / 16);
        r.append(hex_digit_str(n % 16));
        proof {
            assert(r@ =~= hex_chars(n as nat));
        }
        r
    }
}

/// Renders a number in decimal, most significant digit first.
pub fn u64_to_dec(n: u64) -> (r: String)
    ensures
        r@ == dec_chars(n as nat),
    decreases n,
{
    if n < 10 {
        let r = dec_digit_str(n).to_owned();
        proof {
            assert(r@ =~= dec_chars(n as nat));
        }
        r
    } else {
        let mut r = u64_to_dec(n / 10);
        r.append(dec_digit_str(n % 10));
        proof {
            assert(r@ =~= dec_chars(n as nat));
        }
        r
    }
}

} // verus!
