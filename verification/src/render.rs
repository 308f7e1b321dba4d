//! Decimal and hexadecimal rendering of machine words.
//!
//! Every number that appears in a forwarded log line — elapsed seconds,
//! source line, thread id — goes through these functions, so their contracts
//! pin the rendered text down to the character.

use vstd::prelude::*;

verus! {

/// The character standing for the decimal digit value `d`.
pub open spec fn dec_digit(d: int) -> char {
    if d == 0 {
        '0'
    } else if d == 1 {
        '1'
    } else if d == 2 {
        '2'
    } else if d == 3 {
        '3'
    } else if d == 4 {
        '4'
    } else if d == 5 {
        '5'
    } else if d == 6 {
        '6'
    } else if d == 7 {
        '7'
    } else if d == 8 {
        '8'
    } else {
        '9'
    }
}

/// The decimal rendering of `n`: most significant digit first, no padding,
/// a single `'0'` for zero.
pub open spec fn dec_chars(n: nat) -> Seq<char>
    decreases n,
{
    if n < 10 {
        seq![dec_digit(n as int)]
    } else {
        dec_chars(n / 10) + seq![dec_digit((n % 10) as int)]
    }
}

/// The low `width` decimal digits of `n`, zero-padded on the left to exactly
/// `width` characters.
pub open spec fn dec_chars_fixed(n: nat, width: nat) -> Seq<char>
    decreases width,
{
    if width == 0 {
        Seq::empty()
    } else {
        dec_chars_fixed(n / 10, (width - 1) as nat) + seq![dec_digit((n % 10) as int)]
    }
}

/// The character standing for the hexadecimal digit value `d`, lower case.
pub open spec fn hex_digit(d: int) -> char {
    if d < 10 {
        dec_digit(d)
    } else if d == 10 {
        'a'
    } else if d == 11 {
        'b'
    } else if d == 12 {
        'c'
    } else if d == 13 {
        'd'
    } else if d == 14 {
        'e'
    } else {
        'f'
    }
}

/// The hexadecimal rendering of `n`: lower case, most significant digit
/// first, no padding and no prefix.
pub open spec fn hex_chars(n: nat) -> Seq<char>
    decreases n,
{
    if n < 16 {
        seq![hex_digit(n as int)]
    } else {
        hex_chars(n / 16) + seq![hex_digit((n % 16) as int)]
    }
}

fn dec_digit_str(d: u64) -> (r: &'static str)
    requires
        d < 10,
    ensures
        r@ == seq![dec_digit(d as int)],
{
    proof {
        reveal_strlit("0");
        reveal_strlit("1");
        reveal_strlit("2");
        reveal_strlit("3");
        reveal_strlit("4");
        reveal_strlit("5");
        reveal_strlit("6");
        reveal_strlit("7");
        reveal_strlit("8");
        reveal_strlit("9");
        assert("0"@ =~= seq!['0']);
        assert("1"@ =~= seq!['1']);
        assert("2"@ =~= seq!['2']);
        assert("3"@ =~= seq!['3']);
        assert("4"@ =~= seq!['4']);
        assert("5"@ =~= seq!['5']);
        assert("6"@ =~= seq!['6']);
        assert("7"@ =~= seq!['7']);
        assert("8"@ =~= seq!['8']);
        assert("9"@ =~= seq!['9']);
    }
    match d {
        0 => "0",
        1 => "1",
        2 => "2",
        3 => "3",
        4 => "4",
        5 => "5",
        6 => "6",
        7 => "7",
        8 => "8",
        _ => "9",
    }
}

fn hex_digit_str(d: u64) -> (r: &'static str)
    requires
        d < 16,
    ensures
        r@ == seq![hex_digit(d as int)],
{
    if d < 10 {
        dec_digit_str(d)
    } else {
        proof {
            reveal_strlit("a");
            reveal_strlit("b");
            reveal_strlit("c");
            reveal_strlit("d");
            reveal_strlit("e");
            reveal_strlit("f");
            assert("a"@ =~= seq!['a']);
            assert("b"@ =~= seq!['b']);
            assert("c"@ =~= seq!['c']);
            assert("d"@ =~= seq!['d']);
            assert("e"@ =~= seq!['e']);
            assert("f"@ =~= seq!['f']);
        }
        match d {
            10 => "a",
            11 => "b",
            12 => "c",
            13 => "d",
            14 => "e",
            _ => "f",
        }
    }
}

/// Appends the unpadded decimal rendering of `n` to `out`.
pub fn push_decimal(out: &mut String, n: u64)
    ensures
        final(out)@ == old(out)@ + dec_chars(n as nat),
    decreases n,
{
    if n < 10 {
        out.append(dec_digit_str(n));
    } else {
        push_decimal(out, n / 10);
        out.append(dec_digit_str(n % 10));
        proof {
            assert(old(out)@ + dec_chars(n as nat / 10) + seq![dec_digit((n as nat % 10) as int)]
                =~= old(out)@ + dec_chars(n as nat));
        }
    }
}

/// Appends the low `width` decimal digits of `n` to `out`, zero-padded to
/// exactly `width` characters.
pub fn push_decimal_fixed(out: &mut String, n: u64, width: u64)
    ensures
        final(out)@ == old(out)@ + dec_chars_fixed(n as nat, width as nat),
    decreases width,
{
    if width == 0 {
        proof {
            assert(old(out)@ + Seq::<char>::empty() =~= old(out)@);
        }
    } else {
        push_decimal_fixed(out, n / 10, width - 1);
        out.append(dec_digit_str(n % 10));
        proof {
            assert(old(out)@ + dec_chars_fixed(n as nat / 10, (width - 1) as nat)
                + seq![dec_digit((n as nat % 10) as int)]
                =~= old(out)@ + dec_chars_fixed(n as nat, width as nat));
        }
    }
}

/// Appends the unpadded lower-case hexadecimal rendering of `n` to `out`.
pub fn push_hex(out: &mut String, n: u64)
    ensures
        final(out)@ == old(out)@ + hex_chars(n as nat),
    decreases n,
{
    if n < 16 {
        out.append(hex_digit_str(n));
    } else {
        push_hex(out, n / 16);
        out.append(hex_digit_str(n % 16));
        proof {
            assert(old(out)@ + hex_chars(n as nat / 16) + seq![hex_digit((n as nat % 16) as int)]
                =~= old(out)@ + hex_chars(n as nat));
        }
    }
}

/// The decimal rendering of `n` as an owned string.
pub fn decimal_string(n: u64) -> (r: String)
    ensures
        r@ == dec_chars(n as nat),
{
    let mut out = String::new();
    push_decimal(&mut out, n);
    proof {
        assert(Seq::<char>::empty() + dec_chars(n as nat) =~= dec_chars(n as nat));
    }
    out
}

/// The rendering of `n` as a hexadecimal address token: `0x` followed by the
/// lower-case hexadecimal digits.
pub fn address_string(n: u64) -> (r: String)
    ensures
        r@ == seq!['0', 'x'] + hex_chars(n as nat),
{
    proof {
        reveal_strlit("0x");
        assert("0x"@ =~= seq!['0', 'x']);
    }
    let mut out = String::from_str("0x");
    push_hex(&mut out, n);
    out
}

} // verus!
