//! Dotted-decimal rendering of an IPv4 address given as four raw bytes
//! in network order.

use vstd::prelude::*;

verus! {

/// The character for one decimal digit.
pub open spec fn digit_char(d: int) -> char
    recommends
        0 <= d < 10,
{
    if d == 0 {
        '0'
    } else if d == 1 {
        '1'
    } else if d == 2 {
        '2'
    } else if d == 3 {
        '3'
    } else if d == 4 {
        '4'
    } else if d == 5 {
        '5'
    } else if d == 6 {
        '6'
    } else if d == 7 {
        '7'
    } else if d == 8 {
        '8'
    } else {
        '9'
    }
}

/// The decimal rendering of a non-negative integer, most significant
/// digit first, with no leading zero except for zero itself.
pub open spec fn dec_str(n: int) -> Seq<char>
    recommends
        0 <= n,
    decreases n,
{
    if n < 10 {
        seq![digit_char(n)]
    } else {
        dec_str(n / 10).push(digit_char(n % 10))
    }
}

/// The dotted-decimal rendering of four address bytes in network order.
pub open spec fn ipv4_dotted(b: Seq<u8>) -> Seq<char>
    recommends
        b.len() == 4,
{
    dec_str(b[0] as int) + seq!['.'] + dec_str(b[1] as int) + seq!['.'] + dec_str(b[2] as int)
        + seq!['.'] + dec_str(b[3] as int)
}

/// Appends the character of one decimal digit.
fn push_digit(s: &mut String, d: u8)
    requires
        d < 10,
    ensures
        final(s)@ == old(s)@ + seq![digit_char(d as int)],
{
    proof {
        reveal_strlit("0");
        reveal_strlit("1");
        reveal_strlit("2");
        reveal_strlit("3");
        reveal_strlit("4");
        reveal_strlit("5");
        reveal_strlit("6");
        reveal_strlit("7");
        reveal_strlit("8");
        reveal_strlit("9");
    }
    match d {
        0 => s.append("0"),
        1 => s.append("1"),
        2 => s.append("2"),
        3 => s.append("3"),
        4 => s.append("4"),
        5 => s.append("5"),
        6 => s.append("6"),
        7 => s.append("7"),
        8 => s.append("8"),
        _ => s.append("9"),
    }
    assert(s@ =~= old(s)@ + seq![digit_char(d as int)]);
}

/// Appends the decimal rendering of one byte: one to three digits.
fn push_decimal(s: &mut String, n: u8)
    ensures
        final(s)@ == old(s)@ + dec_str(n as int),
{
    if n >= 100 {
        let q: u8 = n / 10;
        push_digit(s, q / 10);
        push_digit(s, q % 10);
        push_digit(s, n % 10);
        proof {
            assert(dec_str(q as int / 10) =~= seq![digit_char(q as int / 10)]);
            assert(dec_str(q as int) =~= dec_str(q as int / 10).push(digit_char(q as int % 10)));
            assert(dec_str(n as int) =~= dec_str(q as int).push(digit_char(n as int % 10)));
            assert(s@ =~= old(s)@ + dec_str(n as int));
        }
    } else if n >= 10 {
        push_digit(s, n / 10);
        push_digit(s, n % 10);
        proof {
            assert(dec_str(n as int / 10) =~= seq![digit_char(n as int / 10)]);
            assert(dec_str(n as int) =~= dec_str(n as int / 10).push(digit_char(n as int % 10)));
            assert(s@ =~= old(s)@ + dec_str(n as int));
        }
    } else {
        push_digit(s, n);
        proof {
            assert(dec_str(n as int) =~= seq![digit_char(n as int)]);
            assert(s@ =~= old(s)@ + dec_str(n as int));
        }
    }
}

/// Renders four address bytes, in network order, as the dotted-decimal
/// string of the IPv4 address they encode.
pub fn ipv4_string(bytes: &[u8; 4]) -> (s: String)
    ensures
        s@ == ipv4_dotted(bytes@),
{
    let mut s = String::new();
    push_decimal(&mut s, bytes[0]);
    s.append(".");
    push_decimal(&mut s, bytes[1]);
    s.append(".");
    push_decimal(&mut s, bytes[2]);
    s.append(".");
    push_decimal(&mut s, bytes[3]);
    proof {
        reveal_strlit(".");
        assert(s@ =~= ipv4_dotted(bytes@));
    }
    s
}

} // verus!
