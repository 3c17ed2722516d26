//! Text rendering of packed coefficient sets.
//!
//! Both renderings list the five coefficients in the fixed wire order
//! `b0 b1 b2 a1 a2` — not the order in which the set's fields are
//! declared — three bytes per coefficient, every value separated from
//! the next by a single space.

use vstd::prelude::*;

use crate::pack::FormattedCoef;
use crate::pack::FormattedCoefs;

verus! {

/// The character of one base-16 digit, uppercase; decimal digits are
/// the first ten.
pub open spec fn digit_char(d: u8) -> char
    recommends
        d < 16,
{
    if d == 0 {
        '0'
    } else if d == 1 {
        '1'
    } else if d == 2 {
        '2'
    } else if d == 3 {
        '3'
    } else if d == 4 {
        '4'
    } else if d == 5 {
        '5'
    } else if d == 6 {
        '6'
    } else if d == 7 {
        '7'
    } else if d == 8 {
        '8'
    } else if d == 9 {
        '9'
    } else if d == 10 {
        'A'
    } else if d == 11 {
        'B'
    } else if d == 12 {
        'C'
    } else if d == 13 {
        'D'
    } else if d == 14 {
        'E'
    } else {
        'F'
    }
}

fn digit_str(d: u8) -> (r: &'static str)
    requires
        d < 16,
    ensures
        r@ == seq![digit_char(d)],
{
    let s: &'static str = if d == 0 {
        "0"
    } else if d == 1 {
        "1"
    } else if d == 2 {
        "2"
    } else if d == 3 {
        "3"
    } else if d == 4 {
        "4"
    } else if d == 5 {
        "5"
    } else if d == 6 {
        "6"
    } else if d == 7 {
        "7"
    } else if d == 8 {
        "8"
    } else if d == 9 {
        "9"
    } else if d == 10 {
        "A"
    } else if d == 11 {
        "B"
    } else if d == 12 {
        "C"
    } else if d == 13 {
        "D"
    } else if d == 14 {
        "E"
    } else {
        "F"
    };
    proof {
        reveal_strlit("0");
        reveal_strlit("1");
        reveal_strlit("2");
        reveal_strlit("3");
        reveal_strlit("4");
        reveal_strlit("5");
        reveal_strlit("6");
        reveal_strlit("7");
        reveal_strlit("8");
        reveal_strlit("9");
        reveal_strlit("A");
        reveal_strlit("B");
        reveal_strlit("C");
        reveal_strlit("D");
        reveal_strlit("E");
        reveal_strlit("F");
        assert(s@ =~= seq![digit_char(d)]);
    }
    s
}

/// Decimal text of one byte: one to three digits, no padding.
pub open spec fn spec_dec_byte(n: u8) -> Seq<char> {
    if n < 10 {
        seq![digit_char(n)]
    } else if n < 100 {
        seq![digit_char(n / 10), digit_char(n % 10)]
    } else {
        seq![digit_char(n / 100), digit_char((n / 10) % 10), digit_char(n % 10)]
    }
}

/// Hexadecimal text of one byte: exactly two uppercase digits.
pub open spec fn spec_hex_byte(n: u8) -> Seq<char> {
    seq![digit_char(n / 16), digit_char(n % 16)]
}

/// Decimal text of one packed coefficient: its three bytes in
/// transmission order, space-separated.
pub open spec fn spec_dec_coef(c: FormattedCoef) -> Seq<char> {
    spec_dec_byte(c.hi) + seq![' '] + spec_dec_byte(c.mid) + seq![' '] + spec_dec_byte(c.lo)
}

/// Hexadecimal text of one packed coefficient.
pub open spec fn spec_hex_coef(c: FormattedCoef) -> Seq<char> {
    spec_hex_byte(c.hi) + seq![' '] + spec_hex_byte(c.mid) + seq![' '] + spec_hex_byte(c.lo)
}

/// Decimal text of a packed set, coefficients in wire order
/// `b0 b1 b2 a1 a2`.
pub open spec fn spec_dec_set(s: FormattedCoefs) -> Seq<char> {
    spec_dec_coef(s.b0) + seq![' '] + spec_dec_coef(s.b1) + seq![' '] + spec_dec_coef(s.b2)
        + seq![' '] + spec_dec_coef(s.a1) + seq![' '] + spec_dec_coef(s.a2)
}

/// Hexadecimal text of a packed set, coefficients in wire order
/// `b0 b1 b2 a1 a2`.
pub open spec fn spec_hex_set(s: FormattedCoefs) -> Seq<char> {
    spec_hex_coef(s.b0) + seq![' '] + spec_hex_coef(s.b1) + seq![' '] + spec_hex_coef(s.b2)
        + seq![' '] + spec_hex_coef(s.a1) + seq![' '] + spec_hex_coef(s.a2)
}

fn push_space(out: &mut String)
    ensures
        final(out)@ == old(out)@ + seq![' '],
{
    out.append(" ");
    proof {
        reveal_strlit(" ");
        assert(" "@ =~= seq![' ']);
    }
}

fn push_dec_byte(out: &mut String, n: u8)
    ensures
        final(out)@ == old(out)@ + spec_dec_byte(n),
{
    proof {
        assert(n / 100 < 16 && (n / 10) % 10 < 16 && n % 10 < 16) by (bit_vector);
        assert(n < 100 ==> n / 10 < 16) by (bit_vector);
    }
    if n >= 100 {
        out.append(digit_str(n / 100));
        out.append(digit_str((n / 10) % 10));
        out.append(digit_str(n % 10));
        proof {
            assert(out@ =~= old(out)@ + spec_dec_byte(n));
        }
    } else if n >= 10 {
        out.append(digit_str(n / 10));
        out.append(digit_str(n % 10));
        proof {
            assert(out@ =~= old(out)@ + spec_dec_byte(n));
        }
    } else {
        out.append(digit_str(n));
        proof {
            assert(n % 10 == n) by (bit_vector)
                requires
                    n < 10,
            ;
            assert(out@ =~= old(out)@ + spec_dec_byte(n));
        }
    }
}

fn push_hex_byte(out: &mut String, n: u8)
    ensures
        final(out)@ == old(out)@ + spec_hex_byte(n),
{
    proof {
        assert(n / 16 < 16 && n % 16 < 16) by (bit_vector);
    }
    out.append(digit_str(n / 16));
    out.append(digit_str(n % 16));
    proof {
        assert(out@ =~= old(out)@ + spec_hex_byte(n));
    }
}

fn push_dec_coef(out: &mut String, c: &FormattedCoef)
    ensures
        final(out)@ == old(out)@ + spec_dec_coef(*c),
{
    push_dec_byte(out, c.hi);
    push_space(out);
    push_dec_byte(out, c.mid);
    push_space(out);
    push_dec_byte(out, c.lo);
    proof {
        assert(out@ =~= old(out)@ + spec_dec_coef(*c));
    }
}

fn push_hex_coef(out: &mut String, c: &FormattedCoef)
    ensures
        final(out)@ == old(out)@ + spec_hex_coef(*c),
{
    push_hex_byte(out, c.hi);
    push_space(out);
    push_hex_byte(out, c.mid);
    push_space(out);
    push_hex_byte(out, c.lo);
    proof {
        assert(out@ =~= old(out)@ + spec_hex_coef(*c));
    }
}

impl FormattedCoefs {
    /// Render the packed set as space-separated decimal bytes, each
    /// byte as an unsigned value 0–255 without padding, coefficients
    /// in the wire order `b0 b1 b2 a1 a2`.
    pub fn to_dec(&self) -> (r: String)
        ensures
            r@ == spec_dec_set(*self),
    {
        let mut out = String::new();
        push_dec_coef(&mut out, &self.b0);
        push_space(&mut out);
        push_dec_coef(&mut out, &self.b1);
        push_space(&mut out);
        push_dec_coef(&mut out, &self.b2);
        push_space(&mut out);
        push_dec_coef(&mut out, &self.a1);
        push_space(&mut out);
        push_dec_coef(&mut out, &self.a2);
        proof {
            assert(out@ =~= spec_dec_set(*self));
        }
        out
    }

    /// Render the packed set as space-separated hexadecimal bytes,
    /// each byte as exactly two uppercase digits, coefficients in the
    /// wire order `b0 b1 b2 a1 a2`.
    pub fn to_hex(&self) -> (r: String)
        ensures
            r@ == spec_hex_set(*self),
    {
        let mut out = String::new();
        push_hex_coef(&mut out, &self.b0);
        push_space(&mut out);
        push_hex_coef(&mut out, &self.b1);
        push_space(&mut out);
        push_hex_coef(&mut out, &self.b2);
        push_space(&mut out);
        push_hex_coef(&mut out, &self.a1);
        push_space(&mut out);
        push_hex_coef(&mut out, &self.a2);
        proof {
            assert(out@ =~= spec_hex_set(*self));
        }
        out
    }
}

} // verus!
