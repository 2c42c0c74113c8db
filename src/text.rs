//! Decimal and hexadecimal text of unsigned numbers.

use vstd::prelude::*;

verus! {

/// The character of one digit, `0`-`9` then `A`-`F`.
pub open spec fn digit_text(d: nat) -> Seq<char> {
    if d == 0 {
        "0"@
    } else if d == 1 {
        "1"@
    } else if d == 2 {
        "2"@
    } else if d == 3 {
        "3"@
    } else if d == 4 {
        "4"@
    } else if d == 5 {
        "5"@
    } else if d == 6 {
        "6"@
    } else if d == 7 {
        "7"@
    } else if d == 8 {
        "8"@
    } else if d == 9 {
        "9"@
    } else if d == 10 {
        "A"@
    } else if d == 11 {
        "B"@
    } else if d == 12 {
        "C"@
    } else if d == 13 {
        "D"@
    } else if d == 14 {
        "E"@
    } else {
        "F"@
    }
}

/// `n` written in base `radix`, most significant digit first, with no leading zeros.
pub open spec fn radix_text(n: nat, radix: nat) -> Seq<char>
    recommends
        2 <= radix <= 16,
    decreases n,
    via radix_text_decreases
{
    if n < radix || radix < 2 {
        digit_text(n)
    } else {
        radix_text(n / radix, radix) + digit_text(n % radix)
    }
}

#[via_fn]
proof fn radix_text_decreases(n: nat, radix: nat) {
    if !(n < radix || radix < 2) {
        assert(n / radix < n) by (nonlinear_arith)
            requires
                n >= radix,
                radix >= 2,
        ;
    }
}

/// `n` in decimal.
pub open spec fn decimal_text(n: nat) -> Seq<char> {
    radix_text(n, 10)
}

/// `n` in upper-case hexadecimal.
pub open spec fn hex_text(n: nat) -> Seq<char> {
    radix_text(n, 16)
}

/// `b` as two upper-case hexadecimal digits.
pub open spec fn byte_hex_text(b: u8) -> Seq<char> {
    digit_text(b as nat / 16) + digit_text(b as nat % 16)
}

fn digit_str(d: u64) -> (r: &'static str)
    requires
        d < 16,
    ensures
        r@ == digit_text(d as nat),
{
    if d == 0 {
        "0"
    } else if d == 1 {
        "1"
    } else if d == 2 {
        "2"
    } else if d == 3 {
        "3"
    } else if d == 4 {
        "4"
    } else if d == 5 {
        "5"
    } else if d == 6 {
        "6"
    } else if d == 7 {
        "7"
    } else if d == 8 {
        "8"
    } else if d == 9 {
        "9"
    } else if d == 10 {
        "A"
    } else if d == 11 {
        "B"
    } else if d == 12 {
        "C"
    } else if d == 13 {
        "D"
    } else if d == 14 {
        "E"
    } else {
        "F"
    }
}

/// Appends `n` written in base `radix` to `out`.
pub fn push_radix(out: &mut String, n: u64, radix: u64)
    requires
        2 <= radix <= 16,
    ensures
        final(out)@ == old(out)@ + radix_text(n as nat, radix as nat),
    decreases n,
{
    let ghost start = old(out)@;
    if n >= radix {
        assert(n / radix < n) by (nonlinear_arith)
            requires
                n >= radix,
                radix >= 2,
        ;
        push_radix(out, n / radix, radix);
    }
    out.append(digit_str(n % radix));
    proof {
        if n < radix {
            assert(n % radix == n) by (nonlinear_arith)
                requires
                    n < radix,
            ;
        }
        assert(final(out)@ =~= start + radix_text(n as nat, radix as nat));
    }
}

/// Appends `n` in decimal to `out`.
pub fn push_decimal(out: &mut String, n: u64)
    ensures
        final(out)@ == old(out)@ + decimal_text(n as nat),
{
    push_radix(out, n, 10);
}

/// Appends `n` in upper-case hexadecimal to `out`.
pub fn push_hex(out: &mut String, n: u64)
    ensures
        final(out)@ == old(out)@ + hex_text(n as nat),
{
    push_radix(out, n, 16);
}

/// Appends `b` as two upper-case hexadecimal digits to `out`.
pub fn push_byte_hex(out: &mut String, b: u8)
    ensures
        final(out)@ == old(out)@ + byte_hex_text(b),
{
    out.append(digit_str(b as u64 / 16));
    out.append(digit_str(b as u64 % 16));
    proof {
        assert(final(out)@ =~= old(out)@ + byte_hex_text(b));
    }
}

} // verus!
