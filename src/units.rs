//! Human-readable byte counts.
use vstd::prelude::*;
use vstd::string::*;
use crate::text::push_char;

verus! {

/// The decimal digit `d`, which is below 10.
pub open spec fn digit_char(d: nat) -> char {
    seq!['0', '1', '2', '3', '4', '5', '6', '7', '8', '9'][d as int]
}

/// `n` in decimal, without leading zeros.
pub open spec fn decimal_digits(n: nat) -> Seq<char>
    decreases n,
{
    if n < 10 {
        seq![digit_char(n)]
    } else {
        decimal_digits(n / 10).push(digit_char(n % 10))
    }
}

/// The unit of `1000^e` bytes (`decimal`) or of `1024^e` bytes.
pub open spec fn unit_name(decimal: bool, e: nat) -> Seq<char> {
    let prefix: Seq<char> = if e == 1 {
        seq!['K']
    } else if e == 2 {
        seq!['M']
    } else if e == 3 {
        seq!['G']
    } else if e == 4 {
        seq!['T']
    } else if e == 5 {
        seq!['P']
    } else {
        Seq::empty()
    };
    if e == 0 {
        seq!['B']
    } else if decimal {
        prefix + seq!['B']
    } else {
        prefix + seq!['i', 'B']
    }
}

/// `base` to the power `e`.
pub open spec fn power(base: nat, e: nat) -> nat
    decreases e,
{
    if e == 0 {
        1
    } else {
        base * power(base, (e - 1) as nat)
    }
}

/// The largest `e` from `from` to 5 with `base^e <= bytes`, `base^from` being
/// at most `bytes`.
pub open spec fn unit_exponent(bytes: nat, base: nat, from: nat) -> nat
    decreases 5 - from,
{
    if from < 5 && power(base, from + 1) <= bytes {
        unit_exponent(bytes, base, from + 1)
    } else {
        from
    }
}

/// `n / d` rounded to the nearest integer, halves to the even neighbour.
pub open spec fn round_half_even(n: nat, d: nat) -> nat {
    let q = n / d;
    let r = n % d;
    if 2 * r > d || (2 * r == d && q % 2 == 1) {
        q + 1
    } else {
        q
    }
}

/// `bytes` in the largest unit (up to peta) that is at most `bytes`, with
/// two decimals: `1536` gives `1.50 KiB`, `2000` in decimal units `2.00 KB`.
pub open spec fn format_bytes_text(bytes: nat, decimal: bool) -> Seq<char> {
    let base: nat = if decimal { 1000 } else { 1024 };
    let e = unit_exponent(bytes, base, 0);
    let hundredths = round_half_even(bytes * 100, power(base, e));
    decimal_digits(hundredths / 100) + seq!['.', digit_char((hundredths % 100) / 10), digit_char(hundredths % 10)]
        + seq![' '] + unit_name(decimal, e)
}

fn digit(d: u128) -> (r: char)
    requires
        d < 10,
    ensures
        r == digit_char(d as nat),
{
    if d == 0 {
        '0'
    } else if d == 1 {
        '1'
    } else if d == 2 {
        '2'
    } else if d == 3 {
        '3'
    } else if d == 4 {
        '4'
    } else if d == 5 {
        '5'
    } else if d == 6 {
        '6'
    } else if d == 7 {
        '7'
    } else if d == 8 {
        '8'
    } else {
        '9'
    }
}

/// Appends `n` in decimal.
fn push_decimal(s: &mut String, n: u128)
    ensures
        final(s)@ == old(s)@ + decimal_digits(n as nat),
    decreases n,
{
    if n >= 10 {
        push_decimal(s, n / 10);
    }
    push_char(s, digit(n % 10));
    proof {
        if n >= 10 {
            assert(final(s)@ =~= old(s)@ + decimal_digits(n as nat));
        } else {
            assert(final(s)@ =~= old(s)@ + decimal_digits(n as nat));
        }
    }
}

/// Formats a byte count with two decimals in binary (KiB, MiB, ...) or
/// decimal (KB, MB, ...) units; the hundredths are rounded to nearest, ties
/// to even.
pub fn format_bytes(bytes: u64, decimal: bool) -> (r: String)
    ensures
        r@ == format_bytes_text(bytes as nat, decimal),
{
    let base: u128 = if decimal { 1000 } else { 1024 };
    let mut p: u128 = 1;
    let mut e: usize = 0;
    while e < 5 && p * base <= bytes as u128
        invariant
            e <= 5,
            p == power(base as nat, e as nat),
            p >= 1,
            p <= bytes || (e == 0 && p == 1),
            base == 1000 || base == 1024,
            unit_exponent(bytes as nat, base as nat, 0) == unit_exponent(bytes as nat, base as nat, e as nat),
        decreases 5 - e,
    {
        proof {
            assert(p * base <= 0x1_0000_0000_0000_0000u128 * 1024) by (nonlinear_arith)
                requires
                    p <= bytes || p == 1,
                    bytes < 0x1_0000_0000_0000_0000u128,
                    base <= 1024,
            ;
            assert(power(base as nat, (e + 1) as nat) == base * power(base as nat, e as nat));
        }
        p = p * base;
        e = e + 1;
    }
    proof {
        if e < 5 {
            assert(power(base as nat, (e + 1) as nat) == base * power(base as nat, e as nat));
        }
    }
    let n: u128 = (bytes as u128) * 100;
    let q = n / p;
    let rem = n % p;
    let hundredths = if 2 * rem > p || (2 * rem == p && q % 2 == 1) {
        q + 1
    } else {
        q
    };
    let mut out = String::new();
    push_decimal(&mut out, hundredths / 100);
    push_char(&mut out, '.');
    push_char(&mut out, digit((hundredths % 100) / 10));
    push_char(&mut out, digit(hundredths % 10));
    push_char(&mut out, ' ');
    if e == 0 {
        push_char(&mut out, 'B');
    } else {
        let c = if e == 1 {
            'K'
        } else if e == 2 {
            'M'
        } else if e == 3 {
            'G'
        } else if e == 4 {
            'T'
        } else {
            'P'
        };
        push_char(&mut out, c);
        if !decimal {
            push_char(&mut out, 'i');
        }
        push_char(&mut out, 'B');
    }
    assert(out@ =~= format_bytes_text(bytes as nat, decimal));
    out
}

} // verus!

verus! {

/// Uptime as the two largest non-zero units: `2d 3h 4m`, `3h 4m`, `4m 5s`
/// or `5s`.
pub open spec fn uptime_text(secs: nat) -> Seq<char> {
    let days = secs / 86400;
    let hours = (secs % 86400) / 3600;
    let minutes = (secs % 3600) / 60;
    let seconds = secs % 60;
    if days > 0 {
        decimal_digits(days) + seq!['d', ' '] + decimal_digits(hours) + seq!['h', ' ']
            + decimal_digits(minutes) + seq!['m']
    } else if hours > 0 {
        decimal_digits(hours) + seq!['h', ' '] + decimal_digits(minutes) + seq!['m']
    } else if minutes > 0 {
        decimal_digits(minutes) + seq!['m', ' '] + decimal_digits(seconds) + seq!['s']
    } else {
        decimal_digits(seconds) + seq!['s']
    }
}

/// Formats an uptime given in seconds.
pub fn format_uptime(secs: u64) -> (r: String)
    ensures
        r@ == uptime_text(secs as nat),
{
    let days = secs / 86400;
    let hours = (secs % 86400) / 3600;
    let minutes = (secs % 3600) / 60;
    let seconds = secs % 60;
    let mut out = String::new();
    if days > 0 {
        push_decimal(&mut out, days as u128);
        push_char(&mut out, 'd');
        push_char(&mut out, ' ');
        push_decimal(&mut out, hours as u128);
        push_char(&mut out, 'h');
        push_char(&mut out, ' ');
        push_decimal(&mut out, minutes as u128);
        push_char(&mut out, 'm');
    } else if hours > 0 {
        push_decimal(&mut out, hours as u128);
        push_char(&mut out, 'h');
        push_char(&mut out, ' ');
        push_decimal(&mut out, minutes as u128);
        push_char(&mut out, 'm');
    } else if minutes > 0 {
        push_decimal(&mut out, minutes as u128);
        push_char(&mut out, 'm');
        push_char(&mut out, ' ');
        push_decimal(&mut out, seconds as u128);
        push_char(&mut out, 's');
    } else {
        push_decimal(&mut out, seconds as u128);
        push_char(&mut out, 's');
    }
    assert(out@ =~= uptime_text(secs as nat));
    out
}

/// Time left on a battery: `3h 4m` or `4m`, or `Calculating...` while no
/// estimate is known.
pub open spec fn time_remaining_text(secs: Option<u64>) -> Seq<char> {
    match secs {
        Some(s) => {
            let hours = s / 3600;
            let minutes = (s % 3600) / 60;
            if hours > 0 {
                decimal_digits(hours as nat) + seq!['h', ' '] + decimal_digits(minutes as nat) + seq!['m']
            } else {
                decimal_digits(minutes as nat) + seq!['m']
            }
        },
        None => "Calculating..."@,
    }
}

/// Formats the time a battery has left, in seconds when known.
pub fn format_time_remaining(secs: Option<u64>) -> (r: String)
    ensures
        r@ == time_remaining_text(secs),
{
    match secs {
        Some(s) => {
            let hours = s / 3600;
            let minutes = (s % 3600) / 60;
            let mut out = String::new();
            if hours > 0 {
                push_decimal(&mut out, hours as u128);
                push_char(&mut out, 'h');
                push_char(&mut out, ' ');
            }
            push_decimal(&mut out, minutes as u128);
            push_char(&mut out, 'm');
            assert(out@ =~= time_remaining_text(secs));
            out
        },
        None => String::from_str("Calculating..."),
    }
}

} // verus!
