//! Decimal rendering of telemetry values.
//!
//! Payloads published over the wire are ASCII bytes: a plain decimal for
//! RPM counts, and for fixed-point milli values the decimal fraction with
//! trailing zeros trimmed (`500` thousandths renders as `0.5`, `45200` as
//! `45.2`, a negative value with a leading minus).

use vstd::prelude::*;

verus! {

/// ASCII decimal digits of a nonnegative integer, most significant first.
pub open spec fn dec_digits(v: nat) -> Seq<u8>
    decreases v,
{
    if v < 10 {
        seq![(48 + v) as u8]
    } else {
        dec_digits(v / 10).push((48 + v % 10) as u8)
    }
}

/// Digits after the decimal point for a fraction counted in thousandths,
/// trailing zeros trimmed; at least one digit.
pub open spec fn frac_digits(frac: nat) -> Seq<u8> {
    let hundredths = (48 + frac / 100) as u8;
    let tenths = (48 + (frac / 10) % 10) as u8;
    let thousandths = (48 + frac % 10) as u8;
    if frac % 10 != 0 {
        seq![hundredths, tenths, thousandths]
    } else if (frac / 10) % 10 != 0 {
        seq![hundredths, tenths]
    } else {
        seq![hundredths]
    }
}

/// Decimal rendering of a nonnegative fixed-point value counting
/// thousandths: the whole part, and the fraction only when it is nonzero.
pub open spec fn milli_digits(m: nat) -> Seq<u8> {
    if m % 1000 == 0 {
        dec_digits(m / 1000)
    } else {
        dec_digits(m / 1000).push(46u8) + frac_digits(m % 1000)
    }
}

/// Decimal rendering of a fixed-point value counting thousandths, with a
/// leading minus when negative.
pub open spec fn milli_decimal(v: int) -> Seq<u8> {
    if v < 0 {
        seq![45u8] + milli_digits((-v) as nat)
    } else {
        milli_digits(v as nat)
    }
}

/// Render a nonnegative integer in decimal.
pub fn u64_to_decimal(v: u64) -> (out: Vec<u8>)
    ensures
        out@ == dec_digits(v as nat),
    decreases v,
{
    if v < 10 {
        let mut out: Vec<u8> = Vec::new();
        out.push(48 + (v as u8));
        proof {
            assert(out@ =~= dec_digits(v as nat));
        }
        out
    } else {
        let mut out = u64_to_decimal(v / 10);
        out.push(48 + ((v % 10) as u8));
        out
    }
}

/// Render a nonnegative fixed-point milli value in decimal.
pub fn milli_u64_to_decimal(m: u64) -> (out: Vec<u8>)
    ensures
        out@ == milli_digits(m as nat),
{
    let mut out = u64_to_decimal(m / 1000);
    let frac = m % 1000;
    if frac != 0 {
        out.push(46);
        out.push(48 + ((frac / 100) as u8));
        if frac % 10 != 0 {
            out.push(48 + (((frac / 10) % 10) as u8));
            out.push(48 + ((frac % 10) as u8));
        } else if (frac / 10) % 10 != 0 {
            out.push(48 + (((frac / 10) % 10) as u8));
        }
        proof {
            assert(out@ =~= milli_digits(m as nat));
        }
    }
    out
}

/// Render a signed fixed-point milli value in decimal. The one value whose
/// magnitude does not fit its own type is left out.
pub fn milli_i64_to_decimal(v: i64) -> (out: Vec<u8>)
    requires
        v != i64::MIN,
    ensures
        out@ == milli_decimal(v as int),
{
    if v < 0 {
        let mut out: Vec<u8> = Vec::new();
        out.push(45);
        let mut digits = milli_u64_to_decimal((-v) as u64);
        out.append(&mut digits);
        proof {
            assert(out@ =~= milli_decimal(v as int));
        }
        out
    } else {
        milli_u64_to_decimal(v as u64)
    }
}

} // verus!
