//! Human-readable formatting of sizes and durations.

use crate::text::{decimal, digit_char, digit_of, push_char, push_decimal, push_str};
use vstd::prelude::*;

verus! {

broadcast use vstd::string::group_string_axioms;

/// 2^53: integers below it are exactly representable as `f64`.
pub const F64_EXACT_LIMIT: u64 = 0x20_0000_0000_0000;

/// The spacing of `f64` values around `b`: 1 below 2^53, doubling with
/// every further bit of `b`.
pub open spec fn ulp_of(b: nat) -> nat
    decreases b,
{
    if b < F64_EXACT_LIMIT {
        1
    } else {
        2 * ulp_of(b / 2)
    }
}

/// `num / den` rounded to the nearest integer, ties to the even one.
pub open spec fn round_half_even(num: nat, den: nat) -> nat {
    let q = num / den;
    let r = num % den;
    if 2 * r > den || (2 * r == den && q % 2 == 1) {
        q + 1
    } else {
        q
    }
}

/// The value of `b as f64`: `b` rounded to the nearest `f64`, ties to even.
pub open spec fn f64_value(b: nat) -> nat {
    round_half_even(b, ulp_of(b)) * ulp_of(b)
}

/// `q` hundredths written with two decimals, e.g. `1.50`.
pub open spec fn fixed2(q: nat) -> Seq<char> {
    decimal(q / 100) + "."@ + seq![digit_char((q / 10) % 10), digit_char(q % 10)]
}

/// `q` tenths written with one decimal, e.g. `1.5`.
pub open spec fn fixed1(q: nat) -> Seq<char> {
    decimal(q / 10) + "."@ + seq![digit_char(q % 10)]
}

/// 1024 bytes.
pub const KB: u64 = 1024;
/// 1024 KB.
pub const MB: u64 = 1048576;
/// 1024 MB.
pub const GB: u64 = 1073741824;
/// 1024 GB.
pub const TB: u64 = 1099511627776;

/// The text of a byte count, as `{:.1}`/`{:.2}` print the quotient of the
/// `f64` division by the unit: whole bytes below 1 KB, one decimal for KB
/// and MB, two for GB and TB.
pub open spec fn format_bytes_spec(b: u64) -> Seq<char> {
    if b == 0 {
        "0 bytes"@
    } else if b >= TB {
        fixed2(round_half_even(f64_value(b as nat) * 100, TB as nat)) + " TB"@
    } else if b >= GB {
        fixed2(round_half_even(b as nat * 100, GB as nat)) + " GB"@
    } else if b >= MB {
        fixed1(round_half_even(b as nat * 10, MB as nat)) + " MB"@
    } else if b >= KB {
        fixed1(round_half_even(b as nat * 10, KB as nat)) + " KB"@
    } else {
        decimal(b as nat) + " bytes"@
    }
}

fn round_half_even_u128(num: u128, den: u128) -> (r: u128)
    requires
        den > 0,
        num / den < u128::MAX,
    ensures
        r == round_half_even(num as nat, den as nat),
        r as int <= num as int / den as int + 1,
{
    let q = num / den;
    let rem = num % den;
    assert(rem < den);
    if rem > den - rem || (rem == den - rem && q % 2 == 1) {
        q + 1
    } else {
        q
    }
}

/// The value of `b as f64`, exactly.
fn f64_value_of(b: u64) -> (v: u128)
    ensures
        v == f64_value(b as nat),
        v <= 0x4_0000_0000_0000_0000,
{
    let mut x: u64 = b;
    let mut m: u64 = 1;
    while x >= F64_EXACT_LIMIT
        invariant
            m >= 1,
            x as int == b as int / m as int,
            ulp_of(b as nat) == m as nat * ulp_of(x as nat),
            m <= 4096,
        decreases x,
    {
        assert(ulp_of(x as nat) == 2 * ulp_of((x / 2) as nat));
        assert(m as nat * ulp_of(x as nat) == (2 * m) as nat * ulp_of((x / 2) as nat)) by (nonlinear_arith)
            requires
                ulp_of(x as nat) == 2 * ulp_of((x / 2) as nat),
        ;
        assert(m < 2048) by (nonlinear_arith)
            requires
                m >= 1,
                x as int == b as int / m as int,
                x >= F64_EXACT_LIMIT,
                b <= u64::MAX,
        ;
        proof {
            vstd::arithmetic::div_mod::lemma_div_denominator(b as int, m as int, 2);
        }
        x = x / 2;
        m = m * 2;
    }
    assert(ulp_of(x as nat) == 1);
    assert(ulp_of(b as nat) == m as nat) by (nonlinear_arith)
        requires
            ulp_of(b as nat) == m as nat * ulp_of(x as nat),
            ulp_of(x as nat) == 1,
    ;
    let rounded = round_half_even_u128(b as u128, m as u128);
    assert(rounded <= 0x20_0000_0000_0001);
    assert(rounded as int * m as int <= 0x4_0000_0000_0000_0000) by (nonlinear_arith)
        requires
            rounded <= 0x20_0000_0000_0001,
            m <= 4096,
    ;
    let v = rounded * (m as u128);
    assert(v <= 0x4_0000_0000_0000_0000) by (nonlinear_arith)
        requires
            rounded <= 0x20_0000_0000_0001,
            m <= 4096,
            v == rounded * m,
    ;
    v
}

/// Appends `q` hundredths with two decimals.
fn push_fixed2(s: &mut String, q: u64)
    ensures
        final(s)@ == old(s)@ + fixed2(q as nat),
{
    push_decimal(s, q / 100);
    push_char(s, '.');
    push_char(s, digit_of((q / 10) % 10));
    push_char(s, digit_of(q % 10));
    proof {
        reveal_strlit(".");
        assert(old(s)@ + decimal((q / 100) as nat) + seq!['.'] + seq![digit_char(((q / 10) % 10) as nat)]
            + seq![digit_char((q % 10) as nat)] =~= old(s)@ + fixed2(q as nat));
    }
}

/// Appends `q` tenths with one decimal.
fn push_fixed1(s: &mut String, q: u64)
    ensures
        final(s)@ == old(s)@ + fixed1(q as nat),
{
    push_decimal(s, q / 10);
    push_char(s, '.');
    push_char(s, digit_of(q % 10));
    proof {
        reveal_strlit(".");
        assert(old(s)@ + decimal((q / 10) as nat) + seq!['.'] + seq![digit_char((q % 10) as nat)]
            =~= old(s)@ + fixed1(q as nat));
    }
}

/// Formats a byte count in human-readable form: `0 bytes`, `512 bytes`,
/// `1.5 KB`, `1.0 MB`, `1.00 GB`, `1.00 TB`.
pub fn format_bytes(bytes: u64) -> (s: String)
    ensures
        s@ == format_bytes_spec(bytes),
{
    let mut s = String::new();
    if bytes == 0 {
        push_str(&mut s, "0 bytes");
    } else if bytes >= TB {
        let v = f64_value_of(bytes);
        let q = round_half_even_u128(v * 100, TB as u128);
        assert(q <= 0x10_0000_0000) by (nonlinear_arith)
            requires
                v <= 0x4_0000_0000_0000_0000,
                q as int <= (v as int * 100) / (TB as int) + 1,
        ;
        push_fixed2(&mut s, q as u64);
        push_str(&mut s, " TB");
    } else if bytes >= GB {
        let q = round_half_even_u128(bytes as u128 * 100, GB as u128);
        assert(q <= 0x1_0000_0000) by (nonlinear_arith)
            requires
                bytes < TB,
                q as int <= (bytes as int * 100) / (GB as int) + 1,
        ;
        push_fixed2(&mut s, q as u64);
        push_str(&mut s, " GB");
    } else if bytes >= MB {
        let q = round_half_even_u128(bytes as u128 * 10, MB as u128);
        assert(q <= 0x1_0000_0000) by (nonlinear_arith)
            requires
                bytes < GB,
                q as int <= (bytes as int * 10) / (MB as int) + 1,
        ;
        push_fixed1(&mut s, q as u64);
        push_str(&mut s, " MB");
    } else if bytes >= KB {
        let q = round_half_even_u128(bytes as u128 * 10, KB as u128);
        assert(q <= 0x1_0000_0000) by (nonlinear_arith)
            requires
                bytes < MB,
                q as int <= (bytes as int * 10) / (KB as int) + 1,
        ;
        push_fixed1(&mut s, q as u64);
        push_str(&mut s, " KB");
    } else {
        push_decimal(&mut s, bytes);
        push_str(&mut s, " bytes");
    }
    s
}

/// A signed integer in decimal, with a leading `-` when negative.
pub open spec fn signed_decimal(n: int) -> Seq<char> {
    if n < 0 {
        "-"@ + decimal((-n) as nat)
    } else {
        decimal(n as nat)
    }
}

/// The text of a duration of `secs` seconds: seconds below a minute,
/// minutes and seconds below an hour, hours and minutes below a day, days
/// and hours beyond.
pub open spec fn duration_text(secs: i64) -> Seq<char> {
    if secs < 60 {
        signed_decimal(secs as int) + "s"@
    } else if secs < 3600 {
        decimal((secs / 60) as nat) + "m "@ + decimal((secs % 60) as nat) + "s"@
    } else if secs < 86400 {
        decimal((secs / 3600) as nat) + "h "@ + decimal(((secs % 3600) / 60) as nat) + "m"@
    } else {
        decimal((secs / 86400) as nat) + "d "@ + decimal(((secs % 86400) / 3600) as nat) + "h"@
    }
}

/// Formats a number of seconds: `30s`, `1m 30s`, `1h 1m`, `1d 1h`.
pub fn format_duration_secs(secs: i64) -> (s: String)
    ensures
        s@ == duration_text(secs),
{
    let mut s = String::new();
    if secs < 60 {
        if secs < 0 {
            push_str(&mut s, "-");
            let magnitude: u64 = if secs == i64::MIN {
                9223372036854775808
            } else {
                (-secs) as u64
            };
            push_decimal(&mut s, magnitude);
        } else {
            push_decimal(&mut s, secs as u64);
        }
        push_str(&mut s, "s");
    } else if secs < 3600 {
        push_decimal(&mut s, (secs / 60) as u64);
        push_str(&mut s, "m ");
        push_decimal(&mut s, (secs % 60) as u64);
        push_str(&mut s, "s");
    } else if secs < 86400 {
        push_decimal(&mut s, (secs / 3600) as u64);
        push_str(&mut s, "h ");
        push_decimal(&mut s, ((secs % 3600) / 60) as u64);
        push_str(&mut s, "m");
    } else {
        push_decimal(&mut s, (secs / 86400) as u64);
        push_str(&mut s, "d ");
        push_decimal(&mut s, ((secs % 86400) / 3600) as u64);
        push_str(&mut s, "h");
    }
    s
}

/// A signed span of time from the chrono crate, opaque to the proofs.
#[verifier::external_type_specification]
#[verifier::external_body]
pub struct ExTimeDelta(chrono::TimeDelta);

/// The whole seconds of a chrono duration, as `TimeDelta::num_seconds`
/// returns them.
pub uninterp spec fn delta_whole_seconds(d: chrono::TimeDelta) -> i64;

/// `chrono::TimeDelta::num_seconds`: the total number of whole seconds,
/// named `delta_whole_seconds(d)`.
#[verifier::external_body]
fn num_seconds(d: &chrono::TimeDelta) -> (n: i64)
    ensures
        n == delta_whole_seconds(*d),
{
    d.num_seconds()
}

/// Formats a duration in human-readable form by its whole seconds.
pub fn format_duration(duration: chrono::TimeDelta) -> (s: String)
    ensures
        s@ == duration_text(delta_whole_seconds(duration)),
{
    format_duration_secs(num_seconds(&duration))
}

} // verus!
