//! Times as whole microseconds, read from the decimal and clock notations
//! that the probing and encoding tools print, and the progress that follows
//! from them.
//!
//! A decimal is a run of digits, optionally followed by `.` and more digits,
//! with at least one digit in all: no sign, no exponent. Digits after the
//! sixth fractional one are dropped. Values too large for 64 bits are cut
//! down to `u64::MAX`.

use vstd::prelude::*;
use crate::text::{
    all_digits, chars_of, digit_of, digit_value, digits_value, read_digits, saturate, skip_leading,
    split, split_on, starts_with, strip_leading, tail,
};

verus! {

/// Microseconds in a second.
pub const MICROS_PER_SECOND: u64 = 1_000_000;

/// Progress is counted in hundredths of a percent: this is 100 %.
pub const PROGRESS_COMPLETE: u32 = 10_000;

/// The highest progress that a running conversion reports: 99 %.
pub const PROGRESS_CEILING: u32 = 9_900;

/// The digit at index `i` of `f`, or 0 where `f` is shorter.
pub open spec fn digit_at(f: Seq<char>, i: int) -> nat {
    if i < f.len() {
        digit_of(f[i])
    } else {
        0
    }
}

/// The microseconds that the fractional digits `f` stand for.
pub open spec fn fraction_micros(f: Seq<char>) -> nat {
    digit_at(f, 0) * 100_000 + digit_at(f, 1) * 10_000 + digit_at(f, 2) * 1_000 + digit_at(f, 3)
        * 100 + digit_at(f, 4) * 10 + digit_at(f, 5)
}

/// The value of the decimal `s` in millionths, or `None` where `s` is no decimal.
pub open spec fn decimal_micros(s: Seq<char>) -> Option<nat> {
    let parts = split_on(s, '.');
    let whole = parts[0];
    let fraction = if parts.len() == 2 {
        parts[1]
    } else {
        Seq::<char>::empty()
    };
    if parts.len() <= 2 && whole.len() + fraction.len() > 0 && all_digits(whole) && all_digits(
        fraction,
    ) {
        Some(digits_value(whole) * 1_000_000 + fraction_micros(fraction))
    } else {
        None
    }
}

/// The value of one field of a clock time: that of the decimal, and 0 for a
/// malformed field.
pub open spec fn field_micros(s: Seq<char>) -> nat {
    match decimal_micros(s) {
        Some(v) => v,
        None => 0,
    }
}

/// The microseconds that the clock time `HH:MM:SS.frac` stands for. A text
/// that does not consist of exactly three fields stands for 0.
pub open spec fn clock_micros(s: Seq<char>) -> nat {
    let parts = split_on(s, ':');
    if parts.len() == 3 {
        field_micros(parts[0]) * 3600 + field_micros(parts[1]) * 60 + field_micros(parts[2])
    } else {
        0
    }
}

/// The key under which the encoder reports the time it has written out.
pub open spec fn out_time_key() -> Seq<char> {
    "out_time="@
}

/// The time that a line of the encoder's status stream reports: `None` for a
/// line under another key.
pub open spec fn timestamp_of_line(line: Seq<char>) -> Option<nat> {
    if out_time_key().is_prefix_of(line) {
        Some(clock_micros(strip_leading(line, out_time_key())))
    } else {
        None
    }
}

/// Progress in hundredths of a percent after `elapsed` of `duration`: the
/// share of the duration, rounded down and held at 99 %; 0 where the
/// duration is unknown.
pub open spec fn progress_of(elapsed: nat, duration: nat) -> nat {
    if duration > 0 {
        let share = elapsed * 10_000 / duration;
        if share > 9_900 {
            9_900
        } else {
            share
        }
    } else {
        0
    }
}

/// Progress is clamped. Where the duration is known, the progress after
/// `elapsed` is the lesser of 99 % and the share of the duration, rounded
/// down to a hundredth of a percent: it is never negative and never reaches
/// 100 %, however far `elapsed` runs past the duration.
pub proof fn progress_is_clamped(elapsed: nat, duration: nat)
    requires
        duration > 0,
    ensures
        progress_of(elapsed, duration) == vstd::math::min(
            PROGRESS_CEILING as int,
            (elapsed * 10_000 / duration) as int,
        ),
        0 <= progress_of(elapsed, duration) <= PROGRESS_CEILING,
        progress_of(elapsed, duration) < PROGRESS_COMPLETE,
{
    assert(elapsed * 10_000 / duration >= 0) by (nonlinear_arith)
        requires
            duration > 0,
            elapsed >= 0,
    ;
}

/// A split text has at least one piece.
pub proof fn split_on_nonempty(s: Seq<char>, sep: char)
    ensures
        split_on(s, sep).len() >= 1,
    decreases s.len(),
{
    if s.len() > 0 {
        split_on_nonempty(s.drop_last(), sep);
    }
}

fn digit_or_zero(f: &Vec<char>, i: usize) -> (r: u64)
    requires
        all_digits(f@),
    ensures
        r == digit_at(f@, i as int),
        r <= 9,
{
    if i < f.len() {
        match digit_value(f[i]) {
            Some(d) => d as u64,
            None => 0,
        }
    } else {
        0
    }
}

fn fraction_value(f: &Vec<char>) -> (r: u64)
    requires
        all_digits(f@),
    ensures
        r == fraction_micros(f@),
        r <= 999_999,
{
    let d0 = digit_or_zero(f, 0);
    let d1 = digit_or_zero(f, 1);
    let d2 = digit_or_zero(f, 2);
    let d3 = digit_or_zero(f, 3);
    let d4 = digit_or_zero(f, 4);
    let d5 = digit_or_zero(f, 5);
    d0 * 100_000 + d1 * 10_000 + d2 * 1_000 + d3 * 100 + d4 * 10 + d5
}

/// Reads a decimal as millionths.
pub fn parse_decimal(s: &Vec<char>) -> (r: Option<u64>)
    ensures
        r == match decimal_micros(s@) {
            Some(v) => Some(saturate(v)),
            None => None,
        },
{
    let parts = split(s, '.');
    proof {
        split_on_nonempty(s@, '.');
    }
    if parts.len() > 2 {
        return None;
    }
    let empty: Vec<char> = Vec::new();
    let whole = &parts[0];
    let fraction = if parts.len() == 2 {
        &parts[1]
    } else {
        &empty
    };
    assert(whole@ == split_on(s@, '.')[0]);
    assert(parts.len() == 2 ==> fraction@ == split_on(s@, '.')[1]);
    assert(parts.len() != 2 ==> fraction@ =~= Seq::<char>::empty());
    if whole.len() == 0 && fraction.len() == 0 {
        return None;
    }
    match read_digits(whole) {
        None => None,
        Some((units, exact)) => {
            match read_digits(fraction) {
                None => None,
                Some(_) => {
                    let micros = fraction_value(fraction);
                    if exact && units <= (u64::MAX - micros) / MICROS_PER_SECOND {
                        Some(units * MICROS_PER_SECOND + micros)
                    } else {
                        Some(u64::MAX)
                    }
                },
            }
        },
    }
}

fn field_value(s: &Vec<char>) -> (r: u64)
    ensures
        r == saturate(field_micros(s@)),
{
    match parse_decimal(s) {
        Some(v) => v,
        None => 0,
    }
}

/// Reads a text of seconds, such as `120.5`, as microseconds; 0 where the
/// text is no decimal.
pub fn parse_seconds(s: &str) -> (r: u64)
    ensures
        r == saturate(field_micros(s@)),
{
    let chars = chars_of(s);
    field_value(&chars)
}

fn clock_value(s: &Vec<char>) -> (r: u64)
    ensures
        r == saturate(clock_micros(s@)),
{
    let parts = split(s, ':');
    if parts.len() == 3 {
        let hours = field_value(&parts[0]);
        let minutes = field_value(&parts[1]);
        let seconds = field_value(&parts[2]);
        let total: u128 = hours as u128 * 3600 + minutes as u128 * 60 + seconds as u128;
        if total > u64::MAX as u128 {
            u64::MAX
        } else {
            total as u64
        }
    } else {
        0
    }
}

/// Reads a clock time such as `00:01:23.45` as microseconds.
pub fn parse_clock_time(time_str: &str) -> (micros: u64)
    ensures
        micros == saturate(clock_micros(time_str@)),
{
    let chars = chars_of(time_str);
    clock_value(&chars)
}

/// Reads one line of the encoder's status stream. A line that begins with
/// `out_time=` gives the time after the key, in microseconds; any other
/// line gives `None`.
pub fn parse_timestamp(line: &str) -> (r: Option<u64>)
    ensures
        r == match timestamp_of_line(line@) {
            Some(t) => Some(saturate(t)),
            None => None,
        },
{
    let chars = chars_of(line);
    let key = chars_of("out_time=");
    if starts_with(&chars, &key) {
        let start = skip_leading(&chars, &key);
        let rest = tail(&chars, start);
        Some(clock_value(&rest))
    } else {
        None
    }
}

/// The progress of a running conversion, in hundredths of a percent.
pub fn progress_percent(elapsed: u64, duration: u64) -> (p: u32)
    ensures
        p == progress_of(elapsed as nat, duration as nat),
        p <= PROGRESS_CEILING,
        p < PROGRESS_COMPLETE,
{
    if duration > 0 {
        let share: u128 = elapsed as u128 * 10_000 / duration as u128;
        if share > 9_900 {
            PROGRESS_CEILING
        } else {
            share as u32
        }
    } else {
        0
    }
}

} // verus!
