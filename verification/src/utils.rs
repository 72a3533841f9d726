//! Durations as whole milliseconds, and numbers as decimal text.

use core::time::Duration;
use vstd::prelude::*;
use vstd::string::StringExecFns;

verus! {

/// The whole seconds of a duration: what `Duration::as_secs` returns.
pub uninterp spec fn duration_secs(duration: Duration) -> u64;

/// The part of a duration below one second, in nanoseconds: what
/// `Duration::subsec_nanos` returns.
pub uninterp spec fn duration_subsec_nanos(duration: Duration) -> u32;

/// `Duration::as_secs` gives the whole seconds of the duration.
pub assume_specification[ Duration::as_secs ](duration: &Duration) -> (secs: u64)
    ensures
        secs == duration_secs(*duration),
;

/// `Duration::subsec_nanos` gives the rest below one second, which the
/// standard library keeps under a thousand million nanoseconds.
pub assume_specification[ Duration::subsec_nanos ](duration: &Duration) -> (nanos: u32)
    ensures
        nanos == duration_subsec_nanos(*duration),
        nanos < 1_000_000_000,
;

/// `Duration::from_millis` makes the duration of that many milliseconds:
/// the whole thousands are its seconds, and the rest is below one second.
pub assume_specification[ Duration::from_millis ](millis: u64) -> (duration: Duration)
    ensures
        duration_secs(duration) == millis / 1000,
        duration_subsec_nanos(duration) == (millis % 1000) * 1_000_000,
;

/// `Duration` is `Copy`: its `clone` gives the same duration.
pub assume_specification[ <Duration as Clone>::clone ](duration: &Duration) -> (copy: Duration)
    ensures
        copy == *duration,
;

/// The whole milliseconds in a duration.
pub open spec fn millis_of(duration: Duration) -> nat {
    (duration_secs(duration) * 1000 + duration_subsec_nanos(duration) / 1_000_000) as nat
}

/// The whole milliseconds in a duration, whatever its length.
pub fn duration_millis(duration: Duration) -> (millis: u128)
    ensures
        millis == millis_of(duration),
{
    let seconds: u128 = duration.as_secs() as u128;
    let nanos: u128 = duration.subsec_nanos() as u128;
    seconds * 1_000 + nanos / 1_000_000
}

/// The whole milliseconds in a duration, where they fit in 64 bits, and
/// nothing where they do not.
pub fn checked_duration_to_millis(duration: Duration) -> (millis: Option<u64>)
    ensures
        millis == if millis_of(duration) <= u64::MAX {
            Some(millis_of(duration) as u64)
        } else {
            None
        },
{
    let wide = duration_millis(duration);
    if wide <= u64::MAX as u128 {
        Some(wide as u64)
    } else {
        None
    }
}

/// The whole milliseconds in a duration that is short enough for them to
/// fit in 64 bits.
pub fn duration_to_millis(duration: Duration) -> (millis: u64)
    requires
        millis_of(duration) <= u64::MAX,
    ensures
        millis == millis_of(duration),
{
    let seconds: u64 = duration.as_secs();
    let nanos: u64 = duration.subsec_nanos() as u64;
    let millis: u64 = (seconds * 1_000) + (nanos / 1_000_000);
    millis
}

/// The character of one decimal digit.
pub open spec fn digit(value: nat) -> char {
    if value == 0 {
        '0'
    } else if value == 1 {
        '1'
    } else if value == 2 {
        '2'
    } else if value == 3 {
        '3'
    } else if value == 4 {
        '4'
    } else if value == 5 {
        '5'
    } else if value == 6 {
        '6'
    } else if value == 7 {
        '7'
    } else if value == 8 {
        '8'
    } else {
        '9'
    }
}

/// A number in decimal, without sign and without leading zeros.
pub open spec fn decimal(value: nat) -> Seq<char>
    decreases value,
{
    if value < 10 {
        seq![digit(value)]
    } else {
        decimal(value / 10).push(digit(value % 10))
    }
}

/// One decimal digit as text.
fn digit_text(value: u128) -> (text: &'static str)
    requires
        value < 10,
    ensures
        text@ == seq![digit(value as nat)],
{
    proof {
        reveal_strlit("0");
        reveal_strlit("1");
        reveal_strlit("2");
        reveal_strlit("3");
        reveal_strlit("4");
        reveal_strlit("5");
        reveal_strlit("6");
        reveal_strlit("7");
        reveal_strlit("8");
        reveal_strlit("9");
    }
    let text = if value == 0 {
        "0"
    } else if value == 1 {
        "1"
    } else if value == 2 {
        "2"
    } else if value == 3 {
        "3"
    } else if value == 4 {
        "4"
    } else if value == 5 {
        "5"
    } else if value == 6 {
        "6"
    } else if value == 7 {
        "7"
    } else if value == 8 {
        "8"
    } else {
        "9"
    };
    assert(text@ =~= seq![digit(value as nat)]);
    text
}

/// Writes a number in decimal behind what `text` holds.
fn push_decimal(text: &mut String, value: u128)
    ensures
        final(text)@ == old(text)@ + decimal(value as nat),
    decreases value,
{
    if value >= 10 {
        push_decimal(text, value / 10);
    }
    text.append(digit_text(value % 10));
    assert(text@ =~= old(text)@ + decimal(value as nat));
}

/// A number in decimal.
pub fn decimal_string(value: u128) -> (text: String)
    ensures
        text@ == decimal(value as nat),
{
    let mut text = String::new();
    push_decimal(&mut text, value);
    assert(text@ =~= decimal(value as nat));
    text
}

} // verus!
