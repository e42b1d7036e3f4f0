//! Spoken answers of the time tools.
//!
//! Reading the clock and formatting it (`%I:%M %p`) depend on the local
//! time and stay outside the library; here stands what is said about it.
use vstd::prelude::*;
use crate::text::{decimal_chars, push_decimal, push_str, string_from_chars, string_of, chars_of};

verus! {

/// Index of the first character of `s` that is not `0`.
pub open spec fn leading_zeros_end(s: Seq<char>, i: int) -> int
    decreases s.len() - i,
{
    if i < s.len() && s[i] == '0' {
        leading_zeros_end(s, i + 1)
    } else {
        i
    }
}

/// `s` without its leading `0` characters (`str::trim_start_matches('0')`).
pub open spec fn strip_leading_zeros(s: Seq<char>) -> Seq<char> {
    s.subrange(leading_zeros_end(s, 0), s.len() as int)
}

/// A formatted clock time without the leading zero of the hour.
pub fn strip_hour_zero(time: &str) -> (r: String)
    ensures
        r@ == strip_leading_zeros(time@),
{
    let cs = chars_of(time);
    let mut i: usize = 0;
    while i < cs.len() && cs[i] == '0'
        invariant
            i <= cs@.len(),
            cs@ == time@,
            leading_zeros_end(cs@, i as int) == leading_zeros_end(cs@, 0),
        decreases cs@.len() - i,
    {
        i += 1;
    }
    string_from_chars(vstd::slice::slice_subrange(cs.as_slice(), i, cs.len()))
}

/// What `get_time` says when its answer goes straight to speech.
pub fn time_answer(time: &str) -> (r: String)
    ensures
        r@ == "It's "@ + time@,
{
    let mut s = string_of("It's ");
    push_str(&mut s, time);
    s
}

/// What `calculate_future_time` says about the time `hours` and `minutes`
/// from now: both parts when both are positive, one when only it is, and
/// nothing when neither is.
pub fn future_time_answer(hours: i64, minutes: i64, time: &str) -> (r: String)
    ensures
        hours > 0 && minutes > 0 ==> r@ == "In "@ + decimal_chars(hours as nat) + " hours and "@
            + decimal_chars(minutes as nat) + " minutes, it will be "@ + time@,
        hours > 0 && minutes <= 0 ==> r@ == "In "@ + decimal_chars(hours as nat) + " hours, it will be "@
            + time@,
        hours <= 0 && minutes > 0 ==> r@ == "In "@ + decimal_chars(minutes as nat)
            + " minutes, it will be "@ + time@,
        hours <= 0 && minutes <= 0 ==> r@.len() == 0,
{
    if hours > 0 && minutes > 0 {
        let mut s = string_of("In ");
        push_decimal(&mut s, hours as u64);
        push_str(&mut s, " hours and ");
        push_decimal(&mut s, minutes as u64);
        push_str(&mut s, " minutes, it will be ");
        push_str(&mut s, time);
        s
    } else if hours > 0 {
        let mut s = string_of("In ");
        push_decimal(&mut s, hours as u64);
        push_str(&mut s, " hours, it will be ");
        push_str(&mut s, time);
        s
    } else if minutes > 0 {
        let mut s = string_of("In ");
        push_decimal(&mut s, minutes as u64);
        push_str(&mut s, " minutes, it will be ");
        push_str(&mut s, time);
        s
    } else {
        String::new()
    }
}

} // verus!
