//! What the calendar tools answer, from the formatted clock and date.
//!
//! Reading the local clock and formatting it stay outside the library.
use vstd::prelude::*;
use crate::llm::tools::ToolResult;
use crate::llm::tools::quick_actions::{strip_hour_zero, strip_leading_zeros};
use crate::text::{push_str, string_of};

verus! {

/// The answer of `get_current_time` for the clock formatted as
/// `%I:%M %p`: the time without the leading zero of the hour.
pub fn current_time_response(time: &str) -> (r: ToolResult)
    ensures
        r matches ToolResult::Response(m) && m@ == "Current time: "@ + strip_leading_zeros(time@),
{
    let t = strip_hour_zero(time);
    let mut m = string_of("Current time: ");
    push_str(&mut m, t.as_str());
    ToolResult::Response(m)
}

/// The answer of `get_current_date` for the date formatted as
/// `%A, %B %d, %Y`.
pub fn current_date_response(date: &str) -> (r: ToolResult)
    ensures
        r matches ToolResult::Response(m) && m@ == "Current date: "@ + date@,
{
    let mut m = string_of("Current date: ");
    push_str(&mut m, date);
    ToolResult::Response(m)
}

} // verus!
