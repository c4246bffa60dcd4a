use vstd::prelude::*;
use crate::utils::millis_to_mins_secs::{millis_to_mins_secs, mins_secs};
use crate::utils::text::{decimal, push_decimal, push_two_digits, two_digits};

verus! {

/// A duration as it is shown: the minutes in decimal, a colon, and the
/// seconds with two digits.
pub open spec fn time_text(millis: nat) -> Seq<char> {
    decimal(mins_secs(millis).0) + seq![':'] + two_digits(mins_secs(millis).1)
}

/// Renders a duration in milliseconds as minutes and seconds, `2:05` for
/// 125000.
pub fn format_time(millis: u64) -> (s: String)
    ensures
        s@ == time_text(millis as nat),
{
    let (minutes, seconds) = millis_to_mins_secs(millis);
    let mut s = String::new();
    push_decimal(&mut s, minutes);
    s.push(':');
    push_two_digits(&mut s, seconds);
    proof {
        assert(s@ =~= time_text(millis as nat));
    }
    s
}

} // verus!
