//! The time of day of a timestamp.

use vstd::prelude::*;
use crate::text::{fixed_digits, push_fixed_digits, push_signed_decimal, signed_decimal};

verus! {

/// The time of day `HH:MM:SS.mmm` in UTC of a timestamp in milliseconds
/// since the epoch; for a timestamp before the epoch, a notice that names
/// it.
pub open spec fn timestamp_text(timestamp_ms: int) -> Seq<char> {
    if timestamp_ms < 0 {
        "Invalid timestamp: "@ + signed_decimal(timestamp_ms)
    } else {
        let seconds = timestamp_ms / 1000;
        fixed_digits(((seconds / 3600) % 24) as nat, 2) + ":"@ + fixed_digits(
            ((seconds / 60) % 60) as nat,
            2,
        ) + ":"@ + fixed_digits((seconds % 60) as nat, 2) + "."@ + fixed_digits(
            (timestamp_ms % 1000) as nat,
            3,
        )
    }
}

/// Writes a timestamp as its time of day.
pub fn format_timestamp(timestamp_ms: i64) -> (text: String)
    ensures
        text@ == timestamp_text(timestamp_ms as int),
{
    if timestamp_ms < 0 {
        let mut text = String::from_str("Invalid timestamp: ");
        push_signed_decimal(&mut text, timestamp_ms);
        return text;
    }
    let total: u64 = timestamp_ms as u64;
    let seconds = total / 1000;
    let mut text = String::new();
    push_fixed_digits(&mut text, (seconds / 3600) % 24, 2);
    text.append(":");
    push_fixed_digits(&mut text, (seconds / 60) % 60, 2);
    text.append(":");
    push_fixed_digits(&mut text, seconds % 60, 2);
    text.append(".");
    push_fixed_digits(&mut text, total % 1000, 3);
    assert(text@ =~= timestamp_text(timestamp_ms as int));
    text
}

} // verus!
