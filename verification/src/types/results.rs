use vstd::prelude::*;
use crate::text::{decimal, push_decimal};

verus! {

/// Outcome of one save operation: how many sensor points and audio records
/// were written, and the summary of what failed, if anything did.
#[derive(Debug)]
pub struct SaveResult {
    pub acc_saved: usize,
    pub audio_saved: usize,
    pub error: Option<String>,
}

impl SaveResult {
    /// A save that wrote `acc_saved` sensor points and `audio_saved` audio
    /// records without error.
    pub fn success(acc_saved: usize, audio_saved: usize) -> (r: Self)
        ensures
            r.acc_saved == acc_saved,
            r.audio_saved == audio_saved,
            r.error is None,
    {
        SaveResult { acc_saved, audio_saved, error: None }
    }

    /// A save that wrote nothing and failed with `error`.
    pub fn error(error: String) -> (r: Self)
        ensures
            r.acc_saved == 0,
            r.audio_saved == 0,
            r.error == Some(error),
    {
        SaveResult { acc_saved: 0, audio_saved: 0, error: Some(error) }
    }

    /// Whether the save finished without error.
    pub fn is_success(&self) -> (b: bool)
        ensures
            b == (self.error is None),
    {
        self.error.is_none()
    }
}

} // verus!

verus! {

/// Outcome of an export request: sessions written, sessions that failed, and
/// the line shown to the user.
#[derive(Debug)]
pub struct ExportResult {
    pub success_count: usize,
    pub error_count: usize,
    pub message: String,
}

/// The line that reports `count` exported sessions.
pub open spec fn exported_message(count: nat) -> Seq<char> {
    "Successfully exported "@ + decimal(count) + " sessions"@
}

impl ExportResult {
    pub fn new(success_count: usize, error_count: usize, message: String) -> (r: Self)
        ensures
            r == (ExportResult { success_count, error_count, message }),
    {
        ExportResult { success_count, error_count, message }
    }

    /// An export of `count` sessions in which nothing failed.
    pub fn success_only(count: usize) -> (r: Self)
        ensures
            r.success_count == count,
            r.error_count == 0,
            r.message@ == exported_message(count as nat),
    {
        let mut message = String::from_str("Successfully exported ");
        push_decimal(&mut message, count as u64);
        message.append(" sessions");
        ExportResult { success_count: count, error_count: 0, message }
    }

    /// An export that found nothing to write.
    pub fn no_data() -> (r: Self)
        ensures
            r.success_count == 0,
            r.error_count == 0,
            r.message@ == "No new sessions to export"@,
    {
        ExportResult {
            success_count: 0,
            error_count: 0,
            message: String::from_str("No new sessions to export"),
        }
    }
}

} // verus!
