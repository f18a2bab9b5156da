//! What can end a synchronisation run early.

use vstd::prelude::*;
use vstd::string::*;
use crate::text::{decimal, decimal_digits};

verus! {

/// A fatal error of one run. A transient fetch failure is no such error: it
/// is retried where it happens, and an absent item is an ordinary outcome.
#[derive(Debug, Clone, Copy, PartialEq, Eq, Structural)]
pub enum SyncError {
    /// The body fetched for comic `num` does not have the shape of an item.
    MalformedItem { num: usize },
    /// Comic `num` kept failing until the retry allowance was used up.
    RetriesExhausted { num: usize },
    /// The newest item of the feed could not be had.
    HeadResolution,
    /// The index refused a settings change.
    IndexConfig,
    /// The index refused the batch.
    IndexWrite,
    /// A fetch task ended without an outcome.
    TaskAborted,
    /// An event arrived that the current state does not wait for.
    OutOfTurn,
}

impl SyncError {
    /// The text of the error, as a sequence of characters.
    pub open spec fn message_spec(self) -> Seq<char> {
        match self {
            SyncError::MalformedItem { num } => "comic num "@ + decimal_digits(num as nat),
            SyncError::RetriesExhausted { num } => "retries exhausted for comic num "@
                + decimal_digits(num as nat),
            SyncError::HeadResolution => "cannot determine the latest comic"@,
            SyncError::IndexConfig => "cannot configure the index"@,
            SyncError::IndexWrite => "cannot write to the index"@,
            SyncError::TaskAborted => "a fetch task was aborted"@,
            SyncError::OutOfTurn => "unexpected event"@,
        }
    }

    /// The text of the error.
    pub fn message(&self) -> (text: String)
        ensures
            text@ == self.message_spec(),
    {
        match self {
            SyncError::MalformedItem { num } => {
                String::from_str("comic num ").concat(decimal(*num).as_str())
            },
            SyncError::RetriesExhausted { num } => {
                String::from_str("retries exhausted for comic num ").concat(
                    decimal(*num).as_str(),
                )
            },
            SyncError::HeadResolution => String::from_str("cannot determine the latest comic"),
            SyncError::IndexConfig => String::from_str("cannot configure the index"),
            SyncError::IndexWrite => String::from_str("cannot write to the index"),
            SyncError::TaskAborted => String::from_str("a fetch task was aborted"),
            SyncError::OutOfTurn => String::from_str("unexpected event"),
        }
    }
}

} // verus!
