use vstd::prelude::*;

use crate::text::same_text;

verus! {

/// An error that is returned when a received combined status is unknown;
/// it holds the text that was received.
#[derive(Clone, Debug, PartialEq)]
pub struct InvalidStatus(pub String);

/// Combined status for a specific ref.
#[derive(Clone, Copy, Debug, PartialEq, Eq, Structural)]
pub enum CombinedStatus {
    Success,
    Pending,
    Failure,
}

/// The status that a state text names, if it names one.
pub open spec fn status_of(value: Seq<char>) -> Option<CombinedStatus> {
    if value == "success"@ {
        Some(CombinedStatus::Success)
    } else if value == "pending"@ {
        Some(CombinedStatus::Pending)
    } else if value == "failure"@ || value == "error"@ {
        Some(CombinedStatus::Failure)
    } else {
        None
    }
}

impl CombinedStatus {
    /// Parses the `state` field of a combined-status reply. An unknown text is
    /// an error that carries the text, never a default status.
    pub fn try_from(value: &str) -> (r: Result<CombinedStatus, InvalidStatus>)
        ensures
            match r {
                Ok(s) => status_of(value@) == Some(s),
                Err(e) => status_of(value@).is_none() && e.0@ == value@,
            },
    {
        if same_text(value, "success") {
            Ok(CombinedStatus::Success)
        } else if same_text(value, "pending") {
            Ok(CombinedStatus::Pending)
        } else if same_text(value, "failure") || same_text(value, "error") {
            Ok(CombinedStatus::Failure)
        } else {
            Err(InvalidStatus(value.to_owned()))
        }
    }
}

} // verus!
