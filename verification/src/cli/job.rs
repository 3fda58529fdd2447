//! The periodic jobs by name.

use vstd::prelude::*;

verus! {

/// A periodic job.
#[derive(Clone, Copy, Debug, PartialEq, Eq, Structural)]
pub enum JobId {
    ProcessEmail,
    ResearchMeetingAttendees,
    GenerateSessionTitles,
    DailyAgenda,
}

} // verus!
