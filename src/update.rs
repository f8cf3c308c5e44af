//! Deciding when to look for a newer release of the tool itself.
//!
//! A small record remembers the outcome of the last look. It is trusted only
//! when it was written by the version that is running now; it then says
//! whether an update is already known to exist, or how long ago the last look
//! was made.

use vstd::prelude::*;

use crate::clock::{Timestamp, NANOS_PER_SEC};
use crate::text::{contains_seq, contains_str, str_eq};

verus! {

/// How long the outcome of a look stays good: one day.
pub const DAY_SECS: u64 = 86400;

/// Whether a look for a newer release is due.
#[derive(Clone, Copy, Debug, PartialEq, Eq, Structural)]
pub enum NeedsCheck {
    /// Look now.
    Yes,
    /// Skip the look; there is nothing to report.
    No,
    /// Skip the look; an update is already known to be available.
    KnownOutdated,
}

/// The outcome of the last look for a newer release.
#[derive(Clone, Debug)]
pub struct UpdateCheck {
    /// Whether that look found a newer release.
    pub update_needed: bool,
    /// The version of the tool that made that look.
    pub checked_with: String,
    /// When that look was made.
    pub last_check: Timestamp,
}

/// What reading the record gave.
pub enum RecordRead {
    /// There is no record yet.
    Missing,
    /// A record exists but could not be read or decoded.
    Corrupt,
    /// The decoded record.
    Found(UpdateCheck),
}

/// The decision for a record, given the running version and the time now.
pub open spec fn decide(record: UpdateCheck, running: Seq<char>, now: Timestamp) -> NeedsCheck {
    if record.checked_with@ != running {
        NeedsCheck::Yes
    } else if record.update_needed {
        NeedsCheck::KnownOutdated
    } else if now.total_nanos() - record.last_check.total_nanos() > DAY_SECS as int
        * NANOS_PER_SEC as int {
        NeedsCheck::Yes
    } else {
        NeedsCheck::No
    }
}

/// The decision for what a read of the record gave: with no trustworthy
/// record a look is due.
pub open spec fn plan(read: RecordRead, running: Seq<char>, now: Timestamp) -> NeedsCheck {
    match read {
        RecordRead::Found(record) => decide(record, running, now),
        _ => NeedsCheck::Yes,
    }
}

/// A release location names the running version when that version occurs in
/// it anywhere, as a run of characters.
pub open spec fn is_current(location: Seq<char>, running: Seq<char>) -> bool {
    contains_seq(location, running)
}

impl UpdateCheck {
    /// Whether a look for a newer release is due, for the tool at version
    /// `running` at the instant `now`.
    pub fn remote_check_needed(&self, running: &str, now: &Timestamp) -> (r: NeedsCheck)
        ensures
            r == decide(*self, running@, *now),
    {
        // a record written by another version says nothing of this one
        if !str_eq(self.checked_with.as_str(), running) {
            return NeedsCheck::Yes;
        }
        // the answer is already known; it stays until the version changes
        if self.update_needed {
            return NeedsCheck::KnownOutdated;
        }
        if now.exceeds(&self.last_check, DAY_SECS) {
            NeedsCheck::Yes
        } else {
            NeedsCheck::No
        }
    }
}

/// The decision for what a read of the record gave, and whether the record
/// must be removed: a corrupt record is removed and a look is made as if
/// none existed.
pub fn self_need_update_check(read: &RecordRead, running: &str, now: &Timestamp) -> (r: (
    NeedsCheck,
    bool,
))
    ensures
        r.0 == plan(*read, running@, *now),
        r.1 == (read is Corrupt),
{
    match read {
        RecordRead::Missing => (NeedsCheck::Yes, false),
        RecordRead::Corrupt => (NeedsCheck::Yes, true),
        RecordRead::Found(record) => (record.remote_check_needed(running, now), false),
    }
}

/// Whether the tool at version `running` is behind the latest release, whose
/// download location is `location`: it is up to date exactly when its
/// version string occurs somewhere in the location.
pub fn update_needed(location: &str, running: &str) -> (r: bool)
    ensures
        r == !is_current(location@, running@),
{
    !contains_str(location, running)
}

/// The record to write after a look made at `now` by the tool at version
/// `running`: `None` where the look failed (nothing is written and nothing
/// reported), else a record saying whether `location`, the latest release,
/// is newer than `running`.
pub fn self_update_check_inner(location: Option<&str>, running: &str, now: &Timestamp) -> (r:
    Option<UpdateCheck>)
    ensures
        location is None ==> r is None,
        location matches Some(loc) ==> r matches Some(record) && record.update_needed
            == !is_current(loc@, running@) && record.checked_with@ == running@ && record.last_check
            == *now,
{
    match location {
        None => None,
        Some(loc) => Some(
            UpdateCheck {
                update_needed: update_needed(loc, running),
                checked_with: running.to_owned(),
                last_check: *now,
            },
        ),
    }
}

/// Whether to tell the user that an update is available, given the decision
/// and, where a look was made, the record it produced.
pub fn self_update_check(decision: NeedsCheck, probed: &Option<UpdateCheck>) -> (r: bool)
    ensures
        r == (decision is KnownOutdated || (decision is Yes && (probed matches Some(record)
            && record.update_needed))),
{
    match decision {
        NeedsCheck::KnownOutdated => true,
        NeedsCheck::No => false,
        NeedsCheck::Yes => match probed {
            Some(record) => record.update_needed,
            None => false,
        },
    }
}

/// The decision table. With a record written by the running version and no
/// known update, a look made less than a day ago needs no new look and one
/// made more than a day ago does; a known update is reported whenever the
/// look was made; a record written by another version always asks for a
/// look.
pub proof fn lemma_decision_table(record: UpdateCheck, running: Seq<char>, now: Timestamp)
    ensures
        record.checked_with@ == running && !record.update_needed && now.total_nanos()
            - record.last_check.total_nanos() <= DAY_SECS as int * NANOS_PER_SEC as int ==> decide(
            record,
            running,
            now,
        ) == NeedsCheck::No,
        record.checked_with@ == running && !record.update_needed && now.total_nanos()
            - record.last_check.total_nanos() > DAY_SECS as int * NANOS_PER_SEC as int ==> decide(
            record,
            running,
            now,
        ) == NeedsCheck::Yes,
        record.checked_with@ == running && record.update_needed ==> decide(record, running, now)
            == NeedsCheck::KnownOutdated,
        record.checked_with@ != running ==> decide(record, running, now) == NeedsCheck::Yes,
{
}

/// Without a record a look is due, whatever the version and the time.
pub proof fn lemma_missing_record(running: Seq<char>, now: Timestamp)
    ensures
        plan(RecordRead::Missing, running, now) == NeedsCheck::Yes,
{
}

} // verus!
