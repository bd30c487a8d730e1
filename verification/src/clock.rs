//! The time of day, as the store writes it into a row.

use vstd::prelude::*;

verus! {

/// `std::time::SystemTime::now`, turned into a `chrono::DateTime<Utc>` by
/// its `From` impl and written out by `chrono::DateTime::to_rfc3339`: the
/// current time in UTC, as a date, a `T`, a time of day and the offset. Two
/// calls may differ, so the text has no name; all that is claimed is that
/// it is not empty.
#[verifier::external_body]
pub(crate) fn now_rfc3339() -> (stamp: String)
    ensures
        stamp@.len() > 0,
{
    chrono::DateTime::<chrono::Utc>::from(std::time::SystemTime::now()).to_rfc3339()
}

} // verus!
