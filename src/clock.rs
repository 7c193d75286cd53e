//! Submission timestamps, computed by chrono in the Asia/Kolkata zone.
use vstd::prelude::*;

verus! {

/// The submission stamp of the instant `secs` seconds after the Unix epoch:
/// that instant in India Standard Time, written day/month/year
/// hour:minute:second with zero-padded fields.
pub uninterp spec fn kolkata_stamp(secs: int) -> Seq<char>;

/// The last second (9999-12-31 23:59:59 UTC) that is sure to be stamped.
pub const LAST_STAMPED_SECOND: i64 = 253402300799;

/// Relies on chrono's `DateTime::from_timestamp`, which gives `None` only
/// outside chrono's date range (far beyond year 9999 either way), then on
/// `with_timezone` to chrono-tz's `Asia::Kolkata` and on `format`.
#[verifier::external_body]
pub(crate) fn stamp_at(secs: i64) -> (r: Option<String>)
    ensures
        r matches Some(t) ==> t@ == kolkata_stamp(secs as int),
        0 <= secs <= LAST_STAMPED_SECOND ==> r is Some,
{
    match chrono::DateTime::from_timestamp(secs, 0) {
        Some(t) => Some(t.with_timezone(&chrono_tz::Asia::Kolkata).format("%d/%m/%Y %H:%M:%S").to_string()),
        None => None,
    }
}

} // verus!
