//! The current time.
use vstd::prelude::*;

verus! {

/// The UTC offset as RFC 3339 writes it without `Z`.
pub open spec fn utc_offset_suffix() -> Seq<char> {
    seq!['+', '0', '0', ':', '0', '0']
}

/// An RFC 3339 timestamp in UTC as chrono writes it: a date and time of at
/// least `YYYY-MM-DDTHH:MM:SS`, followed by the offset `+00:00`.
pub open spec fn is_utc_timestamp(t: Seq<char>) -> bool {
    &&& t.len() >= 25
    &&& t.skip(t.len() - 6) == utc_offset_suffix()
}

/// `chrono::Utc::now` rendered by `DateTime::to_rfc3339`: the current UTC
/// time as an RFC 3339 timestamp. Which time it is rests on the system
/// clock and is left open. Claimed, as chrono's `write_rfc3339` shows: the
/// year takes at least four characters, then come `-MM-DDTHH:MM:SS`, an
/// optional fraction, and, the offset being zero and `Z` not being used,
/// `+00:00`.
#[verifier::external_body]
pub(crate) fn now_rfc3339() -> (t: String)
    ensures
        is_utc_timestamp(t@),
{
    chrono::Utc::now().to_rfc3339()
}

} // verus!
