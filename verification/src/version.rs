//! The version gate: decides whether the installed client is current.
//!
//! The remote endpoint serves an opaque version token; the install root holds
//! a version marker file with the token of the last completed bootstrap run.
//! Two tokens count as equal only when their text is identical. A missing
//! or unreadable marker is handed in as `None` and never gates as current.

use vstd::prelude::*;

verus! {

/// A local marker matches the remote token exactly when the marker exists
/// and its text equals the token byte for byte.
pub open spec fn marker_matches(local: Option<Seq<char>>, remote: Seq<char>) -> bool {
    match local {
        Some(l) => l == remote,
        None => false,
    }
}

/// The text of an optional marker.
pub open spec fn opt_text(o: Option<String>) -> Option<Seq<char>> {
    match o {
        Some(s) => Some(s@),
        None => None,
    }
}

/// Returns whether the installed version is current: true exactly when the
/// local marker exists and equals the remote token. A marker that could not
/// be read is passed as `None` and yields false, never an error.
pub fn is_current(local: &Option<String>, remote: &String) -> (b: bool)
    ensures
        b == marker_matches(opt_text(*local), remote@),
{
    match local {
        Option::Some(l) => *l == *remote,
        Option::None => false,
    }
}

/// Round trip: a marker written from a token matches that same token when it
/// is read back unchanged.
pub proof fn lemma_marker_round_trip(token: Seq<char>)
    ensures
        marker_matches(Some(token), token),
{
}

/// A missing marker and an empty marker are treated alike: as long as the
/// remote token is nonempty, neither is current.
pub proof fn lemma_empty_like_missing(local: Option<Seq<char>>, remote: Seq<char>)
    requires
        remote.len() > 0,
        local is None || local->0.len() == 0,
    ensures
        !marker_matches(local, remote),
{
}

} // verus!
