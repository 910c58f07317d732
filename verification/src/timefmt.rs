//! RFC 3339 rendering of estimated timestamps.

use vstd::prelude::*;

verus! {

/// The RFC 3339 text chrono renders for a Unix-seconds value, empty for
/// values outside chrono's datetime range.
pub uninterp spec fn rfc3339_of(secs: u64) -> Seq<char>;

/// Relies on chrono's `DateTime::from_timestamp` and `DateTime::to_rfc3339`:
/// the rendering is a pure function of the seconds value (always UTC, no
/// locale or zone input), and an out-of-range value — where
/// `from_timestamp` returns `None` — renders as the empty string.
#[verifier::external_body]
pub fn format_rfc3339_utc(secs: u64) -> (r: String)
    ensures
        r@ == rfc3339_of(secs),
{
    match chrono::DateTime::from_timestamp(secs as i64, 0) {
        Some(dt) => dt.to_rfc3339(),
        None => String::new(),
    }
}

} // verus!
