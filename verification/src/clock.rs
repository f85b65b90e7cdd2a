//! The one clock access of the library: the "last updated" timestamp.

use vstd::prelude::*;

verus! {

/// Relies on chrono's `Utc::now`, formatted with `%a %b %e %T %Y`:
/// abbreviated weekday, abbreviated month, space-padded day, 24-hour
/// time, year. The value depends on the current time, so nothing is
/// stated of it; callers take the result as an argument.
#[verifier::external_body]
pub(crate) fn formatted_now() -> String {
    chrono::Utc::now().format("%a %b %e %T %Y").to_string()
}

} // verus!
