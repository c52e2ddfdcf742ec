//! The time of day, read through the `chrono` crate.

use vstd::prelude::*;

verus! {

/// `Utc::now` and `DateTime::to_rfc3339`: the present moment as an RFC 3339
/// timestamp. Nothing is promised of the text: it changes from call to call.
#[verifier::external_body]
pub(crate) fn now_rfc3339() -> String {
    chrono::Utc::now().to_rfc3339()
}

/// `Utc::now` and `DateTime::format`: the present moment, to the second,
/// as `year-month-day hour:minute:second UTC`. Nothing is promised of the
/// text: it changes from call to call.
#[verifier::external_body]
pub(crate) fn now_to_the_second() -> String {
    chrono::Utc::now().format("%Y-%m-%d %H:%M:%S UTC").to_string()
}

} // verus!
