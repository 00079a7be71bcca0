use vstd::prelude::*;

verus! {

/// Relies on `chrono::Utc::now` and `DateTime::to_rfc3339`: the current time as
/// an RFC 3339 string. Nothing is promised of its value.
#[verifier::external_body]
pub fn now_rfc3339() -> (r: String) {
    chrono::Utc::now().to_rfc3339()
}

/// Relies on `chrono::Utc::now` and `DateTime::format`: the current time of day
/// as `HH:MM:SS`. Nothing is promised of its value.
#[verifier::external_body]
pub fn now_clock() -> (r: String) {
    chrono::Utc::now().format("%H:%M:%S").to_string()
}

} // verus!
