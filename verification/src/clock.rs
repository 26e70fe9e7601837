//! The wall clock and the timestamp text used in backup names.

use vstd::prelude::*;

verus! {

/// Relies on chrono's Utc::now: the wall clock in milliseconds since the
/// Unix epoch.  Nothing is assumed of the value.
#[verifier::external_body]
pub fn now_millis() -> (r: i64) {
    chrono::Utc::now().timestamp_millis()
}

/// The ISO-8601 text of an instant in the Europe/Bratislava time zone, as
/// chrono renders it; the empty string for an instant chrono cannot hold.
pub uninterp spec fn bratislava_iso_of(ms: int) -> Seq<char>;

/// Relies on chrono's DateTime::from_timestamp_millis and chrono-tz's
/// Europe/Bratislava table: the text depends on the instant alone.
#[verifier::external_body]
pub fn iso_bratislava(ms: i64) -> (r: String)
    ensures
        r@ == bratislava_iso_of(ms as int),
{
    match chrono::DateTime::from_timestamp_millis(ms) {
        Some(instant) => instant.with_timezone(&chrono_tz::Europe::Bratislava).format(
            "%+",
        ).to_string(),
        None => String::new(),
    }
}

} // verus!
