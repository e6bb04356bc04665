//! Localization of the feed's UTC timestamps to Helsinki civil time.
//!
//! The feed transmits ISO-8601 UTC instants. Displayed observation times are
//! day/month/year clock strings in the Europe/Helsinki timezone, whose offset
//! from UTC depends on the instant's date (standard versus daylight-saving
//! time), so the conversion must consult timezone rules and cannot be a fixed
//! offset.

use vstd::prelude::*;

verus! {

/// The Helsinki civil-time string for the UTC instant written in `s`, or
/// `None` when `s` is not a well-formed timestamp. The result is a function
/// of the text alone: the timestamp grammar, the timezone database and the
/// output layout are all fixed.
pub uninterp spec fn helsinki_local(s: Seq<char>) -> Option<Seq<char>>;

/// Relies on chrono's `DateTime<Utc>` string parsing (strict ISO-8601 /
/// RFC 3339 forms), chrono-tz's `Europe::Helsinki` timezone conversion with
/// its compiled-in timezone table, and chrono's locale-independent
/// `format("%d/%m/%Y %T")`; each is a deterministic function of the text.
#[verifier::external_body]
pub(crate) fn localize_utc_timestamp(text: &str) -> (r: Option<String>)
    ensures
        (match r {
            Some(local) => Some(local@),
            None => None,
        }) == helsinki_local(text@),
{
    match text.parse::<chrono::DateTime<chrono::Utc>>() {
        Ok(instant) => Some(
            instant.with_timezone(&chrono_tz::Europe::Helsinki).format("%d/%m/%Y %T").to_string(),
        ),
        Err(_) => None,
    }
}

} // verus!
