//! Wall-clock timestamps and their RFC 3339 text form.

use vstd::prelude::*;

use crate::errors::Error;

verus! {

/// The RFC 3339 rendering of an epoch timestamp, as the `time` crate
/// produces it. The rendering is a function of the timestamp alone.
pub uninterp spec fn rfc3339_of(t: i64) -> Seq<char>;

/// The epoch timestamp an RFC 3339 string denotes, as the `time` crate
/// parses it; `None` for text it rejects. The result is a function of the
/// text alone.
pub uninterp spec fn rfc3339_epoch_of(s: Seq<char>) -> Option<i64>;

/// Relies on `time::OffsetDateTime::now_utc`, read out through
/// `unix_timestamp`: the current moment as epoch seconds. Nothing can be
/// promised about what the clock yields.
#[verifier::external_body]
pub fn now_utc() -> (r: i64) {
    time::OffsetDateTime::now_utc().unix_timestamp()
}

/// Relies on `time::OffsetDateTime::format` with the `Rfc3339` description:
/// the rendering of the timestamp, produced exactly for the timestamps whose
/// UTC year lies in 0000..=9999 — from the seconds of 0000-01-01T00:00:00Z
/// to those of 9999-12-31T23:59:59Z — and refused outside that range. Relies
/// further on `time::OffsetDateTime::parse` with the same description:
/// parsing such a rendering yields the timestamp back.
#[verifier::external_body]
fn format_rfc3339(t: i64) -> (r: Option<String>)
    ensures
        r is Some <==> -62167219200 <= t <= 253402300799,
        r matches Some(s) ==> s@ == rfc3339_of(t),
        r is Some ==> rfc3339_epoch_of(rfc3339_of(t)) == Some(t),
{
    match time::OffsetDateTime::from_unix_timestamp(t) {
        Ok(dt) => dt.format(&time::format_description::well_known::Rfc3339).ok(),
        Err(_) => None,
    }
}

/// Relies on `time::OffsetDateTime::parse` with the `Rfc3339` description,
/// read out through `unix_timestamp`: the epoch seconds the text denotes,
/// or `None` when the parser rejects it.
#[verifier::external_body]
fn parse_rfc3339(s: &str) -> (r: Option<i64>)
    ensures
        r == rfc3339_epoch_of(s@),
{
    match time::OffsetDateTime::parse(s, &time::format_description::well_known::Rfc3339) {
        Ok(dt) => Some(dt.unix_timestamp()),
        Err(_) => None,
    }
}

/// Formats an epoch timestamp as RFC 3339 text. Formatting succeeds exactly
/// for the timestamps the format can carry (UTC years 0000..=9999), and
/// parsing the result recovers the timestamp.
pub fn format_time(t: i64) -> (r: Result<String, Error>)
    ensures
        r is Ok <==> -62167219200 <= t <= 253402300799,
        r matches Ok(s) ==> s@ == rfc3339_of(t) && rfc3339_epoch_of(s@) == Some(t),
        r matches Err(e) ==> e == Error::TimeConversion,
{
    match format_rfc3339(t) {
        Some(s) => Ok(s),
        None => Err(Error::TimeConversion),
    }
}

/// Parses an RFC 3339 moment into epoch seconds; text the format does not
/// cover is refused.
pub fn parse_utc(moment: &str) -> (r: Result<i64, Error>)
    ensures
        r matches Ok(t) ==> rfc3339_epoch_of(moment@) == Some(t),
        r matches Err(e) ==> e == Error::TimeConversion && rfc3339_epoch_of(moment@) is None,
{
    match parse_rfc3339(moment) {
        Some(t) => Ok(t),
        None => Err(Error::TimeConversion),
    }
}

} // verus!
