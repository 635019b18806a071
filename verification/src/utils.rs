//! Rendering and reading of RFC 3339 timestamps, over Unix seconds.
//!
//! Instants are carried as whole seconds since the Unix epoch; the `time`
//! crate does the actual rendering and parsing behind trusted wrappers.

use vstd::prelude::*;

verus! {

/// The earliest whole-second instant the RFC 3339 formatter accepts:
/// midnight opening year 0000.
pub const RFC3339_FORMAT_MIN: i64 = -62_167_219_200;

/// The latest whole-second instant the RFC 3339 formatter accepts:
/// the last second of year 9999.
pub const RFC3339_FORMAT_MAX: i64 = 253_402_300_799;

/// The whole-second instant an RFC 3339 string denotes, if the string parses.
pub uninterp spec fn rfc3339_parse(s: Seq<char>) -> Option<int>;

/// The RFC 3339 rendering of a formattable whole-second instant.
pub uninterp spec fn rfc3339_format(t: int) -> Seq<char>;

/// Whether the formatter accepts the instant: years 0000 through 9999.
pub open spec fn rfc3339_formattable(t: int) -> bool {
    RFC3339_FORMAT_MIN <= t <= RFC3339_FORMAT_MAX
}

/// Relies on `time::OffsetDateTime::parse` with the RFC 3339 well-known
/// format, and `unix_timestamp`: whether a string parses, and the instant it
/// denotes, depend on its characters alone.
#[verifier::external_body]
pub(crate) fn parse_rfc3339(s: &str) -> (r: Option<i64>)
    ensures
        r is Some <==> rfc3339_parse(s@) is Some,
        r matches Some(t) ==> rfc3339_parse(s@) == Some(t as int),
{
    match time::OffsetDateTime::parse(s, &time::format_description::well_known::Rfc3339) {
        Ok(parsed) => Some(parsed.unix_timestamp()),
        Err(_) => None,
    }
}

/// Relies on `time::OffsetDateTime::from_unix_timestamp` and formatting with
/// the RFC 3339 well-known format: the rendering depends on the instant
/// alone, and the pair succeeds exactly for instants within years 0000
/// through 9999 (`from_unix_timestamp` reaches further on both sides, and
/// the formatter refuses any year outside that range).
#[verifier::external_body]
fn fmt_rfc3339(t: i64) -> (r: Option<String>)
    ensures
        r is Some <==> rfc3339_formattable(t as int),
        r matches Some(s) ==> s@ == rfc3339_format(t as int),
{
    match time::OffsetDateTime::from_unix_timestamp(t) {
        Ok(instant) => match instant.format(&time::format_description::well_known::Rfc3339) {
            Ok(rendered) => Some(rendered),
            Err(_) => None,
        },
        Err(_) => None,
    }
}

/// What `format_rfc3339` returns: the rendering, or the empty string for an
/// instant the formatter refuses.
pub open spec fn spec_format_rfc3339(t: int) -> Seq<char> {
    if rfc3339_formattable(t) {
        rfc3339_format(t)
    } else {
        Seq::<char>::empty()
    }
}

/// Render a whole-second instant as an RFC 3339 string; an instant the
/// formatter refuses comes back as the empty string.
pub fn format_rfc3339(t: i64) -> (r: String)
    ensures
        r@ == spec_format_rfc3339(t as int),
{
    match fmt_rfc3339(t) {
        Some(rendered) => rendered,
        None => String::new(),
    }
}

} // verus!
