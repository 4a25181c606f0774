//! Trusted declarations for the outside calls the core logic makes:
//! identifier generation, clock reads, Unicode classification, URL
//! parsing and identifier parsing.  Each wrapper's contract states only
//! what the called crate's source shows.

use vstd::prelude::*;

verus! {

/// A freshly generated 128-bit identifier.
///
/// Relies on `uuid::Uuid::new_v4` (a random identifier) read back with
/// `Uuid::as_u128`.  The value is random, so nothing is promised of it.
#[verifier::external_body]
pub fn fresh_id() -> u128 {
    uuid::Uuid::new_v4().as_u128()
}

/// The current UTC instant in milliseconds since the Unix epoch.
///
/// Relies on `chrono::Utc::now` and `DateTime::timestamp_millis`.  The
/// value depends on the clock, so nothing is promised of it.
#[verifier::external_body]
pub fn now_millis() -> i64 {
    chrono::Utc::now().timestamp_millis()
}

/// Whether `c` counts as alphanumeric under Unicode's general
/// categories.  The full table is not written out here; the name stands
/// for `char::is_alphanumeric`, which depends on its argument alone.
pub uninterp spec fn char_alphanumeric(c: char) -> bool;

/// Relies on `char::is_alphanumeric`: true exactly for Unicode letters
/// and numbers, a function of the character alone.
#[verifier::external_body]
pub fn is_alphanumeric_char(c: char) -> (r: bool)
    ensures
        r == char_alphanumeric(c),
{
    c.is_alphanumeric()
}

#[verifier::external_type_specification]
#[verifier::external_body]
pub struct ExUrlParseError(url::ParseError);

/// The normalized serialization of `s` when it parses as a URL, and
/// `None` when it does not.  Parsing and serialization depend on the
/// input alone; the name stands for `url::Url::parse` followed by
/// `url::Url::as_str`.
pub uninterp spec fn parsed_url(s: Seq<char>) -> Option<Seq<char>>;

/// Relies on `url::Url::parse` and `url::Url::as_str`: a deterministic
/// parse of `s`, returned as its normalized text.
#[verifier::external_body]
pub fn parse_url(s: &str) -> (r: Result<String, url::ParseError>)
    ensures
        r matches Ok(t) ==> parsed_url(s@) == Some(t@),
        (r matches Err(_)) <==> parsed_url(s@) is None,
{
    match url::Url::parse(s) {
        Ok(u) => Ok(u.as_str().to_owned()),
        Err(e) => Err(e),
    }
}

#[verifier::external_type_specification]
#[verifier::external_body]
pub struct ExUuidError(uuid::Error);

/// The 128-bit value denoted by `s` when it is a textual UUID in one of
/// the accepted formats, and `None` otherwise.  The accepted grammar is
/// long; the name stands for `uuid::Uuid::parse_str`, which depends on
/// its argument alone.
pub uninterp spec fn parsed_uuid(s: Seq<char>) -> Option<u128>;

/// Relies on `uuid::Uuid::parse_str` and `Uuid::as_u128`: a
/// deterministic parse of a textual UUID.
#[verifier::external_body]
pub fn parse_uuid_str(s: &str) -> (r: Result<u128, uuid::Error>)
    ensures
        r matches Ok(v) ==> parsed_uuid(s@) == Some(v),
        (r matches Err(_)) <==> parsed_uuid(s@) is None,
{
    match uuid::Uuid::parse_str(s) {
        Ok(u) => Ok(u.as_u128()),
        Err(e) => Err(e),
    }
}

} // verus!
