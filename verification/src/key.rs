//! Typed keys: what a cursor's two texts become before they are compared
//! with the columns that a result set is ordered by.

use vstd::prelude::*;
use chrono::{DateTime, Utc};
use crate::error::{Failure, PageError};

verus! {

#[verifier::external_type_specification]
#[verifier::external_body]
pub struct ExParseError(chrono::ParseError);

/// A point in time, as `chrono` holds it for the UTC time zone.
///
/// Trusted: the field is a value of `chrono`, which the verifier does not
/// look into; [`instant_of`] names what it holds.
#[verifier::external_body]
#[derive(Debug, PartialEq, Eq)]
pub struct Timestamp {
    pub(crate) inner: DateTime<Utc>,
}

/// What a timestamp holds: the whole seconds since the Unix epoch, and the
/// nanoseconds since the last whole second.
pub uninterp spec fn instant_of(t: Timestamp) -> (i64, u32);

/// The instant that `chrono` reads from `text` for the UTC time zone, or
/// `None` where it refuses `text`.
pub uninterp spec fn utc_instant(text: Seq<char>) -> Option<(i64, u32)>;

/// Calls `str::parse` for `DateTime<Utc>`, which is `chrono`'s `FromStr` for
/// that type. Trusted: the result is the one named [`utc_instant`].
#[verifier::external_body]
fn parse_utc(text: &str) -> (res: Result<Timestamp, chrono::ParseError>)
    ensures
        match res {
            Ok(t) => utc_instant(text@) == Some(instant_of(t)),
            Err(_) => utc_instant(text@) is None,
        },
{
    text.parse::<DateTime<Utc>>().map(|inner| Timestamp { inner })
}

/// Calls `DateTime::timestamp` of `chrono`. Trusted: the result is the first
/// part of what [`instant_of`] names.
#[verifier::external_body]
fn seconds_of(t: &Timestamp) -> (seconds: i64)
    ensures
        seconds == instant_of(*t).0,
{
    t.inner.timestamp()
}

/// Calls `DateTime::timestamp_subsec_nanos` of `chrono`. Trusted: the result
/// is the second part of what [`instant_of`] names.
#[verifier::external_body]
fn nanos_of(t: &Timestamp) -> (nanos: u32)
    ensures
        nanos == instant_of(*t).1,
{
    t.inner.timestamp_subsec_nanos()
}

impl View for Timestamp {
    type V = (i64, u32);

    open spec fn view(&self) -> (i64, u32) {
        instant_of(*self)
    }
}

impl Timestamp {
    /// The whole seconds since the Unix epoch.
    pub fn unix_seconds(&self) -> (seconds: i64)
        ensures
            seconds == self@.0,
    {
        seconds_of(self)
    }

    /// The nanoseconds since the last whole second.
    pub fn subsec_nanos(&self) -> (nanos: u32)
        ensures
            nanos == self@.1,
    {
        nanos_of(self)
    }
}

/// A value bound to a placeholder of a query, as a mathematical value.
pub enum Param {
    /// A text.
    Text(Seq<char>),
    /// A point in time: seconds since the Unix epoch, and nanoseconds.
    Instant(i64, u32),
    /// A number of rows.
    Count(u32),
}

/// A parsed key, ready to be bound to a query.
#[derive(Debug, PartialEq, Eq)]
pub enum Key {
    Text(String),
    Timestamp(Timestamp),
}

impl View for Key {
    type V = Param;

    open spec fn view(&self) -> Param {
        match self {
            Key::Text(text) => Param::Text(text@),
            Key::Timestamp(t) => Param::Instant(t@.0, t@.1),
        }
    }
}

/// The reason given for a text that is no timestamp.
pub open spec fn not_a_timestamp() -> Seq<char> {
    "failed to parse date time from string"@
}

/// A type of key: how the text that a cursor carries becomes a value of the
/// column's type.
pub trait KeyParse: Sized {
    /// The parameter that `text` stands for, or the reason for which `text`
    /// is refused.
    spec fn parsed(text: Seq<char>) -> Result<Param, Seq<char>>;

    /// This key as a query parameter.
    spec fn param(&self) -> Param;

    /// Parses the text of a key.
    fn parse_key(key: String) -> (res: Result<Self, PageError>)
        ensures
            match res {
                Ok(k) => Self::parsed(key@) == Ok::<Param, Seq<char>>(k.param()),
                Err(e) => Self::parsed(key@) matches Err(reason) && e@
                    == Failure::InvalidArgument(reason),
            },
    ;

    /// Hands the key over as one of the kinds that a query can bind.
    fn into_key(self) -> (key: Key)
        ensures
            key@ == self.param(),
    ;
}

impl KeyParse for String {
    open spec fn parsed(text: Seq<char>) -> Result<Param, Seq<char>> {
        Ok(Param::Text(text))
    }

    open spec fn param(&self) -> Param {
        Param::Text(self@)
    }

    /// Every text is a key.
    fn parse_key(key: String) -> (res: Result<String, PageError>) {
        Ok(key)
    }

    fn into_key(self) -> (key: Key) {
        Key::Text(self)
    }
}

impl KeyParse for Timestamp {
    open spec fn parsed(text: Seq<char>) -> Result<Param, Seq<char>> {
        match utc_instant(text) {
            Some(instant) => Ok(Param::Instant(instant.0, instant.1)),
            None => Err(not_a_timestamp()),
        }
    }

    open spec fn param(&self) -> Param {
        Param::Instant(self@.0, self@.1)
    }

    /// A text is a key where it is a timestamp with a time zone, in the
    /// form of RFC 3339.
    fn parse_key(key: String) -> (res: Result<Timestamp, PageError>) {
        match parse_utc(key.as_str()) {
            Ok(t) => Ok(t),
            Err(_) => Err(PageError::invalid_argument("failed to parse date time from string")),
        }
    }

    fn into_key(self) -> (key: Key) {
        Key::Timestamp(self)
    }
}

/// Parses the text of a key as the type `K`.
pub fn parse_key<K: KeyParse>(key: String) -> (res: Result<K, PageError>)
    ensures
        match res {
            Ok(k) => K::parsed(key@) == Ok::<Param, Seq<char>>(k.param()),
            Err(e) => K::parsed(key@) matches Err(reason) && e@ == Failure::InvalidArgument(
                reason,
            ),
        },
{
    K::parse_key(key)
}

} // verus!
