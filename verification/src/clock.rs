//! Points in time, as whole milliseconds since the start of 1970 in UTC.

use crate::json::Json;
use crate::json::JsonModel;
use vstd::prelude::*;

verus! {

/// The text that `chrono` writes for the point in time `millis`: the date and
/// the time of day in UTC as RFC 3339 has them, the fraction of the second
/// left out where it is zero, and `Z` for the offset. `None` where `chrono`
/// holds no such point in time.
pub uninterp spec fn rfc3339_of(millis: int) -> Option<Seq<char>>;

/// The present moment: the whole milliseconds since the start of 1970, and the
/// text of the moment with its full fraction of the second.
#[derive(Debug, Clone, PartialEq, Eq)]
pub struct Moment {
    pub millis: i64,
    pub text: String,
}

/// The point in time that `chrono` reads from the text `text`, in whole
/// milliseconds: the text is a date and a time of day with an offset, in the
/// relaxed form of RFC 3339 that `chrono` accepts. `None` where `chrono`
/// refuses the text.
pub uninterp spec fn parsed_time(text: Seq<char>) -> Option<int>;

/// The present moment, as `chrono::Utc::now` reads it from the system clock:
/// `timestamp_millis` counts it and `to_rfc3339` writes it. Nothing is
/// promised of what comes back. The call does not return where the clock
/// reads a time before 1970.
#[verifier::external_body]
pub(crate) fn now() -> (moment: Moment) {
    let t = chrono::Utc::now();
    Moment { millis: t.timestamp_millis(), text: t.to_rfc3339() }
}

/// The point in time that the text `text` names, as the `FromStr` of
/// `chrono::DateTime<Utc>` reads it and `timestamp_millis` counts it. The
/// result is a function of the text alone.
#[verifier::external_body]
pub(crate) fn parse_time(text: &str) -> (millis: Option<i64>)
    ensures
        match millis {
            Some(m) => parsed_time(text@) == Some(m as int),
            None => parsed_time(text@) is None,
        },
{
    match text.parse::<chrono::DateTime<chrono::Utc>>() {
        Ok(t) => Some(t.timestamp_millis()),
        Err(_) => None,
    }
}

/// The text of the point in time `millis`, as `chrono::DateTime::to_rfc3339_opts`
/// writes it for the `DateTime<Utc>` that `from_timestamp_millis` makes of the
/// number. The text is a function of the number alone.
#[verifier::external_body]
pub(crate) fn timestamp_text(millis: i64) -> (text: Option<String>)
    ensures
        match text {
            Some(t) => rfc3339_of(millis as int) == Some(t@),
            None => rfc3339_of(millis as int) is None,
        },
{
    match chrono::DateTime::from_timestamp_millis(millis) {
        Some(t) => Some(t.to_rfc3339_opts(chrono::SecondsFormat::AutoSi, true)),
        None => None,
    }
}

/// The document that stands for the point in time `millis`: its text, or
/// `null` where it has none.
pub open spec fn timestamp_document(millis: int) -> JsonModel {
    match rfc3339_of(millis) {
        Some(t) => JsonModel::Text(t),
        None => JsonModel::Null,
    }
}

/// The document that stands for the point in time `millis`.
pub fn timestamp_json(millis: i64) -> (r: Json)
    ensures
        r@ == timestamp_document(millis as int),
{
    match timestamp_text(millis) {
        Some(t) => Json::Text(t),
        None => Json::Null,
    }
}

/// The document that stands for an optional point in time.
pub open spec fn optional_timestamp_document(millis: Option<i64>) -> JsonModel {
    match millis {
        Some(m) => timestamp_document(m as int),
        None => JsonModel::Null,
    }
}

/// The document that stands for an optional point in time.
pub fn optional_timestamp_json(millis: Option<i64>) -> (r: Json)
    ensures
        r@ == optional_timestamp_document(millis),
{
    match millis {
        Some(m) => timestamp_json(m),
        None => Json::Null,
    }
}

} // verus!
