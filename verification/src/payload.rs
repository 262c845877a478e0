//! The request bodies of the two notification platforms.
//!
//! Both are JSON objects with fixed keys, written with the keys in ascending
//! order and without white space. Every text that comes from outside enters as
//! a JSON string literal.

use crate::json::{json_quoted, quote_json};
use vstd::prelude::*;

verus! {

pub const SLACK_LEAD: &'static str = "A summarization job just completed:\n\n";

pub const CARD_HEAD: &'static str =
    "{\"attachments\":[{\"content\":{\"$schema\":\"http://adaptivecards.io/schemas/adaptive-card.json\",\"body\":[{\"columns\":[{\"items\":[{\"color\":\"Accent\",\"name\":\"Flash\",\"size\":\"Large\",\"style\":\"Filled\",\"type\":\"Icon\"}],\"type\":\"Column\",\"width\":\"auto\"},{\"items\":[{\"size\":\"Large\",\"style\":\"heading\",\"text\":";

pub const CARD_AFTER_TITLE: &'static str =
    ",\"type\":\"TextBlock\",\"weight\":\"Bolder\",\"wrap\":true}],\"spacing\":\"medium\",\"type\":\"Column\",\"verticalContentAlignment\":\"center\",\"width\":\"auto\"}],\"type\":\"ColumnSet\"},{\"size\":\"Medium\",\"style\":\"heading\",\"text\":";

pub const CARD_AFTER_DATE: &'static str =
    ",\"type\":\"TextBlock\",\"weight\":\"Bolder\",\"wrap\":true},{\"items\":[{\"maxLines\":100,\"text\":";

pub const CARD_TAIL: &'static str =
    ",\"type\":\"TextBlock\",\"wrap\":true}],\"maxHeight\":\"400px\",\"roundedCorners\":true,\"showBorder\":true,\"type\":\"Container\"}],\"msteams\":{\"width\":\"Full\"},\"type\":\"AdaptiveCard\",\"version\":\"1.5\"},\"contentType\":\"application/vnd.microsoft.card.adaptive\",\"contentUrl\":null}],\"type\":\"message\"}";

/// What a text envelope says: a fixed lead, then the text.
pub open spec fn slack_content(text: Seq<char>) -> Seq<char> {
    SLACK_LEAD@ + text
}

/// The text envelope around an already quoted content.
pub open spec fn slack_envelope_text(quoted_content: Seq<char>) -> Seq<char> {
    "{\"content\":"@ + quoted_content + "}"@
}

/// The card around an already quoted title, date line and text.
pub open spec fn teams_card_text(
    quoted_title: Seq<char>,
    quoted_date: Seq<char>,
    quoted_text: Seq<char>,
) -> Seq<char> {
    CARD_HEAD@ + quoted_title + CARD_AFTER_TITLE@ + quoted_date + CARD_AFTER_DATE@ + quoted_text
        + CARD_TAIL@
}

/// The date line of a card.
pub open spec fn date_header_text(timestamp: Seq<char>, zone: Seq<char>) -> Seq<char> {
    "Date: "@ + timestamp + " "@ + zone
}

/// Wraps a quoted content into the text envelope.
pub fn slack_envelope(quoted_content: &str) -> (body: String)
    ensures
        body@ == slack_envelope_text(quoted_content@),
{
    let mut body = "{\"content\":".to_owned();
    body.append(quoted_content);
    body.append("}");
    body
}

/// The body sent to a text-envelope channel for a summary.
pub fn slack_payload(text: &str) -> (body: String)
    ensures
        body@ == slack_envelope_text(json_quoted(slack_content(text@))),
{
    let mut content = SLACK_LEAD.to_owned();
    content.append(text);
    let quoted = quote_json(content.as_str());
    slack_envelope(quoted.as_str())
}

/// Lays an already quoted title, date line and text into the card.
pub fn teams_card(quoted_title: &str, quoted_date: &str, quoted_text: &str) -> (body: String)
    ensures
        body@ == teams_card_text(quoted_title@, quoted_date@, quoted_text@),
{
    let mut body = CARD_HEAD.to_owned();
    body.append(quoted_title);
    body.append(CARD_AFTER_TITLE);
    body.append(quoted_date);
    body.append(CARD_AFTER_DATE);
    body.append(quoted_text);
    body.append(CARD_TAIL);
    body
}

/// The body sent to a card channel: the title, the date line and the full text.
pub fn teams_payload(title: &str, date_header: &str, text: &str) -> (body: String)
    ensures
        body@ == teams_card_text(json_quoted(title@), json_quoted(date_header@), json_quoted(text@)),
{
    let quoted_title = quote_json(title);
    let quoted_date = quote_json(date_header);
    let quoted_text = quote_json(text);
    teams_card(quoted_title.as_str(), quoted_date.as_str(), quoted_text.as_str())
}

/// The date line of a card from a formatted local time and a zone designation.
pub fn date_header(timestamp: &str, zone: &str) -> (line: String)
    ensures
        line@ == date_header_text(timestamp@, zone@),
{
    let mut line = "Date: ".to_owned();
    line.append(timestamp);
    line.append(" ");
    line.append(zone);
    line
}

/// The form in which a card shows the local time: month, day and year, then
/// the time on a twelve-hour clock.
pub const TIMESTAMP_PATTERN: &'static str = "%m-%d-%Y %I:%M:%S %p";

/// Why the local time zone is unknown.
#[derive(Clone, Copy, Debug, PartialEq, Eq, Structural)]
pub enum ZoneError {
    /// The system's time zone could not be read.
    NoTimeZone,
    /// The time zone has no local time type for the present moment.
    NoLocalTimeType,
}

impl ZoneError {
    pub open spec fn message_text(self) -> Seq<char> {
        match self {
            ZoneError::NoTimeZone => "Unable to determine timezone"@,
            ZoneError::NoLocalTimeType => "Could not find local timezone type"@,
        }
    }

    pub fn message(self) -> (message: &'static str)
        ensures
            message@ == self.message_text(),
    {
        match self {
            ZoneError::NoTimeZone => "Unable to determine timezone",
            ZoneError::NoLocalTimeType => "Could not find local timezone type",
        }
    }
}

/// `chrono::Local::now` written out by `DateTime::format`. The text depends
/// on the clock and nothing is stated of it. Only the one pattern of this
/// library is admitted, which chrono can write; chrono stops the program
/// where the system clock stands before 1970.
#[verifier::external_body]
fn local_time(pattern: &str) -> (text: String)
    requires
        pattern@ == TIMESTAMP_PATTERN@,
{
    chrono::Local::now().format(pattern).to_string()
}

/// `tz::TimeZone::local`, then `find_current_local_time_type` and
/// `time_zone_designation` of what it finds: the designation of the local
/// time zone at present, or which of the two lookups failed. A designation
/// has at most seven characters; which one comes back depends on the system
/// and the clock.
#[verifier::external_body]
fn local_zone() -> (zone: Result<String, ZoneError>)
    ensures
        zone matches Ok(designation) ==> designation@.len() <= 7,
{
    let zone = match tz::TimeZone::local() {
        Ok(zone) => zone,
        Err(_) => return Err(ZoneError::NoTimeZone),
    };
    match zone.find_current_local_time_type() {
        Ok(kind) => Ok(kind.time_zone_designation().to_owned()),
        Err(_) => Err(ZoneError::NoLocalTimeType),
    }
}

/// The date line of a card from a formatted local time and what the lookup
/// of the zone designation gave: the line where a designation was found, the
/// lookup's error where none was.
pub fn date_header_from(timestamp: &str, zone: Result<String, ZoneError>) -> (line: Result<
    String,
    ZoneError,
>)
    ensures
        match zone {
            Ok(designation) => line matches Ok(text) && text@ == date_header_text(
                timestamp@,
                designation@,
            ),
            Err(e) => line == Err::<String, ZoneError>(e),
        },
{
    match zone {
        Ok(designation) => Ok(date_header(timestamp, designation.as_str())),
        Err(e) => Err(e),
    }
}

/// The date line of a card for the present moment, or the reason why the
/// local time zone is unknown. Whether the zone is known is the system's
/// business; where it is, the line holds a local time and a designation of
/// at most seven characters.
pub fn current_date_header() -> (line: Result<String, ZoneError>)
    ensures
        line matches Ok(text) ==> exists|timestamp: Seq<char>, zone: Seq<char>|
            zone.len() <= 7 && text@ == date_header_text(timestamp, zone),
{
    let timestamp = local_time(TIMESTAMP_PATTERN);
    date_header_from(timestamp.as_str(), local_zone())
}

} // verus!
