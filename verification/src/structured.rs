use vstd::prelude::*;
use crate::record::{LogRecord, RecordView, non_empty, optional_text, present};
use crate::severity::Severity;

verus! {

/// `serde_json::Value`: a decoded JSON value. It is read through
/// `string_member` and `member_text` only.
#[verifier::external_type_specification]
#[verifier::external_body]
pub struct ExJsonValue(serde_json::Value);

/// `serde_json::Error`: why a line did not decode.
#[verifier::external_type_specification]
#[verifier::external_body]
pub struct ExJsonError(serde_json::Error);

/// The value that a line decodes to as JSON; `None` where it is not JSON.
pub uninterp spec fn decoded(line: Seq<char>) -> Option<serde_json::Value>;

/// The members of a JSON object whose value is a string, each with that
/// string; empty for a value that is no object.
pub uninterp spec fn string_members(value: serde_json::Value) -> Map<Seq<char>, Seq<char>>;

/// The members of a JSON object, each with its value written as JSON text;
/// empty for a value that is no object.
pub uninterp spec fn member_texts(value: serde_json::Value) -> Map<Seq<char>, Seq<char>>;

/// What a map holds under `key`, if anything.
pub open spec fn lookup(members: Map<Seq<char>, Seq<char>>, key: Seq<char>) -> Option<Seq<char>> {
    if members.contains_key(key) {
        Some(members[key])
    } else {
        None
    }
}

/// `serde_json::from_str` at `serde_json::Value`: decodes a line.
#[verifier::external_body]
pub(crate) fn decode(line: &str) -> (r: Result<serde_json::Value, serde_json::Error>)
    ensures
        r is Ok <==> decoded(line@) is Some,
        r matches Ok(v) ==> decoded(line@) == Some(v),
{
    serde_json::from_str::<serde_json::Value>(line)
}

/// `Value::get` with a string key, then `Value::as_str`: the string under
/// `key`, if `value` is an object that holds one there.
#[verifier::external_body]
pub(crate) fn string_member(value: &serde_json::Value, key: &str) -> (r: Option<String>)
    ensures
        optional_text(r) == lookup(string_members(*value), key@),
{
    value.get(key).and_then(|member| member.as_str()).map(|s| s.to_string())
}

/// `Value::get` with a string key, then the member's `Display`: the JSON
/// text of what stands under `key`, if `value` is an object that holds
/// something there.
#[verifier::external_body]
pub(crate) fn member_text(value: &serde_json::Value, key: &str) -> (r: Option<String>)
    ensures
        optional_text(r) == lookup(member_texts(*value), key@),
{
    value.get(key).map(|member| member.to_string())
}

/// The key of the timestamp in a structured record.
pub const TIMESTAMP_KEY: &'static str = "timestamp";

/// The key of the level.
pub const LEVEL_KEY: &'static str = "error_severity";

/// The key of the process id.
pub const PROCESS_KEY: &'static str = "pid";

/// The key of the user.
pub const USER_KEY: &'static str = "user";

/// The key of the database.
pub const DATABASE_KEY: &'static str = "dbname";

/// The key of the message.
pub const MESSAGE_KEY: &'static str = "message";

/// `text` if it is there, no characters otherwise.
pub open spec fn or_empty(text: Option<Seq<char>>) -> Seq<char> {
    match text {
        Some(t) => t,
        None => Seq::empty(),
    }
}

/// `text` if it is there and has characters.
pub open spec fn if_present(text: Option<Seq<char>>) -> Option<Seq<char>> {
    match text {
        Some(t) => present(t),
        None => None,
    }
}

/// The record that six optional fields stand for: a field that is missing
/// is empty, a level that is missing or not known gives `Unknown`, and a
/// user or database without characters is none.
pub open spec fn record_of_fields(
    timestamp: Option<Seq<char>>,
    level: Option<Seq<char>>,
    process_id: Option<Seq<char>>,
    user: Option<Seq<char>>,
    database: Option<Seq<char>>,
    message: Option<Seq<char>>,
) -> RecordView {
    RecordView {
        timestamp: or_empty(timestamp),
        level: or_empty(level),
        severity: Severity::of_name(or_empty(level)),
        process_id: or_empty(process_id),
        user: if_present(user),
        database: if_present(database),
        message: or_empty(message),
    }
}

fn text_or_empty(text: Option<String>) -> (r: String)
    ensures
        r@ == or_empty(optional_text(text)),
{
    match text {
        Some(t) => t,
        None => String::new(),
    }
}

fn text_if_present(text: Option<String>) -> (r: Option<String>)
    ensures
        optional_text(r) == if_present(optional_text(text)),
{
    match text {
        Some(t) => non_empty(t),
        None => None,
    }
}

/// Builds a record from six optional fields. No field is required.
pub fn record_from_fields(
    timestamp: Option<String>,
    level: Option<String>,
    process_id: Option<String>,
    user: Option<String>,
    database: Option<String>,
    message: Option<String>,
) -> (r: LogRecord)
    ensures
        r@ == record_of_fields(
            optional_text(timestamp),
            optional_text(level),
            optional_text(process_id),
            optional_text(user),
            optional_text(database),
            optional_text(message),
        ),
        r.wf(),
{
    let level = text_or_empty(level);
    let severity = Severity::from_name(level.as_str());
    LogRecord {
        timestamp: text_or_empty(timestamp),
        level,
        severity,
        process_id: text_or_empty(process_id),
        user: text_if_present(user),
        database: text_if_present(database),
        message: text_or_empty(message),
    }
}

/// The record that a decoded value stands for: timestamp, level, user,
/// database and message are the strings under their keys, the process id is
/// the JSON text of what stands under its key.
pub open spec fn structured_record(value: serde_json::Value) -> RecordView {
    record_of_fields(
        lookup(string_members(value), TIMESTAMP_KEY@),
        lookup(string_members(value), LEVEL_KEY@),
        lookup(member_texts(value), PROCESS_KEY@),
        lookup(string_members(value), USER_KEY@),
        lookup(string_members(value), DATABASE_KEY@),
        lookup(string_members(value), MESSAGE_KEY@),
    )
}

/// Takes the fields of a record out of a decoded value.
pub fn read_structured(value: &serde_json::Value) -> (r: LogRecord)
    ensures
        r@ == structured_record(*value),
        r.wf(),
{
    record_from_fields(
        string_member(value, TIMESTAMP_KEY),
        string_member(value, LEVEL_KEY),
        member_text(value, PROCESS_KEY),
        string_member(value, USER_KEY),
        string_member(value, DATABASE_KEY),
        string_member(value, MESSAGE_KEY),
    )
}

} // verus!
