//! The JSON document that is stored for a discrete input event.
//!
//! A record is one JSON object: the event's type, its timestamp, its name,
//! the fields of its kind, and the pointer position that was last seen.
//!
//! ```text
//! {"type":"ButtonPress","timestamp":1700000000000,"name":null,"button":"left","position":{"x":10,"y":20}}
//! ```

use crate::events::{Button, EventKind, InputEvent, Position};
use crate::text::{decimal, decimal_text, signed_decimal, signed_decimal_text};
use vstd::prelude::*;
use vstd::string::*;

verus! {

/// The error type of `serde_json`.
#[verifier::external_type_specification]
#[verifier::external_body]
pub struct ExJsonError(serde_json::Error);

/// The JSON string literal for `text`: what `serde_json::to_string` gives for
/// a string slice, quotes included.
pub uninterp spec fn json_quoted(text: Seq<char>) -> Seq<char>;

/// Calls `serde_json::to_string` on a string slice. The call succeeds for
/// every string: the literal is written into a byte vector, and only a failed
/// write could make it fail. Its result is the JSON string literal for `text`,
/// which depends on `text` alone.
#[verifier::external_body]
fn quote_text(text: &str) -> (quoted: Result<String, serde_json::Error>)
    ensures
        quoted is Ok,
        quoted matches Ok(literal) ==> literal@ == json_quoted(text@),
{
    serde_json::to_string(text)
}

/// What a failure of the JSON encoder is reported as.
#[derive(Clone, Copy, Debug, PartialEq, Eq, Structural)]
pub enum RecordError {
    /// The encoder did not write the event's name as a JSON string.
    NameNotEncoded,
}

/// The tag under `"type"`.
pub open spec fn kind_tag(kind: EventKind) -> Seq<char> {
    match kind {
        EventKind::MouseMove { .. } => "MouseMove"@,
        EventKind::ButtonPress(_) => "ButtonPress"@,
        EventKind::ButtonRelease(_) => "ButtonRelease"@,
        EventKind::KeyPress(_) => "KeyPress"@,
        EventKind::KeyRelease(_) => "KeyRelease"@,
        EventKind::Wheel { .. } => "Wheel"@,
    }
}

/// A button as a JSON value: its name, or its number where it has no name.
pub open spec fn button_json(button: Button) -> Seq<char> {
    match button {
        Button::Left => "\"left\""@,
        Button::Right => "\"right\""@,
        Button::Middle => "\"middle\""@,
        Button::Unknown(number) => decimal(number as nat),
    }
}

/// The members that belong to the event's kind, each with a leading comma.
pub open spec fn kind_fields(kind: EventKind) -> Seq<char> {
    match kind {
        EventKind::MouseMove { x, y } => ",\"x\":"@ + signed_decimal(x as int) + ",\"y\":"@
            + signed_decimal(y as int),
        EventKind::ButtonPress(button) => ",\"button\":"@ + button_json(button),
        EventKind::ButtonRelease(button) => ",\"button\":"@ + button_json(button),
        EventKind::KeyPress(key) => ",\"key\":"@ + decimal(key as nat),
        EventKind::KeyRelease(key) => ",\"key\":"@ + decimal(key as nat),
        EventKind::Wheel { delta_x, delta_y } => ",\"delta_x\":"@ + signed_decimal(delta_x as int)
            + ",\"delta_y\":"@ + signed_decimal(delta_y as int),
    }
}

/// The pointer position as a JSON value; `null` where none was seen yet.
pub open spec fn position_json(pointer: Option<Position>) -> Seq<char> {
    match pointer {
        Some(at) => "{\"x\":"@ + signed_decimal(at.x as int) + ",\"y\":"@ + signed_decimal(
            at.y as int,
        ) + "}"@,
        None => "null"@,
    }
}

/// The name as a JSON value, given its string literal; `null` where the event
/// has no name.
pub open spec fn name_json(literal: Option<Seq<char>>) -> Seq<char> {
    match literal {
        Some(text) => text,
        None => "null"@,
    }
}

/// The record of an event of kind `kind` at `timestamp`, with the pointer
/// last seen at `pointer` and the name's JSON string literal `literal`.
pub open spec fn record_json(
    pointer: Option<Position>,
    timestamp: u128,
    literal: Option<Seq<char>>,
    kind: EventKind,
) -> Seq<char> {
    "{\"type\":\""@ + kind_tag(kind) + "\",\"timestamp\":"@ + decimal(timestamp as nat)
        + ",\"name\":"@ + name_json(literal) + kind_fields(kind) + ",\"position\":"@
        + position_json(pointer) + "}"@
}

/// The JSON string literal of an event's name, where it has one.
pub open spec fn name_literal(name: Option<String>) -> Option<Seq<char>> {
    match name {
        Some(text) => Some(json_quoted(text@)),
        None => None,
    }
}

fn tag_text(kind: EventKind) -> (text: &'static str)
    ensures
        text@ == kind_tag(kind),
{
    match kind {
        EventKind::MouseMove { .. } => "MouseMove",
        EventKind::ButtonPress(_) => "ButtonPress",
        EventKind::ButtonRelease(_) => "ButtonRelease",
        EventKind::KeyPress(_) => "KeyPress",
        EventKind::KeyRelease(_) => "KeyRelease",
        EventKind::Wheel { .. } => "Wheel",
    }
}

fn button_text(button: Button) -> (text: String)
    ensures
        text@ == button_json(button),
{
    match button {
        Button::Left => String::from_str("\"left\""),
        Button::Right => String::from_str("\"right\""),
        Button::Middle => String::from_str("\"middle\""),
        Button::Unknown(number) => decimal_text(number as u128),
    }
}

fn pair_text(first: &str, a: i64, second: &str, b: i64) -> (text: String)
    ensures
        text@ == first@ + signed_decimal(a as int) + second@ + signed_decimal(b as int),
{
    let mut text = String::from_str(first);
    text.append(signed_decimal_text(a).as_str());
    text.append(second);
    text.append(signed_decimal_text(b).as_str());
    text
}

fn fields_text(kind: EventKind) -> (text: String)
    ensures
        text@ == kind_fields(kind),
{
    match kind {
        EventKind::MouseMove { x, y } => pair_text(",\"x\":", x, ",\"y\":", y),
        EventKind::ButtonPress(button) => String::from_str(",\"button\":").concat(
            button_text(button).as_str(),
        ),
        EventKind::ButtonRelease(button) => String::from_str(",\"button\":").concat(
            button_text(button).as_str(),
        ),
        EventKind::KeyPress(key) => String::from_str(",\"key\":").concat(
            decimal_text(key as u128).as_str(),
        ),
        EventKind::KeyRelease(key) => String::from_str(",\"key\":").concat(
            decimal_text(key as u128).as_str(),
        ),
        EventKind::Wheel { delta_x, delta_y } => pair_text(
            ",\"delta_x\":",
            delta_x,
            ",\"delta_y\":",
            delta_y,
        ),
    }
}

fn position_text(pointer: Option<Position>) -> (text: String)
    ensures
        text@ == position_json(pointer),
{
    match pointer {
        Some(at) => pair_text("{\"x\":", at.x, ",\"y\":", at.y).concat("}"),
        None => String::from_str("null"),
    }
}

/// Writes the record of `event`, with the pointer last seen at `pointer`.
/// `literal` is the JSON string literal of the event's name, or `None` for an
/// event without a name.
pub fn render_record(pointer: Option<Position>, event: &InputEvent, literal: Option<String>) -> (json:
    String)
    ensures
        json@ == record_json(
            pointer,
            event.timestamp,
            match literal {
                Some(text) => Some(text@),
                None => None,
            },
            event.kind,
        ),
{
    let mut json = String::from_str("{\"type\":\"");
    json.append(tag_text(event.kind));
    json.append("\",\"timestamp\":");
    json.append(decimal_text(event.timestamp).as_str());
    json.append(",\"name\":");
    match literal {
        Some(text) => json.append(text.as_str()),
        None => json.append("null"),
    }
    json.append(fields_text(event.kind).as_str());
    json.append(",\"position\":");
    json.append(position_text(pointer).as_str());
    json.append("}");
    json
}

/// What becomes of a name once its quoting has been tried: the literal where
/// it was made, an error where it was not.
pub fn literal_from(quoted: Result<String, serde_json::Error>) -> (literal: Result<
    Option<String>,
    RecordError,
>)
    ensures
        match quoted {
            Ok(text) => literal == Ok::<Option<String>, RecordError>(Some(text)),
            Err(_) => literal == Err::<Option<String>, RecordError>(RecordError::NameNotEncoded),
        },
{
    match quoted {
        Ok(text) => Ok(Some(text)),
        Err(_) => Err(RecordError::NameNotEncoded),
    }
}

/// The JSON string literal of an event's name, and `Ok(None)` for an event
/// without a name. Quoting succeeds for every name, so the result is never an
/// error.
pub fn quote_name(name: &Option<String>) -> (literal: Result<Option<String>, RecordError>)
    ensures
        *name is None ==> literal matches Ok(None),
        *name is Some ==> (literal matches Ok(Some(text)) && Some(text@) == name_literal(*name)),
{
    match name {
        Some(text) => literal_from(quote_text(text.as_str())),
        None => Ok(None),
    }
}

/// The record of `event`, with the pointer last seen at `pointer`. Every
/// event has a record, so the result is never an error.
pub fn record_of(pointer: Option<Position>, event: &InputEvent) -> (json: Result<
    String,
    RecordError,
>)
    ensures
        json matches Ok(text) && text@ == record_json(
            pointer,
            event.timestamp,
            name_literal(event.name),
            event.kind,
        ),
{
    match quote_name(&event.name) {
        Ok(literal) => Ok(render_record(pointer, event, literal)),
        Err(error) => Err(error),
    }
}

} // verus!
