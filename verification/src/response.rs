//! Replies, and their text on the wire.

use vstd::prelude::*;

verus! {

/// What came of one command.
#[derive(Debug, Clone, PartialEq, Eq)]
pub enum Response {
    /// An insert was carried out.
    Inserted,
    /// An update was carried out.
    Updated,
    /// A get found this value.
    Found(String),
    /// A get found no entry for its key.
    KeyNotFound,
    /// The line stated no command.
    InvalidCommand,
}

/// A reply over sequences of characters, as the contracts speak of it.
pub enum ResponseView {
    Inserted,
    Updated,
    Found(Seq<char>),
    KeyNotFound,
    InvalidCommand,
}

impl View for Response {
    type V = ResponseView;

    open spec fn view(&self) -> ResponseView {
        match self {
            Response::Inserted => ResponseView::Inserted,
            Response::Updated => ResponseView::Updated,
            Response::Found(v) => ResponseView::Found(v@),
            Response::KeyNotFound => ResponseView::KeyNotFound,
            Response::InvalidCommand => ResponseView::InvalidCommand,
        }
    }
}

/// Whether a reply reports success.
pub open spec fn succeeded(r: ResponseView) -> bool {
    r is Inserted || r is Updated || r is Found
}

/// The text of the member `status`.
pub open spec fn status_text(r: ResponseView) -> Seq<char> {
    if succeeded(r) {
        "success"@
    } else {
        "error"@
    }
}

/// The name of the member that follows `status`.
pub open spec fn detail_name(r: ResponseView) -> Seq<char> {
    match r {
        ResponseView::Inserted | ResponseView::Updated => "action"@,
        ResponseView::Found(_) => "value"@,
        ResponseView::KeyNotFound | ResponseView::InvalidCommand => "message"@,
    }
}

/// The text of the member that follows `status`.
pub open spec fn detail_text(r: ResponseView) -> Seq<char> {
    match r {
        ResponseView::Inserted => "inserted"@,
        ResponseView::Updated => "updated"@,
        ResponseView::Found(v) => v,
        ResponseView::KeyNotFound => "key not found"@,
        ResponseView::InvalidCommand => "invalid command"@,
    }
}

/// The compact JSON text of an object with two members, both strings: first
/// the member named `first` with the text `first_text`, then the member named
/// `second` with the text `second_text`. Where the two names are the same, the
/// object has that one member, with the second text. It is what `serde_json`
/// writes for such a value; the escaping of names and texts is its own.
pub uninterp spec fn json_object_text(
    first: Seq<char>,
    first_text: Seq<char>,
    second: Seq<char>,
    second_text: Seq<char>,
) -> Seq<char>;

/// The text of a reply on the wire: an object whose first member is `status`
/// and whose second member depends on the reply. Nothing follows the object.
pub open spec fn encoded(r: ResponseView) -> Seq<char> {
    json_object_text("status"@, status_text(r), detail_name(r), detail_text(r))
}

/// Builds a `serde_json::Value::Object` by `serde_json::Map::insert` of the
/// two members in the order given, each text as a `Value::String`, and has
/// `serde_json` write it through the `Display` of `Value` (`to_string`).
/// Trusted: the text depends on the four arguments alone, and is what
/// `json_object_text` names. Writing a value made of strings does not fail.
#[verifier::external_body]
fn object_text(first: &str, first_text: &str, second: &str, second_text: &str) -> (text: String)
    ensures
        text@ == json_object_text(first@, first_text@, second@, second_text@),
{
    let mut members = serde_json::Map::new();
    members.insert(first.to_string(), serde_json::Value::String(first_text.to_string()));
    members.insert(second.to_string(), serde_json::Value::String(second_text.to_string()));
    serde_json::Value::Object(members).to_string()
}

impl Response {
    /// Whether the reply reports success.
    pub fn is_success(&self) -> (b: bool)
        ensures
            b == succeeded(self@),
    {
        match self {
            Response::Inserted | Response::Updated | Response::Found(_) => true,
            Response::KeyNotFound | Response::InvalidCommand => false,
        }
    }
}

/// Writes a reply as the text that goes on the wire.
pub fn encode(r: &Response) -> (text: String)
    ensures
        text@ == encoded(r@),
{
    let status = if r.is_success() {
        "success"
    } else {
        "error"
    };
    match r {
        Response::Inserted => object_text("status", status, "action", "inserted"),
        Response::Updated => object_text("status", status, "action", "updated"),
        Response::Found(v) => object_text("status", status, "value", v.as_str()),
        Response::KeyNotFound => object_text("status", status, "message", "key not found"),
        Response::InvalidCommand => object_text("status", status, "message", "invalid command"),
    }
}

} // verus!
