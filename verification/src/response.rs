//! What a server answered, and the rules by which an answer is accepted:
//! status first, then the declared content type, then the JSON body.

use crate::error::{ExportError, ExportErrorView};
use crate::step::Step;
use crate::text::{
    display_content_type, is_json_content_type, mentions_json, shown_content_type, trim, trimmed,
    truncate, truncated,
};
use vstd::prelude::*;
use vstd::string::*;

verus! {

/// An HTTP response as the rules read it. An absent content type is the empty text.
#[derive(Debug)]
pub struct HttpResponse {
    /// The status code.
    pub status: u16,
    /// The value of the `Content-Type` header.
    pub content_type: String,
    /// The whole body, as text.
    pub body: String,
}

/// What looking a field up in a JSON text gave.
#[derive(Debug, PartialEq, Eq)]
pub enum JsonField {
    /// The text is not JSON; the parser's words on it.
    Malformed(String),
    /// The text is JSON, but not an object.
    NotObject,
    /// The object has no such field.
    Absent,
    /// The field is `null`.
    Null,
    /// The field is neither a string nor `null`.
    Mistyped,
    /// The field is this string.
    Text(String),
}

/// A `JsonField` with its text as a sequence of characters.
pub enum JsonFieldView {
    Malformed(Seq<char>),
    NotObject,
    Absent,
    Null,
    Mistyped,
    Text(Seq<char>),
}

impl View for JsonField {
    type V = JsonFieldView;

    open spec fn view(&self) -> JsonFieldView {
        match *self {
            JsonField::Malformed(cause) => JsonFieldView::Malformed(cause@),
            JsonField::NotObject => JsonFieldView::NotObject,
            JsonField::Absent => JsonFieldView::Absent,
            JsonField::Null => JsonFieldView::Null,
            JsonField::Mistyped => JsonFieldView::Mistyped,
            JsonField::Text(text) => JsonFieldView::Text(text@),
        }
    }
}

/// The value of a member of a JSON object, as far as the rules read it.
#[derive(Debug, PartialEq, Eq)]
pub enum JsonMember {
    /// `null`.
    Null,
    /// A string.
    Text(String),
    /// A number, a boolean, an array or an object.
    Other,
}

/// A `JsonMember` with its text as a sequence of characters.
pub enum JsonMemberView {
    Null,
    Text(Seq<char>),
    Other,
}

impl View for JsonMember {
    type V = JsonMemberView;

    open spec fn view(&self) -> JsonMemberView {
        match *self {
            JsonMember::Null => JsonMemberView::Null,
            JsonMember::Text(text) => JsonMemberView::Text(text@),
            JsonMember::Other => JsonMemberView::Other,
        }
    }
}

/// A JSON text as the rules read it: the members of its object, each with its key.
#[derive(Debug, PartialEq, Eq)]
pub enum JsonDocument {
    /// The text is not JSON; the parser's words on it.
    Malformed(String),
    /// The text is JSON, but not an object.
    NotObject,
    /// The text is an object with these members.
    Object(Vec<(String, JsonMember)>),
}

/// A `JsonDocument` with each text as a sequence of characters.
pub enum JsonDocumentView {
    Malformed(Seq<char>),
    NotObject,
    Object(Seq<(Seq<char>, JsonMemberView)>),
}

/// The members of an object with each text as a sequence of characters.
pub open spec fn members_view(members: Seq<(String, JsonMember)>) -> Seq<
    (Seq<char>, JsonMemberView),
> {
    Seq::new(members.len(), |i: int| (members[i].0@, members[i].1@))
}

impl View for JsonDocument {
    type V = JsonDocumentView;

    open spec fn view(&self) -> JsonDocumentView {
        match *self {
            JsonDocument::Malformed(cause) => JsonDocumentView::Malformed(cause@),
            JsonDocument::NotObject => JsonDocumentView::NotObject,
            JsonDocument::Object(members) => JsonDocumentView::Object(members_view(members@)),
        }
    }
}

/// What `serde_json` makes of the text `body`.
pub uninterp spec fn json_document(body: Seq<char>) -> JsonDocumentView;

/// Parses `body` with `serde_json::from_str` into a `serde_json::Value` and hands
/// out the members of its object, or the parser's error as text. Believed of
/// it: the outcome depends on the text alone. The parser keeps one value for a
/// key that the text repeats, so such a text is an object like any other here.
#[verifier::external_body]
fn read_json_document(body: &str) -> (r: JsonDocument)
    ensures
        r@ == json_document(body@),
{
    match serde_json::from_str::<serde_json::Value>(body) {
        Ok(serde_json::Value::Object(members)) => JsonDocument::Object(
            members.into_iter().map(|(key, value)| (key, match value {
                serde_json::Value::Null => JsonMember::Null,
                serde_json::Value::String(text) => JsonMember::Text(text),
                _ => JsonMember::Other,
            })).collect(),
        ),
        Ok(_) => JsonDocument::NotObject,
        Err(e) => JsonDocument::Malformed(e.to_string()),
    }
}

/// The first member with the key `field`, if there is one.
pub open spec fn member_of(members: Seq<(Seq<char>, JsonMemberView)>, field: Seq<char>) -> Option<
    JsonMemberView,
>
    decreases members.len(),
{
    if members.len() == 0 {
        None
    } else if members[0].0 == field {
        Some(members[0].1)
    } else {
        member_of(members.drop_first(), field)
    }
}

/// What looking `field` up in a document gives.
pub open spec fn field_lookup(document: JsonDocumentView, field: Seq<char>) -> JsonFieldView {
    match document {
        JsonDocumentView::Malformed(cause) => JsonFieldView::Malformed(cause),
        JsonDocumentView::NotObject => JsonFieldView::NotObject,
        JsonDocumentView::Object(members) => match member_of(members, field) {
            None => JsonFieldView::Absent,
            Some(JsonMemberView::Null) => JsonFieldView::Null,
            Some(JsonMemberView::Text(text)) => JsonFieldView::Text(text),
            Some(JsonMemberView::Other) => JsonFieldView::Mistyped,
        },
    }
}

/// Looks `field` up among the members of a document.
pub fn find_field(document: &JsonDocument, field: &str) -> (r: JsonField)
    ensures
        r@ == field_lookup(document@, field@),
{
    match document {
        JsonDocument::Malformed(cause) => JsonField::Malformed(cause.clone()),
        JsonDocument::NotObject => JsonField::NotObject,
        JsonDocument::Object(members) => {
            let wanted = field.to_owned();
            let ghost all = members_view(members@);
            let mut i: usize = 0;
            assert(all.skip(0) =~= all);
            while i < members.len()
                invariant
                    i <= members.len(),
                    all == members_view(members@),
                    document@ == JsonDocumentView::Object(all),
                    wanted@ == field@,
                    member_of(all, field@) == member_of(all.skip(i as int), field@),
                decreases members.len() - i,
            {
                proof {
                    let rest = all.skip(i as int);
                    assert(rest[0] == all[i as int]);
                    assert(rest.drop_first() =~= all.skip(i + 1));
                }
                if members[i].0 == wanted {
                    assert(all[i as int] == (members@[i as int].0@, members@[i as int].1@));
                    return match &members[i].1 {
                        JsonMember::Null => JsonField::Null,
                        JsonMember::Text(text) => JsonField::Text(text.clone()),
                        JsonMember::Other => JsonField::Mistyped,
                    };
                }
                i += 1;
            }
            JsonField::Absent
        },
    }
}

/// Whether a status is one of success: 200 to 299.
pub open spec fn is_success_status(status: u16) -> bool {
    200 <= status < 300
}

/// The failure that status and content type call for, if any. The status is
/// judged first, so that an error page is reported with its status.
pub open spec fn screening(
    status: u16,
    content_type: Seq<char>,
    body: Seq<char>,
    label: Seq<char>,
    body_limit: nat,
) -> Option<ExportErrorView> {
    if !is_success_status(status) {
        Some(ExportErrorView::HttpStatus { label, status, body: truncated(body, body_limit) })
    } else if !mentions_json(content_type) {
        Some(
            ExportErrorView::NonJson {
                label,
                content_type: shown_content_type(content_type),
                body: truncated(body, body_limit),
            },
        )
    } else {
        None
    }
}

/// Judges status and content type of a response, in that order.
pub fn screen_response(response: &HttpResponse, label: &str, body_limit: usize) -> (r: Result<
    (),
    ExportError,
>)
    ensures
        match r {
            Ok(_) => screening(
                response.status,
                response.content_type@,
                response.body@,
                label@,
                body_limit as nat,
            ) is None,
            Err(e) => screening(
                response.status,
                response.content_type@,
                response.body@,
                label@,
                body_limit as nat,
            ) == Some(e@),
        },
{
    if !(200 <= response.status && response.status < 300) {
        return Err(
            ExportError::HttpStatus {
                label: label.to_owned(),
                status: response.status,
                body: truncate(response.body.as_str(), body_limit),
            },
        );
    }
    if !is_json_content_type(response.content_type.as_str()) {
        return Err(
            ExportError::NonJson {
                label: label.to_owned(),
                content_type: display_content_type(response.content_type.as_str()).to_owned(),
                body: truncate(response.body.as_str(), body_limit),
            },
        );
    }
    Ok(())
}

/// The optional text that a looked-up field stands for: none where the field is
/// absent or `null`, a parse failure where the body has another shape.
pub open spec fn parsed_field_view(lookup: JsonFieldView, label: Seq<char>) -> Result<
    Option<Seq<char>>,
    ExportErrorView,
> {
    match lookup {
        JsonFieldView::Text(text) => Ok(Some(text)),
        JsonFieldView::Absent => Ok(None),
        JsonFieldView::Null => Ok(None),
        JsonFieldView::Malformed(cause) => Err(ExportErrorView::JsonParse { label, cause }),
        JsonFieldView::NotObject => Err(
            ExportErrorView::JsonParse { label, cause: "expected a JSON object"@ },
        ),
        JsonFieldView::Mistyped => Err(
            ExportErrorView::JsonParse { label, cause: "expected a string or null"@ },
        ),
    }
}

/// A result of an optional text, with each text as a sequence of characters.
pub open spec fn optional_text_view(r: Result<Option<String>, ExportError>) -> Result<
    Option<Seq<char>>,
    ExportErrorView,
> {
    match r {
        Ok(Some(text)) => Ok(Some(text@)),
        Ok(None) => Ok(None),
        Err(e) => Err(e@),
    }
}

/// A result of a text, with each text as a sequence of characters.
pub open spec fn text_view(r: Result<String, ExportError>) -> Result<Seq<char>, ExportErrorView> {
    match r {
        Ok(text) => Ok(text@),
        Err(e) => Err(e@),
    }
}

/// Turns a looked-up field into the optional text of the expected shape.
pub fn parsed_field(lookup: JsonField, label: &str) -> (r: Result<Option<String>, ExportError>)
    ensures
        optional_text_view(r) == parsed_field_view(lookup@, label@),
{
    match lookup {
        JsonField::Text(text) => Ok(Some(text)),
        JsonField::Absent => Ok(None),
        JsonField::Null => Ok(None),
        JsonField::Malformed(cause) => Err(ExportError::JsonParse { label: label.to_owned(), cause }),
        JsonField::NotObject => Err(
            ExportError::JsonParse {
                label: label.to_owned(),
                cause: String::from_str("expected a JSON object"),
            },
        ),
        JsonField::Mistyped => Err(
            ExportError::JsonParse {
                label: label.to_owned(),
                cause: String::from_str("expected a string or null"),
            },
        ),
    }
}

/// What a response yields for a field, given what the lookup in its body gave.
pub open spec fn response_field(
    status: u16,
    content_type: Seq<char>,
    body: Seq<char>,
    label: Seq<char>,
    body_limit: nat,
    lookup: JsonFieldView,
) -> Result<Option<Seq<char>>, ExportErrorView> {
    match screening(status, content_type, body, label, body_limit) {
        Some(e) => Err(e),
        None => parsed_field_view(lookup, label),
    }
}

/// Validates a response and reads the optional string `field` from its JSON
/// body. The body is parsed only once status and content type have passed.
pub fn parse_json_response(
    response: &HttpResponse,
    label: &str,
    field: &str,
    body_limit: usize,
) -> (r: Result<Option<String>, ExportError>)
    ensures
        optional_text_view(r) == response_field(
            response.status,
            response.content_type@,
            response.body@,
            label@,
            body_limit as nat,
            field_lookup(json_document(response.body@), field@),
        ),
{
    match screen_response(response, label, body_limit) {
        Err(e) => Err(e),
        Ok(_) => {
            let document = read_json_document(response.body.as_str());
            parsed_field(find_field(&document, field), label)
        },
    }
}

/// The text that the field of a step yields: its value trimmed, or a failure
/// where there is none or nothing is left of it.
pub open spec fn required_text_view(value: Option<Seq<char>>, step: Step) -> Result<
    Seq<char>,
    ExportErrorView,
> {
    match value {
        Some(text) if trimmed(text).len() > 0 => Ok(trimmed(text)),
        _ => Err(ExportErrorView::MissingField { step }),
    }
}

/// Trims the field of a step and insists that something is left.
pub fn required_text(value: Option<String>, step: Step) -> (r: Result<String, ExportError>)
    ensures
        text_view(r) == required_text_view(
            match value {
                Some(text) => Some(text@),
                None => None,
            },
            step,
        ),
{
    match value {
        Some(text) => {
            let kept = trim(text.as_str());
            if kept.is_empty() {
                Err(ExportError::MissingField { step })
            } else {
                Ok(kept.to_owned())
            }
        },
        None => Err(ExportError::MissingField { step }),
    }
}

/// What the answer to a step yields, given what the lookup in its body gave.
pub open spec fn response_text(
    status: u16,
    content_type: Seq<char>,
    body: Seq<char>,
    step: Step,
    lookup: JsonFieldView,
) -> Result<Seq<char>, ExportErrorView> {
    match response_field(
        status,
        content_type,
        body,
        step.label_text(),
        step.body_limit_value(),
        lookup,
    ) {
        Ok(value) => required_text_view(value, step),
        Err(e) => Err(e),
    }
}

/// What the answer to a step yields, its body read as the parser reads it.
pub open spec fn step_outcome(
    status: u16,
    content_type: Seq<char>,
    body: Seq<char>,
    step: Step,
) -> Result<Seq<char>, ExportErrorView> {
    response_text(
        status,
        content_type,
        body,
        step,
        field_lookup(json_document(body), step.field_text()),
    )
}

/// Validates the answer to a step and reads the step's field from its JSON body.
pub fn read_required_text(response: &HttpResponse, step: Step) -> (r: Result<String, ExportError>)
    ensures
        text_view(r) == step_outcome(
            response.status,
            response.content_type@,
            response.body@,
            step,
        ),
{
    match parse_json_response(response, step.label(), step.field(), step.body_limit()) {
        Ok(value) => required_text(value, step),
        Err(e) => Err(e),
    }
}

} // verus!
