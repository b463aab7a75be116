//! The failures of an export, one variant for each cause.

use crate::step::Step;
use vstd::prelude::*;
use vstd::string::*;

verus! {

/// Why an export failed.
#[derive(Debug, PartialEq, Eq)]
pub enum ExportError {
    /// A required input was empty.
    EmptyField { field_name: String },
    /// The request could not be sent, or the response could not be read.
    Transport { context: String },
    /// The server answered with a status other than success.
    HttpStatus { label: String, status: u16, body: String },
    /// The server answered with something that is not declared as JSON.
    NonJson { label: String, content_type: String, body: String },
    /// The body is not a JSON object of the expected shape; `cause` says in what.
    JsonParse { label: String, cause: String },
    /// The answer to a step has no usable value for the field that the step is after.
    MissingField { step: Step },
    /// The device secret was asked for before a bearer token was obtained.
    BearerTokenNotSet,
    /// The device secret is not hexadecimal text.
    InvalidHex,
}

/// An `ExportError` with each text as a sequence of characters.
pub enum ExportErrorView {
    EmptyField { field_name: Seq<char> },
    Transport { context: Seq<char> },
    HttpStatus { label: Seq<char>, status: u16, body: Seq<char> },
    NonJson { label: Seq<char>, content_type: Seq<char>, body: Seq<char> },
    JsonParse { label: Seq<char>, cause: Seq<char> },
    MissingField { step: Step },
    BearerTokenNotSet,
    InvalidHex,
}

impl View for ExportError {
    type V = ExportErrorView;

    open spec fn view(&self) -> ExportErrorView {
        match *self {
            ExportError::EmptyField { field_name } => ExportErrorView::EmptyField {
                field_name: field_name@,
            },
            ExportError::Transport { context } => ExportErrorView::Transport { context: context@ },
            ExportError::HttpStatus { label, status, body } => ExportErrorView::HttpStatus {
                label: label@,
                status,
                body: body@,
            },
            ExportError::NonJson { label, content_type, body } => ExportErrorView::NonJson {
                label: label@,
                content_type: content_type@,
                body: body@,
            },
            ExportError::JsonParse { label, cause } => ExportErrorView::JsonParse {
                label: label@,
                cause: cause@,
            },
            ExportError::MissingField { step } => ExportErrorView::MissingField { step },
            ExportError::BearerTokenNotSet => ExportErrorView::BearerTokenNotSet,
            ExportError::InvalidHex => ExportErrorView::InvalidHex,
        }
    }
}

/// The character of a decimal digit.
pub open spec fn digit_char(d: nat) -> char {
    ((48 + d) as u8) as char
}

/// The decimal numeral of `n`, without leading zeros.
pub open spec fn decimal(n: nat) -> Seq<char>
    decreases n,
{
    if n < 10 {
        seq![digit_char(n)]
    } else {
        decimal(n / 10).push(digit_char(n % 10))
    }
}

fn digit_text(d: u16) -> (r: &'static str)
    requires
        d < 10,
    ensures
        r@ == seq![digit_char(d as nat)],
{
    proof {
        reveal_strlit("0");
        reveal_strlit("1");
        reveal_strlit("2");
        reveal_strlit("3");
        reveal_strlit("4");
        reveal_strlit("5");
        reveal_strlit("6");
        reveal_strlit("7");
        reveal_strlit("8");
        reveal_strlit("9");
    }
    let r = if d == 0 {
        "0"
    } else if d == 1 {
        "1"
    } else if d == 2 {
        "2"
    } else if d == 3 {
        "3"
    } else if d == 4 {
        "4"
    } else if d == 5 {
        "5"
    } else if d == 6 {
        "6"
    } else if d == 7 {
        "7"
    } else if d == 8 {
        "8"
    } else {
        "9"
    };
    assert(r@ =~= seq![digit_char(d as nat)]);
    r
}

/// Writes a status code as a decimal numeral.
pub fn decimal_text(n: u16) -> (r: String)
    ensures
        r@ == decimal(n as nat),
    decreases n,
{
    if n < 10 {
        String::from_str(digit_text(n))
    } else {
        let mut text = decimal_text(n / 10);
        let ghost before = text@;
        text.append(digit_text(n % 10));
        assert(text@ =~= before.push(digit_char((n % 10) as nat)));
        text
    }
}

/// The message of a failure, as one line of text.
pub open spec fn message_text(e: ExportErrorView) -> Seq<char> {
    match e {
        ExportErrorView::EmptyField { field_name } => field_name + " is required"@,
        ExportErrorView::Transport { context } => context,
        ExportErrorView::HttpStatus { label, status, body } => label + " failed with HTTP "@
            + decimal(status as nat) + ". Response: "@ + body,
        ExportErrorView::NonJson { label, content_type, body } => label
            + " returned non-JSON content (Content-Type: "@ + content_type + "). Response: "@
            + body,
        ExportErrorView::JsonParse { label, .. } => "failed to parse "@ + label
            + " JSON response"@,
        ExportErrorView::MissingField { step } => step.missing_text(),
        ExportErrorView::BearerTokenNotSet =>
            "bearer token not set; SSO token exchange must run first"@,
        ExportErrorView::InvalidHex => "deviceSecret is not valid hex"@,
    }
}

/// What lies behind a failure: the parser's or the rules' own words on a body
/// that does not have the expected shape.
pub open spec fn cause_text(e: ExportErrorView) -> Option<Seq<char>> {
    match e {
        ExportErrorView::JsonParse { cause, .. } => Some(cause),
        _ => None,
    }
}

impl ExportError {
    /// Renders the failure for the user.
    pub fn message(&self) -> (r: String)
        ensures
            r@ == message_text(self@),
    {
        match self {
            ExportError::EmptyField { field_name } => {
                let mut text = String::from_str(field_name.as_str());
                text.append(" is required");
                text
            },
            ExportError::Transport { context } => String::from_str(context.as_str()),
            ExportError::HttpStatus { label, status, body } => {
                let mut text = String::from_str(label.as_str());
                text.append(" failed with HTTP ");
                text.append(decimal_text(*status).as_str());
                text.append(". Response: ");
                text.append(body.as_str());
                text
            },
            ExportError::NonJson { label, content_type, body } => {
                let mut text = String::from_str(label.as_str());
                text.append(" returned non-JSON content (Content-Type: ");
                text.append(content_type.as_str());
                text.append("). Response: ");
                text.append(body.as_str());
                text
            },
            ExportError::JsonParse { label, .. } => {
                let mut text = String::from_str("failed to parse ");
                text.append(label.as_str());
                text.append(" JSON response");
                text
            },
            ExportError::MissingField { step } => match step {
                Step::Exchange => String::from_str("SSO response did not include access_token"),
                Step::Restore => String::from_str("restore response missing deviceSecret"),
            },
            ExportError::BearerTokenNotSet => String::from_str(
                "bearer token not set; SSO token exchange must run first",
            ),
            ExportError::InvalidHex => String::from_str("deviceSecret is not valid hex"),
        }
    }

    /// What lies behind the failure, where it has a cause of its own to tell.
    pub fn cause(&self) -> (r: Option<String>)
        ensures
            match r {
                Some(text) => cause_text(self@) == Some(text@),
                None => cause_text(self@) is None,
            },
    {
        match self {
            ExportError::JsonParse { cause, .. } => Some(cause.clone()),
            _ => None,
        }
    }

    /// The failure of a step whose request could not be sent to `url`.
    pub fn unsent(step: Step, url: &str) -> (r: ExportError)
        ensures
            r@ == (ExportErrorView::Transport { context: step.unsent_text(url@) }),
    {
        match step {
            Step::Exchange => ExportError::Transport {
                context: String::from_str("request failed for Battle.net SSO token exchange"),
            },
            Step::Restore => {
                let mut context = String::from_str("request failed for ");
                context.append(url);
                ExportError::Transport { context }
            },
        }
    }

    /// The failure of a step whose answer arrived but could not be read.
    pub fn unread() -> (r: ExportError)
        ensures
            r@ == (ExportErrorView::Transport { context: "failed reading response body"@ }),
    {
        ExportError::Transport { context: String::from_str("failed reading response body") }
    }
}

} // verus!
