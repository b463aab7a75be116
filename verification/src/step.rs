//! The two steps of an export, and what is fixed for each of them.

use vstd::prelude::*;

verus! {

/// A step of the export: the token exchange, or the restore call.
#[derive(Debug, Clone, Copy, PartialEq, Eq)]
pub enum Step {
    /// The session token is exchanged for a bearer token.
    Exchange,
    /// The device secret is asked for.
    Restore,
}

impl Step {
    /// How failures name the step.
    pub open spec fn label_text(self) -> Seq<char> {
        match self {
            Step::Exchange => "SSO token exchange"@,
            Step::Restore => "restore request"@,
        }
    }

    /// The field of the answer that the step is after.
    pub open spec fn field_text(self) -> Seq<char> {
        match self {
            Step::Exchange => "access_token"@,
            Step::Restore => "deviceSecret"@,
        }
    }

    /// How many characters of a body a failure of the step quotes.
    pub open spec fn body_limit_value(self) -> nat {
        match self {
            Step::Exchange => 500,
            Step::Restore => 1000,
        }
    }

    /// What is said where the answer lacks the field.
    pub open spec fn missing_text(self) -> Seq<char> {
        match self {
            Step::Exchange => "SSO response did not include access_token"@,
            Step::Restore => "restore response missing deviceSecret"@,
        }
    }

    /// What is said where the request could not be sent. The restore call is
    /// named by its address.
    pub open spec fn unsent_text(self, url: Seq<char>) -> Seq<char> {
        match self {
            Step::Exchange => "request failed for Battle.net SSO token exchange"@,
            Step::Restore => "request failed for "@ + url,
        }
    }

    /// How failures name the step.
    pub fn label(self) -> (r: &'static str)
        ensures
            r@ == self.label_text(),
    {
        match self {
            Step::Exchange => "SSO token exchange",
            Step::Restore => "restore request",
        }
    }

    /// The field of the answer that the step is after.
    pub fn field(self) -> (r: &'static str)
        ensures
            r@ == self.field_text(),
    {
        match self {
            Step::Exchange => "access_token",
            Step::Restore => "deviceSecret",
        }
    }

    /// How many characters of a body a failure of the step quotes.
    pub fn body_limit(self) -> (r: usize)
        ensures
            r == self.body_limit_value(),
    {
        match self {
            Step::Exchange => 500,
            Step::Restore => 1000,
        }
    }
}

} // verus!
