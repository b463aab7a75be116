//! The exchange client: what it sends in each of its two steps, and what it
//! makes of each answer. The bearer token of the first step is kept for the
//! second, which cannot be prepared without it.

use crate::error::{ExportError, ExportErrorView};
use crate::response::{read_required_text, step_outcome, text_view, HttpResponse};
use crate::session::{normalize_session_token, normalized_session_token};
use crate::step::Step;
use vstd::prelude::*;
use vstd::string::*;

verus! {

/// Where the token exchange is posted.
pub const SSO_URL: &'static str = "https://oauth.battle.net/oauth/sso";

/// The root of the authenticator service.
pub const AUTH_BASE_URL: &'static str =
    "https://authenticator-rest-api.bnet-identity.blizzard.net/v1/authenticator";

/// The client identifier that the token exchange names.
pub const CLIENT_ID: &'static str = "baedda12fe054e4abdfc3ad7bdea970a";

/// The `User-Agent` header of every request.
pub const USER_AGENT: &'static str = "bnet-auth-export/0.1";

/// The `Accept` header of every request.
pub const ACCEPT: &'static str = "application/json";

/// The `Content-Type` header of the token exchange.
pub const SSO_CONTENT_TYPE: &'static str = "application/x-www-form-urlencoded; charset=utf-8";

/// The form that the token exchange posts to `SSO_URL`.
#[derive(Debug)]
pub struct SsoRequest {
    /// The field `client_id`.
    pub client_id: String,
    /// The field `grant_type`.
    pub grant_type: String,
    /// The field `scope`.
    pub scope: String,
    /// The field `token`: the session token, normalized.
    pub token: String,
}

/// The JSON request that asks for the device secret.
#[derive(Debug)]
pub struct RestoreRequest {
    /// Where it is posted.
    pub url: String,
    /// The value of the `Authorization` header.
    pub authorization: String,
    /// The field `serial` of the body.
    pub serial: String,
    /// The field `restoreCode` of the body.
    pub restore_code: String,
}

/// The client's state: whether the token exchange has given a bearer token yet.
#[derive(Debug)]
pub struct ApiClient {
    bearer_token: Option<String>,
}

/// The address of the restore call.
pub open spec fn restore_url() -> Seq<char> {
    AUTH_BASE_URL@ + "/device"@
}

/// The `Authorization` header that carries a bearer token.
pub open spec fn bearer_header(token: Seq<char>) -> Seq<char> {
    "Bearer "@ + token
}

impl ApiClient {
    /// The bearer token, once the token exchange has succeeded.
    pub closed spec fn bearer(&self) -> Option<Seq<char>> {
        match self.bearer_token {
            Some(token) => Some(token@),
            None => None,
        }
    }

    /// A client that has no bearer token yet.
    pub fn new() -> (r: Self)
        ensures
            r.bearer() is None,
    {
        ApiClient { bearer_token: None }
    }

    /// Whether the token exchange has succeeded.
    pub fn is_authenticated(&self) -> (r: bool)
        ensures
            r == self.bearer() is Some,
    {
        self.bearer_token.is_some()
    }

    /// The form of the token exchange for a session token as the user gave it.
    pub fn sso_request(&self, session_token: &str) -> (r: SsoRequest)
        ensures
            r.client_id@ == CLIENT_ID@,
            r.grant_type@ == "client_sso"@,
            r.scope@ == "auth.authenticator"@,
            r.token@ == normalized_session_token(session_token@),
    {
        SsoRequest {
            client_id: CLIENT_ID.to_owned(),
            grant_type: "client_sso".to_owned(),
            scope: "auth.authenticator".to_owned(),
            token: normalize_session_token(session_token),
        }
    }

    /// Takes the answer to the token exchange. On success the trimmed
    /// `access_token` becomes the bearer token; on failure the client is unchanged.
    pub fn exchange_session_token(&mut self, response: &HttpResponse) -> (r: Result<
        (),
        ExportError,
    >)
        ensures
            match step_outcome(
                response.status,
                response.content_type@,
                response.body@,
                Step::Exchange,
            ) {
                Ok(token) => r is Ok && final(self).bearer() == Some(token) && token.len() > 0,
                Err(e) => r is Err && r->Err_0@ == e && final(self).bearer() == old(self).bearer(),
            },
    {
        match read_required_text(response, Step::Exchange) {
            Ok(token) => {
                self.bearer_token = Some(token);
                Ok(())
            },
            Err(e) => Err(e),
        }
    }

    /// The restore call for a serial and a restore code, both passed on as they
    /// are. Without a bearer token there is no request to send.
    pub fn restore_request(&self, serial: &str, restore_code: &str) -> (r: Result<
        RestoreRequest,
        ExportError,
    >)
        ensures
            match self.bearer() {
                Some(token) => r is Ok && r->Ok_0.url@ == restore_url() && r->Ok_0.authorization@
                    == bearer_header(token) && r->Ok_0.serial@ == serial@ && r->Ok_0.restore_code@
                    == restore_code@,
                None => r is Err && r->Err_0@ == ExportErrorView::BearerTokenNotSet,
            },
    {
        match &self.bearer_token {
            Some(token) => {
                let mut url = String::from_str(AUTH_BASE_URL);
                url.append("/device");
                let mut authorization = String::from_str("Bearer ");
                authorization.append(token.as_str());
                Ok(
                    RestoreRequest {
                        url,
                        authorization,
                        serial: serial.to_owned(),
                        restore_code: restore_code.to_owned(),
                    },
                )
            },
            None => Err(ExportError::BearerTokenNotSet),
        }
    }

    /// Takes the answer to the restore call and gives the trimmed `deviceSecret`.
    /// Without a bearer token it fails whatever the answer holds.
    pub fn restore_device_secret(&self, response: &HttpResponse) -> (r: Result<
        String,
        ExportError,
    >)
        ensures
            self.bearer() is None ==> r is Err && r->Err_0@ == ExportErrorView::BearerTokenNotSet,
            self.bearer() is Some ==> text_view(r) == step_outcome(
                response.status,
                response.content_type@,
                response.body@,
                Step::Restore,
            ),
    {
        if self.bearer_token.is_none() {
            return Err(ExportError::BearerTokenNotSet);
        }
        read_required_text(response, Step::Restore)
    }
}

} // verus!
