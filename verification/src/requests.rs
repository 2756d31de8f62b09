//! The request payloads the HTTP layer hands in, and the decisions the
//! handlers make on them.  The HTTP transport, JSON decoding and database
//! calls stay outside; the precedence of the checks and the chosen answers
//! are decided here.

use crate::auth::hmac_sha256_hex_of;
use crate::message::{MessagePriority, MessageStatus, UserRecord};
use crate::text::{i64_to_decimal, spec_i64_decimal};
use vstd::prelude::*;
use vstd::string::*;

verus! {

/// An account application.
pub struct ApplyRequest {
    pub csrf_token: String,
    pub email: String,
    pub name: String,
    pub recaptcha: String,
}

/// A message submission.
pub struct FormData {
    pub csrf_token: String,
    pub token: Option<String>,
    pub email: String,
    pub name: String,
    pub message: String,
    pub priority: MessagePriority,
}

/// A login by permanent token.
pub struct LoginRequest {
    pub token: String,
}

/// A delivery-status query for one message.
pub struct MessageStatusRequest {
    pub mid: i32,
    pub mid_hash: String,
}

/// A request to resend an account's login link.
pub struct ResendLinkRequest {
    pub csrf_token: String,
    pub email: String,
    pub name: String,
    pub recaptcha: String,
}

impl ApplyRequest {
    /// An empty reCAPTCHA response fails before any verification call.
    pub fn recaptcha_present(&self) -> (r: bool)
        ensures
            r == (self.recaptcha@.len() != 0),
    {
        !self.recaptcha.as_str().is_empty()
    }
}

impl ResendLinkRequest {
    /// An empty reCAPTCHA response fails before any verification call.
    pub fn recaptcha_present(&self) -> (r: bool)
        ensures
            r == (self.recaptcha@.len() != 0),
    {
        !self.recaptcha.as_str().is_empty()
    }
}

/// What the reCAPTCHA verification call came back with: the call itself
/// failed, the service rejected the response (or sent an unreadable answer),
/// or it confirmed it.
#[derive(Clone, Copy, PartialEq, Eq, Structural, Debug)]
pub enum RecaptchaOutcome {
    TransportError,
    Rejected,
    Confirmed,
}

/// How an account application is answered.
#[derive(Clone, Copy, PartialEq, Eq, Structural, Debug)]
pub enum ApplyResponse {
    NotProduction,
    CsrfInvalid,
    RecaptchaFailed,
    RecaptchaError,
    DuplicateEmail,
    Created,
}

pub open spec fn spec_apply_gate(
    allow_modify: bool,
    csrf_ok: bool,
    recaptcha_present: bool,
) -> Option<ApplyResponse> {
    if !allow_modify {
        Some(ApplyResponse::NotProduction)
    } else if !csrf_ok {
        Some(ApplyResponse::CsrfInvalid)
    } else if !recaptcha_present {
        Some(ApplyResponse::RecaptchaFailed)
    } else {
        None
    }
}

/// The early checks of an account application, in their order: outside a
/// production build nothing is written; then the CSRF token must verify;
/// then the reCAPTCHA response must at least be present.  `None` means the
/// application proceeds to verification.
pub fn apply_gate(allow_modify: bool, csrf_ok: bool, recaptcha_present: bool) -> (r: Option<
    ApplyResponse,
>)
    ensures
        r == spec_apply_gate(allow_modify, csrf_ok, recaptcha_present),
{
    if !allow_modify {
        Some(ApplyResponse::NotProduction)
    } else if !csrf_ok {
        Some(ApplyResponse::CsrfInvalid)
    } else if !recaptcha_present {
        Some(ApplyResponse::RecaptchaFailed)
    } else {
        None
    }
}

pub open spec fn spec_apply_verdict(
    recaptcha: RecaptchaOutcome,
    email_is_new: bool,
) -> ApplyResponse {
    match recaptcha {
        RecaptchaOutcome::TransportError => ApplyResponse::RecaptchaError,
        RecaptchaOutcome::Rejected => ApplyResponse::RecaptchaFailed,
        RecaptchaOutcome::Confirmed => {
            if email_is_new {
                ApplyResponse::Created
            } else {
                ApplyResponse::DuplicateEmail
            }
        },
    }
}

/// The answer once verification ran: a failed call is a server error, a
/// rejected response fails, and a confirmed one creates the account unless
/// the email is already taken.  The login link is sent exactly for
/// `Created`.
pub fn apply_verdict(recaptcha: RecaptchaOutcome, email_is_new: bool) -> (r: ApplyResponse)
    ensures
        r == spec_apply_verdict(recaptcha, email_is_new),
        r == ApplyResponse::Created <==> recaptcha == RecaptchaOutcome::Confirmed && email_is_new,
{
    match recaptcha {
        RecaptchaOutcome::TransportError => ApplyResponse::RecaptchaError,
        RecaptchaOutcome::Rejected => ApplyResponse::RecaptchaFailed,
        RecaptchaOutcome::Confirmed => {
            if email_is_new {
                ApplyResponse::Created
            } else {
                ApplyResponse::DuplicateEmail
            }
        },
    }
}

/// How a resend-link request is answered.  A request that passes
/// verification is accepted whether or not the account exists, so that the
/// answer leaks nothing.
#[derive(Clone, Copy, PartialEq, Eq, Structural, Debug)]
pub enum ResendResponse {
    NotProduction,
    CsrfInvalid,
    RecaptchaFailed,
    RecaptchaError,
    Accepted,
}

pub open spec fn spec_resend_gate(
    allow_modify: bool,
    csrf_ok: bool,
    recaptcha_present: bool,
) -> Option<ResendResponse> {
    if !allow_modify {
        Some(ResendResponse::NotProduction)
    } else if !csrf_ok {
        Some(ResendResponse::CsrfInvalid)
    } else if !recaptcha_present {
        Some(ResendResponse::RecaptchaFailed)
    } else {
        None
    }
}

/// The early checks of a resend-link request, in the same order as for an
/// application.
pub fn resend_gate(allow_modify: bool, csrf_ok: bool, recaptcha_present: bool) -> (r: Option<
    ResendResponse,
>)
    ensures
        r == spec_resend_gate(allow_modify, csrf_ok, recaptcha_present),
{
    if !allow_modify {
        Some(ResendResponse::NotProduction)
    } else if !csrf_ok {
        Some(ResendResponse::CsrfInvalid)
    } else if !recaptcha_present {
        Some(ResendResponse::RecaptchaFailed)
    } else {
        None
    }
}

/// The answer once verification ran, and whether the stored account is
/// marked unverified and its login link resent: exactly when verification
/// confirmed the response and the account exists.
pub fn resend_verdict(recaptcha: RecaptchaOutcome, account_found: bool) -> (r: (
    ResendResponse,
    bool,
))
    ensures
        r.1 == (recaptcha == RecaptchaOutcome::Confirmed && account_found),
        recaptcha == RecaptchaOutcome::Confirmed ==> r.0 == ResendResponse::Accepted,
        recaptcha == RecaptchaOutcome::Rejected ==> r.0 == ResendResponse::RecaptchaFailed,
        recaptcha == RecaptchaOutcome::TransportError ==> r.0 == ResendResponse::RecaptchaError,
{
    match recaptcha {
        RecaptchaOutcome::TransportError => (ResendResponse::RecaptchaError, false),
        RecaptchaOutcome::Rejected => (ResendResponse::RecaptchaFailed, false),
        RecaptchaOutcome::Confirmed => (ResendResponse::Accepted, account_found),
    }
}

/// How a message submission is answered before any row is written.
#[derive(Clone, Copy, PartialEq, Eq, Structural, Debug)]
pub enum FormGateResponse {
    CsrfInvalid,
    NotProduction,
}

pub open spec fn spec_form_gate(csrf_ok: bool, allow_modify: bool) -> Option<FormGateResponse> {
    if !csrf_ok {
        Some(FormGateResponse::CsrfInvalid)
    } else if !allow_modify {
        Some(FormGateResponse::NotProduction)
    } else {
        None
    }
}

/// The early checks of a message submission: here the CSRF token comes
/// first, then the production gate.  `None` means the row is written.
pub fn form_gate(csrf_ok: bool, allow_modify: bool) -> (r: Option<FormGateResponse>)
    ensures
        r == spec_form_gate(csrf_ok, allow_modify),
{
    if !csrf_ok {
        Some(FormGateResponse::CsrfInvalid)
    } else if !allow_modify {
        Some(FormGateResponse::NotProduction)
    } else {
        None
    }
}

/// The tag handed out with a submission: the HMAC of the message id's
/// decimal text under the configured key.
pub fn message_tag(mid: i32, hash_key: &str) -> (r: String)
    ensures
        r@ == hmac_sha256_hex_of(hash_key@, spec_i64_decimal(mid as int)),
{
    let text = i64_to_decimal(mid as i64);
    crate::auth::generate_hash(text.as_str(), hash_key)
}

/// A status query's tag passes exactly when it is the tag of the queried id.
pub fn check_message_tag(mid: i32, provided_hash: &str, hash_key: &str) -> (r: bool)
    ensures
        r == (hmac_sha256_hex_of(hash_key@, spec_i64_decimal(mid as int)) == provided_hash@),
{
    let text = i64_to_decimal(mid as i64);
    crate::auth::check_hash(text.as_str(), provided_hash, hash_key)
}

/// How a status query is answered.
#[derive(Clone, Copy, PartialEq, Eq, Structural, Debug)]
pub enum MessageQueryResponse {
    HashInvalid,
    NotFound,
    Found(MessageStatus),
}

pub open spec fn spec_message_query_response(
    tag_ok: bool,
    stored: Option<MessageStatus>,
) -> MessageQueryResponse {
    if !tag_ok {
        MessageQueryResponse::HashInvalid
    } else {
        match stored {
            None => MessageQueryResponse::NotFound,
            Some(s) => MessageQueryResponse::Found(s),
        }
    }
}

/// A failed tag is rejected before the store is consulted; then a missing
/// row answers not-found, and a present row answers with its status.
pub fn message_query_response(tag_ok: bool, stored: Option<MessageStatus>) -> (r:
    MessageQueryResponse)
    ensures
        r == spec_message_query_response(tag_ok, stored),
{
    if !tag_ok {
        MessageQueryResponse::HashInvalid
    } else {
        match stored {
            None => MessageQueryResponse::NotFound,
            Some(s) => MessageQueryResponse::Found(s),
        }
    }
}

/// A login marks the account verified exactly when it was found and not yet
/// verified.
pub fn login_should_mark_verified(user: Option<UserRecord>) -> (r: bool)
    ensures
        r == (user matches Some(u) && !u.verified),
{
    match user {
        Some(u) => !u.verified,
        None => false,
    }
}

pub open spec fn spec_session_cookie(token: Seq<char>) -> Seq<char> {
    "token="@ + token + "; Path=/; Secure; SameSite=Strict"@
}

/// The session cookie a successful login sets.
pub fn session_cookie(token: &str) -> (r: String)
    ensures
        r@ == spec_session_cookie(token@),
{
    let mut s = String::from_str("token=");
    s.append(token);
    s.append("; Path=/; Secure; SameSite=Strict");
    s
}

} // verus!
