//! Composing the outgoing mail: the operator notification and submitter
//! receipt for each delivered message, and the login-link mail.

use crate::message::{
    priority_title, sender_title, spec_priority_title, spec_sender_title, Message, MessagePriority,
    SenderClass,
};
use crate::text::spec_escape_html;
use crate::text::escape_html;
use vstd::prelude::*;
use vstd::string::*;

verus! {

/// What the second-precision formatter returns for a UTC timestamp.
pub uninterp spec fn utc_seconds_text_of(t: int) -> Seq<char>;

/// Relies on chrono's `DateTime::<Utc>::from_timestamp` and `format` with
/// `"%Y-%m-%d %H:%M:%S"`: the text is a function of the timestamp alone
/// (UTC, locale-independent); a timestamp outside chrono's range gives the
/// empty fallback, which is equally a function of the timestamp.
#[verifier::external_body]
pub(crate) fn format_utc_seconds(t: i64) -> (r: String)
    ensures
        r@ == utc_seconds_text_of(t as int),
{
    match chrono::DateTime::from_timestamp(t, 0) {
        Some(d) => d.format("%Y-%m-%d %H:%M:%S").to_string(),
        None => String::new(),
    }
}

/// The mail configuration the delivery worker runs with: the outgoing
/// addresses (priority overrides falling back to the standard address), the
/// operator's notification address, and the displayed version.
pub struct MailConfig {
    pub from_standard: String,
    pub from_urgent: Option<String>,
    pub from_immediate: Option<String>,
    pub notification_email: String,
    pub version: String,
}

/// The outgoing address a priority selects.
pub open spec fn spec_from_address(c: MailConfig, p: MessagePriority) -> Seq<char> {
    match p {
        MessagePriority::Standard => c.from_standard@,
        MessagePriority::Urgent => match c.from_urgent {
            Some(s) => s@,
            None => c.from_standard@,
        },
        MessagePriority::Immediate => match c.from_immediate {
            Some(s) => s@,
            None => c.from_standard@,
        },
    }
}

/// Resolves the outgoing address for a priority: the configured override for
/// urgent or immediate mail, the standard address otherwise or when no
/// override is configured.  The mapping is exhaustive; it cannot fail.
pub fn resolve_from_address<'a>(c: &'a MailConfig, p: MessagePriority) -> (r: &'a String)
    ensures
        r@ == spec_from_address(*c, p),
{
    match p {
        MessagePriority::Standard => &c.from_standard,
        MessagePriority::Urgent => match &c.from_urgent {
            Some(s) => s,
            None => &c.from_standard,
        },
        MessagePriority::Immediate => match &c.from_immediate {
            Some(s) => s,
            None => &c.from_standard,
        },
    }
}

/// One piece of mail handed to the transport.
pub struct EmailMessage {
    pub from: String,
    pub to: String,
    pub reply_to: String,
    pub subject: String,
    pub body: String,
}

pub open spec fn spec_notification_subject(
    p: MessagePriority,
    name: Seq<char>,
    sender: SenderClass,
) -> Seq<char> {
    "[Enviame] "@ + spec_priority_title(p) + " Message from "@ + name + "("@ + spec_sender_title(
        sender,
    ) + ")"@
}

pub open spec fn spec_receipt_subject(p: MessagePriority) -> Seq<char> {
    "[Enviame] "@ + spec_priority_title(p) + " Message Delivered"@
}

pub open spec fn spec_notification_body(
    escaped: Seq<char>,
    p: MessagePriority,
    name: Seq<char>,
    email: Seq<char>,
    sender: SenderClass,
    submitted: Seq<char>,
    delivered: Seq<char>,
    version: Seq<char>,
) -> Seq<char> {
    "<html><body><p><strong>Message:</strong></p><p>"@ + escaped
        + "</p><p><strong>Priority:</strong> "@ + spec_priority_title(p)
        + "</p><p><strong>Name:</strong> "@ + name + "</p><p><strong>Email:</strong> "@ + email
        + "</p><p><strong>Status:</strong> "@ + spec_sender_title(sender)
        + "</p><p><strong>Submitted at:</strong> "@ + submitted
        + "</p><p><strong>Delivered at:</strong> "@ + delivered
        + "</p><p>Message delivered by Enviame "@ + version + "</p></body></html>"@
}

pub open spec fn spec_receipt_body(
    escaped: Seq<char>,
    name: Seq<char>,
    email: Seq<char>,
    version: Seq<char>,
) -> Seq<char> {
    "<html><body><p>Your message has been delivered successfully. A copy has been attached below.</p><p><strong>From:</strong> "@
        + name + " ("@ + email + ")</p><p><strong>Message:</strong></p><p>"@ + escaped
        + "</p><p>Delivered by Enviame "@ + version + "</p></body></html>"@
}

/// The two pieces of mail one message produces.
pub struct EmailDispatch {
    pub notification: EmailMessage,
    pub receipt: EmailMessage,
}

/// Renders the operator notification and the submitter receipt for one
/// message: the untrusted message text enters both bodies HTML-escaped, the
/// outgoing address follows the priority, the notification goes to the
/// operator with the submitter as reply-to, and the receipt the other way
/// around.
pub fn prepare_dispatch(msg: &Message, cfg: &MailConfig, now: i64) -> (d: EmailDispatch)
    ensures
        d.notification.from@ == spec_from_address(*cfg, msg.priority),
        d.notification.to@ == cfg.notification_email@,
        d.notification.reply_to@ == msg.email@,
        d.notification.subject@ == spec_notification_subject(msg.priority, msg.name@, msg.sender),
        d.notification.body@ == spec_notification_body(
            spec_escape_html(msg.body@),
            msg.priority,
            msg.name@,
            msg.email@,
            msg.sender,
            utc_seconds_text_of(msg.submitted_time as int),
            utc_seconds_text_of(now as int),
            cfg.version@,
        ),
        d.receipt.from@ == spec_from_address(*cfg, msg.priority),
        d.receipt.to@ == msg.email@,
        d.receipt.reply_to@ == cfg.notification_email@,
        d.receipt.subject@ == spec_receipt_subject(msg.priority),
        d.receipt.body@ == spec_receipt_body(
            spec_escape_html(msg.body@),
            msg.name@,
            msg.email@,
            cfg.version@,
        ),
{
    let from = resolve_from_address(cfg, msg.priority);
    let escaped = escape_html(msg.body.clone());
    let submitted = format_utc_seconds(msg.submitted_time);
    let delivered = format_utc_seconds(now);

    let mut notification_subject = String::from_str("[Enviame] ");
    notification_subject.append(priority_title(msg.priority));
    notification_subject.append(" Message from ");
    notification_subject.append(msg.name.as_str());
    notification_subject.append("(");
    notification_subject.append(sender_title(msg.sender));
    notification_subject.append(")");

    let mut notification_body = String::from_str(
        "<html><body><p><strong>Message:</strong></p><p>",
    );
    notification_body.append(escaped.as_str());
    notification_body.append("</p><p><strong>Priority:</strong> ");
    notification_body.append(priority_title(msg.priority));
    notification_body.append("</p><p><strong>Name:</strong> ");
    notification_body.append(msg.name.as_str());
    notification_body.append("</p><p><strong>Email:</strong> ");
    notification_body.append(msg.email.as_str());
    notification_body.append("</p><p><strong>Status:</strong> ");
    notification_body.append(sender_title(msg.sender));
    notification_body.append("</p><p><strong>Submitted at:</strong> ");
    notification_body.append(submitted.as_str());
    notification_body.append("</p><p><strong>Delivered at:</strong> ");
    notification_body.append(delivered.as_str());
    notification_body.append("</p><p>Message delivered by Enviame ");
    notification_body.append(cfg.version.as_str());
    notification_body.append("</p></body></html>");

    let mut receipt_subject = String::from_str("[Enviame] ");
    receipt_subject.append(priority_title(msg.priority));
    receipt_subject.append(" Message Delivered");

    let mut receipt_body = String::from_str(
        "<html><body><p>Your message has been delivered successfully. A copy has been attached below.</p><p><strong>From:</strong> ",
    );
    receipt_body.append(msg.name.as_str());
    receipt_body.append(" (");
    receipt_body.append(msg.email.as_str());
    receipt_body.append(")</p><p><strong>Message:</strong></p><p>");
    receipt_body.append(escaped.as_str());
    receipt_body.append("</p><p>Delivered by Enviame ");
    receipt_body.append(cfg.version.as_str());
    receipt_body.append("</p></body></html>");

    EmailDispatch {
        notification: EmailMessage {
            from: from.clone(),
            to: cfg.notification_email.clone(),
            reply_to: msg.email.clone(),
            subject: notification_subject,
            body: notification_body,
        },
        receipt: EmailMessage {
            from: from.clone(),
            to: msg.email.clone(),
            reply_to: cfg.notification_email.clone(),
            subject: receipt_subject,
            body: receipt_body,
        },
    }
}

pub open spec fn spec_login_link(homepage_url: Seq<char>, token: Seq<char>) -> Seq<char> {
    homepage_url + "?token="@ + token
}

pub open spec fn spec_login_link_subject(name: Seq<char>) -> Seq<char> {
    "[Enviame] Login link for "@ + name
}

pub open spec fn spec_login_link_body(link: Seq<char>, version: Seq<char>) -> Seq<char> {
    "<html><body><p>Your permanent login link:</p><p><a href=\""@ + link + "\">"@ + link
        + "</a></p><p>Delivered by Enviame "@ + version + "</p></body></html>"@
}

/// Renders the login-link mail for an account: sent from the standard
/// address to the account's email, with the operator address as reply-to.
pub fn prepare_login_link_email(
    name: &str,
    email: &str,
    token: &str,
    homepage_url: &str,
    cfg: &MailConfig,
) -> (m: EmailMessage)
    ensures
        m.from@ == cfg.from_standard@,
        m.to@ == email@,
        m.reply_to@ == cfg.notification_email@,
        m.subject@ == spec_login_link_subject(name@),
        m.body@ == spec_login_link_body(
            spec_login_link(homepage_url@, token@),
            cfg.version@,
        ),
{
    let mut link = String::from_str(homepage_url);
    link.append("?token=");
    link.append(token);

    let mut subject = String::from_str("[Enviame] Login link for ");
    subject.append(name);

    let mut body = String::from_str("<html><body><p>Your permanent login link:</p><p><a href=\"");
    body.append(link.as_str());
    body.append("\">");
    body.append(link.as_str());
    body.append("</a></p><p>Delivered by Enviame ");
    body.append(cfg.version.as_str());
    body.append("</p></body></html>");

    EmailMessage {
        from: cfg.from_standard.clone(),
        to: String::from_str(email),
        reply_to: cfg.notification_email.clone(),
        subject,
        body,
    }
}

} // verus!
