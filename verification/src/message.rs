//! The message model: priorities, sender classes, and the strictly forward
//! delivery status.

use vstd::prelude::*;

verus! {

/// Submitter-chosen urgency; it only selects the outgoing address.
#[derive(Clone, Copy, PartialEq, Eq, Structural, Debug)]
pub enum MessagePriority {
    Standard,
    Urgent,
    Immediate,
}

/// Trust tier of a message's submitter, fixed at submission time.
#[derive(Clone, Copy, PartialEq, Eq, Structural, Debug)]
pub enum SenderClass {
    Guest,
    Unverified,
    Verified,
    Trusted,
}

/// Delivery status of a stored message.
#[derive(Clone, Copy, PartialEq, Eq, Structural, Debug)]
pub enum MessageStatus {
    Pending,
    Sending,
    Sent,
    Failed,
}

pub open spec fn spec_priority_label(p: MessagePriority) -> Seq<char> {
    match p {
        MessagePriority::Standard => "standard"@,
        MessagePriority::Urgent => "urgent"@,
        MessagePriority::Immediate => "immediate"@,
    }
}

/// The lower-case name under which a priority is stored.
pub fn priority_label(p: MessagePriority) -> (r: &'static str)
    ensures
        r@ == spec_priority_label(p),
{
    match p {
        MessagePriority::Standard => "standard",
        MessagePriority::Urgent => "urgent",
        MessagePriority::Immediate => "immediate",
    }
}

pub open spec fn spec_priority_title(p: MessagePriority) -> Seq<char> {
    match p {
        MessagePriority::Standard => "Standard"@,
        MessagePriority::Urgent => "Urgent"@,
        MessagePriority::Immediate => "Immediate"@,
    }
}

/// The capitalised priority name shown in mail subjects and bodies.
pub fn priority_title(p: MessagePriority) -> (r: &'static str)
    ensures
        r@ == spec_priority_title(p),
{
    match p {
        MessagePriority::Standard => "Standard",
        MessagePriority::Urgent => "Urgent",
        MessagePriority::Immediate => "Immediate",
    }
}

pub open spec fn spec_sender_label(s: SenderClass) -> Seq<char> {
    match s {
        SenderClass::Guest => "guest"@,
        SenderClass::Unverified => "unverified"@,
        SenderClass::Verified => "verified"@,
        SenderClass::Trusted => "trusted"@,
    }
}

/// The lower-case name under which a sender class is stored.
pub fn sender_label(s: SenderClass) -> (r: &'static str)
    ensures
        r@ == spec_sender_label(s),
{
    match s {
        SenderClass::Guest => "guest",
        SenderClass::Unverified => "unverified",
        SenderClass::Verified => "verified",
        SenderClass::Trusted => "trusted",
    }
}

pub open spec fn spec_sender_title(s: SenderClass) -> Seq<char> {
    match s {
        SenderClass::Guest => "Guest"@,
        SenderClass::Unverified => "Unverified"@,
        SenderClass::Verified => "Verified"@,
        SenderClass::Trusted => "Trusted"@,
    }
}

/// The capitalised sender-class name shown in mail subjects and bodies.
pub fn sender_title(s: SenderClass) -> (r: &'static str)
    ensures
        r@ == spec_sender_title(s),
{
    match s {
        SenderClass::Guest => "Guest",
        SenderClass::Unverified => "Unverified",
        SenderClass::Verified => "Verified",
        SenderClass::Trusted => "Trusted",
    }
}

pub open spec fn spec_status_label(s: MessageStatus) -> Seq<char> {
    match s {
        MessageStatus::Pending => "pending"@,
        MessageStatus::Sending => "sending"@,
        MessageStatus::Sent => "sent"@,
        MessageStatus::Failed => "failed"@,
    }
}

/// The name under which a status is stored.
pub fn status_label(s: MessageStatus) -> (r: &'static str)
    ensures
        r@ == spec_status_label(s),
{
    match s {
        MessageStatus::Pending => "pending",
        MessageStatus::Sending => "sending",
        MessageStatus::Sent => "sent",
        MessageStatus::Failed => "failed",
    }
}

/// Reads a stored priority name back into the closed enumeration.
pub fn parse_priority(s: &str) -> (r: Option<MessagePriority>)
    ensures
        match r {
            Some(p) => spec_priority_label(p) == s@,
            None => s@ != "standard"@ && s@ != "urgent"@ && s@ != "immediate"@,
        },
{
    if crate::text::str_eq(s, "standard") {
        Some(MessagePriority::Standard)
    } else if crate::text::str_eq(s, "urgent") {
        Some(MessagePriority::Urgent)
    } else if crate::text::str_eq(s, "immediate") {
        Some(MessagePriority::Immediate)
    } else {
        None
    }
}

/// Reads a stored sender-class name back into the closed enumeration.
pub fn parse_sender(s: &str) -> (r: Option<SenderClass>)
    ensures
        match r {
            Some(c) => spec_sender_label(c) == s@,
            None => s@ != "guest"@ && s@ != "unverified"@ && s@ != "verified"@ && s@
                != "trusted"@,
        },
{
    if crate::text::str_eq(s, "guest") {
        Some(SenderClass::Guest)
    } else if crate::text::str_eq(s, "unverified") {
        Some(SenderClass::Unverified)
    } else if crate::text::str_eq(s, "verified") {
        Some(SenderClass::Verified)
    } else if crate::text::str_eq(s, "trusted") {
        Some(SenderClass::Trusted)
    } else {
        None
    }
}

/// Reads a stored status name back into the closed enumeration.
pub fn parse_status(s: &str) -> (r: Option<MessageStatus>)
    ensures
        match r {
            Some(c) => spec_status_label(c) == s@,
            None => s@ != "pending"@ && s@ != "sending"@ && s@ != "sent"@ && s@ != "failed"@,
        },
{
    if crate::text::str_eq(s, "pending") {
        Some(MessageStatus::Pending)
    } else if crate::text::str_eq(s, "sending") {
        Some(MessageStatus::Sending)
    } else if crate::text::str_eq(s, "sent") {
        Some(MessageStatus::Sent)
    } else if crate::text::str_eq(s, "failed") {
        Some(MessageStatus::Failed)
    } else {
        None
    }
}

/// The strictly forward status order: pending, then sending, then exactly
/// one of sent or failed; a terminal status is never left.
pub open spec fn status_forward(a: MessageStatus, b: MessageStatus) -> bool {
    ||| a == b
    ||| (a is Pending && !(b is Pending))
    ||| (a is Sending && (b is Sent || b is Failed))
}

/// A submitted message as the delivery worker sees it.
pub struct Message {
    pub id: i32,
    pub name: String,
    pub email: String,
    pub body: String,
    pub priority: MessagePriority,
    pub sender: SenderClass,
    pub submitted_time: i64,
    pub status: MessageStatus,
}

/// Everything of a message except its delivery status.
pub open spec fn same_message(a: Message, b: Message) -> bool {
    a.id == b.id && a.name == b.name && a.email == b.email && a.body == b.body && a.priority
        == b.priority && a.sender == b.sender && a.submitted_time == b.submitted_time
}

/// What a stored row knows of a submitter account when a message arrives.
#[derive(Clone, Copy, PartialEq, Eq, Structural, Debug)]
pub struct UserRecord {
    pub verified: bool,
    pub role: i32,
}

pub open spec fn spec_classify_sender(user: Option<UserRecord>) -> SenderClass {
    match user {
        Some(u) => {
            if u.verified && u.role == 1 {
                SenderClass::Trusted
            } else if u.verified {
                SenderClass::Verified
            } else {
                SenderClass::Unverified
            }
        },
        None => SenderClass::Guest,
    }
}

/// The trust tier a submission gets: trusted for a verified account with the
/// operator role, verified for any other verified account, unverified for an
/// unverified account, guest without an account.
pub fn classify_sender(user: Option<UserRecord>) -> (r: SenderClass)
    ensures
        r == spec_classify_sender(user),
{
    match user {
        Some(u) => {
            if u.verified && u.role == 1 {
                SenderClass::Trusted
            } else if u.verified {
                SenderClass::Verified
            } else {
                SenderClass::Unverified
            }
        },
        None => SenderClass::Guest,
    }
}

} // verus!
