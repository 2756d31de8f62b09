use enviame::cache::{AvailabilityCache, CalendarCache};
use enviame::message::{
    classify_sender, parse_priority, parse_sender, parse_status, priority_label, sender_label,
    status_label, MessagePriority, MessageStatus, SenderClass, UserRecord,
};
use enviame::requests::{
    apply_gate, apply_verdict, form_gate, message_query_response, resend_gate, resend_verdict,
    session_cookie, ApplyResponse, FormGateResponse, MessageQueryResponse, RecaptchaOutcome,
    ResendResponse,
};

#[test]
fn apply_gate_checks_production_then_csrf_then_recaptcha() {
    assert_eq!(apply_gate(false, false, false), Some(ApplyResponse::NotProduction));
    assert_eq!(apply_gate(true, false, false), Some(ApplyResponse::CsrfInvalid));
    assert_eq!(apply_gate(true, true, false), Some(ApplyResponse::RecaptchaFailed));
    assert_eq!(apply_gate(true, true, true), None);
}

#[test]
fn apply_verdict_creates_only_for_confirmed_new_email() {
    assert_eq!(apply_verdict(RecaptchaOutcome::TransportError, true), ApplyResponse::RecaptchaError);
    assert_eq!(apply_verdict(RecaptchaOutcome::Rejected, true), ApplyResponse::RecaptchaFailed);
    assert_eq!(apply_verdict(RecaptchaOutcome::Confirmed, false), ApplyResponse::DuplicateEmail);
    assert_eq!(apply_verdict(RecaptchaOutcome::Confirmed, true), ApplyResponse::Created);
}

#[test]
fn resend_verdict_accepts_confirmed_requests_without_leaking_accounts() {
    assert_eq!(
        resend_verdict(RecaptchaOutcome::Confirmed, true),
        (ResendResponse::Accepted, true)
    );
    assert_eq!(
        resend_verdict(RecaptchaOutcome::Confirmed, false),
        (ResendResponse::Accepted, false)
    );
    assert_eq!(
        resend_verdict(RecaptchaOutcome::Rejected, true),
        (ResendResponse::RecaptchaFailed, false)
    );
    assert_eq!(
        resend_verdict(RecaptchaOutcome::TransportError, true),
        (ResendResponse::RecaptchaError, false)
    );
    assert_eq!(resend_gate(true, true, true), None);
    assert_eq!(resend_gate(false, true, true), Some(ResendResponse::NotProduction));
}

#[test]
fn form_gate_checks_csrf_before_the_production_gate() {
    assert_eq!(form_gate(false, false), Some(FormGateResponse::CsrfInvalid));
    assert_eq!(form_gate(true, false), Some(FormGateResponse::NotProduction));
    assert_eq!(form_gate(true, true), None);
}

#[test]
fn sender_classification_follows_verification_and_role() {
    assert_eq!(classify_sender(None), SenderClass::Guest);
    assert_eq!(
        classify_sender(Some(UserRecord { verified: false, role: 1 })),
        SenderClass::Unverified
    );
    assert_eq!(
        classify_sender(Some(UserRecord { verified: true, role: 0 })),
        SenderClass::Verified
    );
    assert_eq!(
        classify_sender(Some(UserRecord { verified: true, role: 1 })),
        SenderClass::Trusted
    );
}

#[test]
fn labels_round_trip_through_parsing() {
    for p in [MessagePriority::Standard, MessagePriority::Urgent, MessagePriority::Immediate] {
        assert_eq!(parse_priority(priority_label(p)), Some(p));
    }
    for s in [
        SenderClass::Guest,
        SenderClass::Unverified,
        SenderClass::Verified,
        SenderClass::Trusted,
    ] {
        assert_eq!(parse_sender(sender_label(s)), Some(s));
    }
    for s in [
        MessageStatus::Pending,
        MessageStatus::Sending,
        MessageStatus::Sent,
        MessageStatus::Failed,
    ] {
        assert_eq!(parse_status(status_label(s)), Some(s));
    }
    assert_eq!(parse_priority("soon"), None);
    assert_eq!(parse_status(""), None);
}

#[test]
fn message_query_rejects_bad_tags_before_consulting_the_store() {
    assert_eq!(
        message_query_response(false, Some(MessageStatus::Sent)),
        MessageQueryResponse::HashInvalid
    );
    assert_eq!(message_query_response(true, None), MessageQueryResponse::NotFound);
    assert_eq!(
        message_query_response(true, Some(MessageStatus::Pending)),
        MessageQueryResponse::Found(MessageStatus::Pending)
    );
}

#[test]
fn session_cookie_carries_the_token_and_attributes() {
    assert_eq!(
        session_cookie("abc123"),
        "token=abc123; Path=/; Secure; SameSite=Strict"
    );
}

#[test]
fn cache_starts_with_the_far_future_placeholder() {
    let c = AvailabilityCache::starting();
    assert!(!c.value.is_busy);
    assert_eq!(c.value.timestamp, "2099-12-31 23:59");
    assert_eq!(c.writes, 0);
}

#[test]
fn cache_updates_only_on_change() {
    let mut c = AvailabilityCache::starting();
    let same = CalendarCache { is_busy: false, timestamp: "2099-12-31 23:59".to_string() };
    assert!(!c.update(same));
    assert_eq!(c.writes, 0);
    let busy = CalendarCache { is_busy: true, timestamp: "2024-05-07 08:00".to_string() };
    assert!(c.update(busy));
    assert_eq!(c.writes, 1);
    assert!(c.value.is_busy);
    let busy_again = CalendarCache { is_busy: true, timestamp: "2024-05-07 08:00".to_string() };
    assert!(!c.update(busy_again));
    assert_eq!(c.writes, 1);
    let later = CalendarCache { is_busy: true, timestamp: "2024-05-07 09:00".to_string() };
    assert!(c.update(later));
    assert_eq!(c.writes, 2);
}

#[test]
fn cache_snapshot_copies_both_fields() {
    let c = AvailabilityCache::starting();
    let snap = c.value.snapshot();
    assert_eq!(snap.is_busy, c.value.is_busy);
    assert_eq!(snap.timestamp, c.value.timestamp);
}
