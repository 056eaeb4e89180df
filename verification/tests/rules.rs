use job_queue::job::Segment;
use job_queue::payloads::{
    validate_color, AuditQuery, AuthPayload, BrandingError, BrandingPayload, BrandingResponse,
    CreateAnnouncementPayload, MPWebhookData, MPWebhookPayload, PaymentPreferenceResponse,
    UpdateAnnouncementPayload, VotePayload,
};
use job_queue::provider::{is_success, summary_event, transcription_event, RawTranscript, Reply};
use job_queue::source::{resolve_source, ProviderSettings, SourceError};
use job_queue::text::{find_char, has_at, join, same_text, strip_prefixes};
use job_queue::webhook::{generate_signature, signature_header, signature_text};
use job_queue::worker::Event;

fn auth(email: &str) -> AuthPayload {
    AuthPayload {
        email: email.to_string(),
        password: "pw".to_string(),
        full_name: None,
        role: None,
        organization_name: None,
    }
}

fn settings() -> ProviderSettings {
    ProviderSettings {
        provider: None,
        local_whisper_url: None,
        local_llm_url: None,
        local_llm_model: None,
        api_key: None,
    }
}

#[test]
fn text_helpers_agree_with_std() {
    assert!(same_text("abc", "abc"));
    assert!(!same_text("abc", "abd"));
    assert!(!same_text("abc", "ab"));
    assert_eq!(join("ab", "cd"), "abcd");
    assert_eq!(find_char("a@b@c", '@', 0), 1);
    assert_eq!(find_char("a@b@c", '@', 2), 3);
    assert_eq!(find_char("a@b@c", '@', 4), 5);
    assert_eq!(find_char("", '@', 0), 0);
    assert_eq!(find_char("abc", 'a', 7), 3);
    assert!(has_at("ab/cd", 2, "/c"));
    assert!(!has_at("ab/cd", 3, "/c"));
    assert!(has_at("ab", 2, ""));
    assert!(!has_at("ab", 3, ""));
    assert!(!has_at("ab", 1, "bc"));
    assert_eq!(strip_prefixes("/assets//assets/a.mp4", "/assets/"), "a.mp4");
    assert_eq!(strip_prefixes("a/assets/", "/assets/"), "a/assets/");
    assert_eq!(strip_prefixes("abc", ""), "abc");
}

#[test]
fn registration_defaults_come_from_the_address() {
    let p = auth("ana@example.org");
    assert_eq!(p.full_name_or_default(), "ana");
    assert_eq!(p.role_or_default(), "instructor");
    assert_eq!(p.organization_or_default(), "example.org");
    let q = auth("ana@a@b");
    assert_eq!(q.organization_or_default(), "a");
    let r = auth("nobody");
    assert_eq!(r.full_name_or_default(), "nobody");
    assert_eq!(r.organization_or_default(), "default.com");
    let s = auth("ana@");
    assert_eq!(s.organization_or_default(), "");
}

#[test]
fn registration_keeps_what_is_given() {
    let p = AuthPayload {
        email: "ana@example.org".to_string(),
        password: "pw".to_string(),
        full_name: Some("Ana B".to_string()),
        role: Some("admin".to_string()),
        organization_name: Some("Acme".to_string()),
    };
    assert_eq!(p.full_name_or_default(), "Ana B");
    assert_eq!(p.role_or_default(), "admin");
    assert_eq!(p.organization_or_default(), "Acme");
}

#[test]
fn audit_window_is_limit_and_offset() {
    assert_eq!(AuditQuery { page: None, limit: None }.window(), Some((50, 0)));
    assert_eq!(AuditQuery { page: Some(3), limit: Some(20) }.window(), Some((20, 40)));
    assert_eq!(AuditQuery { page: Some(0), limit: None }.window(), Some((50, -50)));
    assert_eq!(AuditQuery { page: Some(i64::MIN), limit: Some(0) }.window(), Some((0, 0)));
    assert_eq!(AuditQuery { page: Some(i64::MAX), limit: Some(2) }.window(), None);
    assert_eq!(AuditQuery { page: Some(i64::MIN), limit: Some(1) }.window(), None);
    assert_eq!(
        AuditQuery { page: Some(2), limit: Some(i64::MAX) }.window(),
        Some((i64::MAX, i64::MAX))
    );
}

#[test]
fn colors_are_a_hash_and_six_hex_digits() {
    assert!(validate_color("#3B82F6"));
    assert!(validate_color("#abcdef"));
    assert!(validate_color("#012345"));
    assert!(!validate_color("3B82F6#"));
    assert!(!validate_color("#3B82F"));
    assert!(!validate_color("#3B82F6A"));
    assert!(!validate_color("#3B82FG"));
    assert!(!validate_color("#3B8\u{e9}F6"));
    assert!(!validate_color(""));
}

#[test]
fn branding_reports_the_first_bad_color() {
    let ok = BrandingPayload { primary_color: Some("#000000".to_string()), secondary_color: None };
    assert_eq!(ok.validate(), Ok(()));
    let none = BrandingPayload { primary_color: None, secondary_color: None };
    assert_eq!(none.validate(), Ok(()));
    let both = BrandingPayload {
        primary_color: Some("red".to_string()),
        secondary_color: Some("blue".to_string()),
    };
    assert_eq!(both.validate(), Err(BrandingError::PrimaryColor));
    let second = BrandingPayload {
        primary_color: Some("#ffffff".to_string()),
        secondary_color: Some("blue".to_string()),
    };
    assert_eq!(second.validate(), Err(BrandingError::SecondaryColor));
    assert_eq!(
        BrandingError::PrimaryColor.message(),
        "Invalid primary_color format. Use #RRGGBB"
    );
    assert_eq!(
        BrandingError::SecondaryColor.message(),
        "Invalid secondary_color format. Use #RRGGBB"
    );
}

#[test]
fn branding_response_fills_in_default_colors() {
    let r = BrandingResponse::from_stored(None, None, None);
    assert_eq!(r.logo_url, None);
    assert_eq!(r.primary_color, "#3B82F6");
    assert_eq!(r.secondary_color, "#8B5CF6");
    let s = BrandingResponse::from_stored(
        Some("/l.png".to_string()),
        Some("#111111".to_string()),
        Some("#222222".to_string()),
    );
    assert_eq!(s.logo_url, Some("/l.png".to_string()));
    assert_eq!(s.primary_color, "#111111");
    assert_eq!(s.secondary_color, "#222222");
}

#[test]
fn announcement_notification_is_cut_at_a_hundred_bytes() {
    let short = CreateAnnouncementPayload {
        title: "Exam".to_string(),
        content: "x".repeat(100),
        is_pinned: None,
    };
    assert!(!short.pinned());
    assert_eq!(short.notification_title(), "Nuevo Anuncio: Exam");
    assert_eq!(short.notification_message(), Some("x".repeat(100)));
    let long = CreateAnnouncementPayload {
        title: "Exam".to_string(),
        content: "y".repeat(101),
        is_pinned: Some(true),
    };
    assert!(long.pinned());
    assert_eq!(long.notification_message(), Some(format!("{}...", "y".repeat(100))));
    let split = CreateAnnouncementPayload {
        title: "Exam".to_string(),
        content: format!("{}\u{e9}{}", "z".repeat(99), "z".repeat(10)),
        is_pinned: None,
    };
    assert_eq!(split.notification_message(), None);
    let whole = CreateAnnouncementPayload {
        title: "Exam".to_string(),
        content: format!("{}\u{e9}{}", "z".repeat(98), "z".repeat(10)),
        is_pinned: None,
    };
    assert_eq!(
        whole.notification_message(),
        Some(format!("{}\u{e9}...", "z".repeat(98)))
    );
}

#[test]
fn announcement_update_keeps_what_is_not_given() {
    let p = UpdateAnnouncementPayload {
        title: Some("new".to_string()),
        content: None,
        is_pinned: None,
    };
    assert_eq!(
        p.merge("old".to_string(), "body".to_string(), true),
        ("new".to_string(), "body".to_string(), true)
    );
    let q = UpdateAnnouncementPayload {
        title: None,
        content: Some("text".to_string()),
        is_pinned: Some(false),
    };
    assert_eq!(
        q.merge("old".to_string(), "body".to_string(), true),
        ("old".to_string(), "text".to_string(), false)
    );
}

#[test]
fn only_upvote_and_downvote_are_votes() {
    assert!(VotePayload { vote_type: "upvote".to_string() }.is_valid());
    assert!(VotePayload { vote_type: "downvote".to_string() }.is_valid());
    assert!(!VotePayload { vote_type: "Upvote".to_string() }.is_valid());
    assert!(!VotePayload { vote_type: String::new() }.is_valid());
}

#[test]
fn payment_response_defaults_to_empty_fields() {
    let r = PaymentPreferenceResponse::from_provider(None, None);
    assert_eq!(r.preference_id, "");
    assert_eq!(r.init_point, "");
    let s = PaymentPreferenceResponse::from_provider(
        Some("pref-77".to_string()),
        Some("https://pay".to_string()),
    );
    assert_eq!(s.preference_id, "pref-77");
    assert_eq!(s.init_point, "https://pay");
}

#[test]
fn payment_notifications_are_told_from_others() {
    let p = MPWebhookPayload {
        action: "payment.created".to_string(),
        data: MPWebhookData { id: "77".to_string() },
    };
    assert!(p.is_payment_event());
    assert_eq!(p.payment_url(), "https://api.mercadopago.com/v1/payments/77");
    let q = MPWebhookPayload {
        action: "payment.updated".to_string(),
        data: MPWebhookData { id: "1".to_string() },
    };
    assert!(q.is_payment_event());
    let r = MPWebhookPayload {
        action: "plan.created".to_string(),
        data: MPWebhookData { id: "1".to_string() },
    };
    assert!(!r.is_payment_event());
    assert!(MPWebhookPayload::is_approved(Some("approved")));
    assert!(!MPWebhookPayload::is_approved(Some("pending")));
    assert!(!MPWebhookPayload::is_approved(None));
}

#[test]
fn source_is_resolved_for_media_with_an_address() {
    let f = resolve_source("video", Some("/assets/a.mp4")).unwrap();
    assert_eq!(f.filename, "a.mp4");
    assert_eq!(f.path, "uploads/a.mp4");
    let g = resolve_source("audio", Some("b.mp3")).unwrap();
    assert_eq!(g.filename, "b.mp3");
    assert_eq!(g.path, "uploads/b.mp3");
    assert_eq!(resolve_source("text", Some("/assets/a.md")).unwrap_err(), SourceError::NotMedia);
    assert_eq!(resolve_source("text", None).unwrap_err(), SourceError::NotMedia);
    assert_eq!(resolve_source("video", None).unwrap_err(), SourceError::NoContentUrl);
}

#[test]
fn hosted_provider_needs_its_key() {
    let mut s = settings();
    assert!(s.transcription_endpoint().is_err());
    assert!(s.summary_endpoint().is_err());
    s.api_key = Some("k".to_string());
    let t = s.transcription_endpoint().unwrap();
    assert_eq!(t.url, "https://api.openai.com/v1/audio/transcriptions");
    assert_eq!(t.auth_header, "Bearer k");
    assert_eq!(t.model, "whisper-1");
    assert!(t.needs_auth());
    let u = s.summary_endpoint().unwrap();
    assert_eq!(u.url, "https://api.openai.com/v1/chat/completions");
    assert_eq!(u.auth_header, "Bearer k");
    assert_eq!(u.model, "gpt-4o");
    s.provider = Some("openai".to_string());
    assert_eq!(s.transcription_endpoint().unwrap().model, "whisper-1");
}

#[test]
fn local_provider_has_defaults_and_no_key() {
    let mut s = settings();
    s.provider = Some("local".to_string());
    let t = s.transcription_endpoint().unwrap();
    assert_eq!(t.url, "http://localhost:8000/v1/audio/transcriptions");
    assert_eq!(t.auth_header, "");
    assert_eq!(t.model, "medium");
    assert!(!t.needs_auth());
    let u = s.summary_endpoint().unwrap();
    assert_eq!(u.url, "http://localhost:11434/v1/chat/completions");
    assert_eq!(u.model, "llama3");
    s.local_whisper_url = Some("http://w:1".to_string());
    s.local_llm_url = Some("http://l:2".to_string());
    s.local_llm_model = Some("mistral".to_string());
    assert_eq!(s.transcription_endpoint().unwrap().url, "http://w:1/v1/audio/transcriptions");
    let v = s.summary_endpoint().unwrap();
    assert_eq!(v.url, "http://l:2/v1/chat/completions");
    assert_eq!(v.model, "mistral");
}

#[test]
fn success_is_two_hundred_to_two_ninety_nine() {
    assert!(is_success(200));
    assert!(is_success(299));
    assert!(!is_success(199));
    assert!(!is_success(300));
    assert!(!is_success(500));
}

#[test]
fn transcription_replies_become_events() {
    match transcription_event(Reply::Unreachable("refused".to_string())) {
        Event::TranscriptionFailed(m) => assert_eq!(m, "Transcription request failed: refused"),
        other => panic!("unexpected {:?}", other),
    }
    match transcription_event(Reply::Rejected("oops".to_string())) {
        Event::TranscriptionFailed(m) => assert_eq!(m, "Transcription API error: oops"),
        other => panic!("unexpected {:?}", other),
    }
    match transcription_event(Reply::Malformed("eof".to_string())) {
        Event::TranscriptionFailed(m) => assert_eq!(m, "Transcription response unreadable: eof"),
        other => panic!("unexpected {:?}", other),
    }
    match transcription_event(Reply::Body(RawTranscript { text: None, segments: None })) {
        Event::Transcribed(t) => {
            assert_eq!(t.text, "");
            assert!(t.segments.is_empty());
        }
        other => panic!("unexpected {:?}", other),
    }
    let raw = RawTranscript {
        text: Some("hi".to_string()),
        segments: Some(vec![Segment { start_ms: 5, end_ms: 9, text: "hi".to_string() }]),
    };
    match transcription_event(Reply::Body(raw)) {
        Event::Transcribed(t) => {
            assert_eq!(t.text, "hi");
            assert_eq!(t.segments.len(), 1);
            assert_eq!(t.segments[0].start_ms, 5);
            assert_eq!(t.segments[0].end_ms, 9);
        }
        other => panic!("unexpected {:?}", other),
    }
}

#[test]
fn summary_replies_become_events() {
    match summary_event(Reply::Body(Some("  two words \n".to_string()))) {
        Event::Summarized(s) => assert_eq!(s, "two words"),
        other => panic!("unexpected {:?}", other),
    }
    match summary_event(Reply::Body(None)) {
        Event::Summarized(s) => assert_eq!(s, ""),
        other => panic!("unexpected {:?}", other),
    }
    match summary_event(Reply::Unreachable("x".to_string())) {
        Event::SummaryFailed(m) => assert_eq!(m, "Summarization request failed: x"),
        other => panic!("unexpected {:?}", other),
    }
    match summary_event(Reply::Rejected("y".to_string())) {
        Event::SummaryFailed(m) => assert_eq!(m, "Summarization API error: y"),
        other => panic!("unexpected {:?}", other),
    }
    match summary_event(Reply::Malformed("z".to_string())) {
        Event::SummaryFailed(m) => assert_eq!(m, "Summarization response unreadable: z"),
        other => panic!("unexpected {:?}", other),
    }
}

#[test]
fn signature_is_hmac_sha256_in_lower_case_hex() {
    assert_eq!(
        generate_signature("Jefe", "what do ya want for nothing?"),
        "5bdcc146bf60754e6a042426089575c75a003f089d2739839dec58b964ec3843"
    );
    assert_eq!(
        generate_signature("my secret and secure key", "input message"),
        "97d2a569059bbcd8ead4444ff99071f4c01d005bcefe0d3567e1be628e5fdcd9"
    );
}

#[test]
fn signature_text_writes_two_digits_per_byte() {
    assert_eq!(signature_text(&vec![1, 2, 3, 15, 16, 0xab, 0xff]), "0102030f10abff");
    assert_eq!(signature_text(&vec![]), "");
}

#[test]
fn signature_header_needs_a_secret() {
    assert_eq!(signature_header(None, "{}"), None);
    assert_eq!(
        signature_header(Some("Jefe"), "what do ya want for nothing?"),
        Some("5bdcc146bf60754e6a042426089575c75a003f089d2739839dec58b964ec3843".to_string())
    );
}
