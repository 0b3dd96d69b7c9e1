use huntermatrix::config::{
    AuthConfig, ConfigError, EmailConfig, EmailProvider, MatrixConfig, MessageFormat,
    RecipientsConfig, RetryConfig, RoomConfig, SenderConfig, SmtpConfig, TemplateConfig,
};
use huntermatrix::dispatch::{
    plan_chat_dispatch, plan_chat_test, plan_dispatch, plan_mail_dispatch, plan_mail_test,
    run_channel_scripted, ChannelPlan, ChannelReport, DestinationOutcome, DispatchReport,
    TransportError,
};
use huntermatrix::event::{Event, ThreatInfo};
use huntermatrix::router::RoutingError;
use huntermatrix::severity::Severity;

fn threat(severity: Severity) -> ThreatInfo {
    ThreatInfo {
        threat_type: "Trojan.Test".to_string(),
        file_path: "/tmp/evil".to_string(),
        severity,
        status: "detected".to_string(),
        detection_time: "2024-01-01T00:00:00Z".to_string(),
        confidence_tenths: 955,
        description: None,
    }
}

fn email_config() -> EmailConfig {
    EmailConfig {
        enabled: true,
        provider: EmailProvider::Custom,
        smtp: SmtpConfig {
            server: "mail.example.org".to_string(),
            port: 2525,
            use_tls: false,
            use_ssl: false,
        },
        auth: AuthConfig { username: "user".to_string(), password: "SECRET-REDACTED".to_string() },
        sender: SenderConfig { name: "Ops".to_string(), email: "ops@example.org".to_string() },
        recipients: RecipientsConfig {
            default: vec!["a@example.org".to_string()],
            emergency: vec!["ops@example.com".to_string()],
            reports: vec!["c@example.org".to_string()],
        },
        templates: TemplateConfig {
            daily_report: "daily_report".to_string(),
            weekly_report: "weekly_report".to_string(),
            threat_alert: "threat_alert".to_string(),
            emergency_alert: "emergency_alert".to_string(),
        },
        retry: RetryConfig { max_attempts: 3, delay_seconds: 5 },
    }
}

fn matrix_config() -> MatrixConfig {
    MatrixConfig {
        enabled: true,
        homeserver: "https://matrix.example.org".to_string(),
        username: "bot".to_string(),
        password: "SECRET-REDACTED".to_string(),
        device_name: "notifier".to_string(),
        rooms: RoomConfig {
            default_room: "!abc:example.org".to_string(),
            emergency_room: "!emergency:example.org".to_string(),
            reports_room: "!reports:example.org".to_string(),
            admin_room: String::new(),
        },
        message_format: MessageFormat {
            use_markdown: true,
            use_html: false,
            include_timestamp: true,
            include_severity_emoji: true,
        },
        retry: RetryConfig { max_attempts: 3, delay_seconds: 5 },
    }
}

#[test]
fn disabled_channel_is_skipped_and_no_error() {
    let mut mc = email_config();
    mc.enabled = false;
    let p = plan_mail_dispatch(&mc, &Event::Threat(threat(Severity::Critical)), "now");
    assert!(matches!(p, ChannelPlan::Skipped));

    let mut cc = matrix_config();
    cc.enabled = false;
    let p = plan_chat_dispatch(&cc, &Event::Threat(threat(Severity::Critical)), "now");
    assert!(matches!(p, ChannelPlan::Skipped));

    let report = run_channel_scripted(
        &p,
        &vec![],
        &TransportError::SendFailed("boom".to_string()),
    );
    assert_eq!(report, ChannelReport::Skipped);
    let whole = DispatchReport { mail: ChannelReport::Skipped, chat: report };
    assert!(whole.succeeded());
}

#[test]
fn empty_default_bucket_fails_fast_with_routing_error() {
    let mut mc = email_config();
    mc.recipients.default = vec![];
    let p = plan_mail_dispatch(&mc, &Event::Threat(threat(Severity::Low)), "now");
    match &p {
        ChannelPlan::NotRouted(e) => assert_eq!(*e, RoutingError::EmptyDestination),
        _ => panic!("expected a routing failure"),
    }
    let report = run_channel_scripted(
        &p,
        &vec![vec![true]],
        &TransportError::SendFailed("boom".to_string()),
    );
    assert_eq!(report, ChannelReport::NotRouted(RoutingError::EmptyDestination));
    let whole = DispatchReport { mail: report, chat: ChannelReport::Skipped };
    assert!(!whole.succeeded());
}

#[test]
fn missing_default_room_fails_fast_on_chat() {
    let mut cc = matrix_config();
    cc.rooms.default_room = String::new();
    let p = plan_chat_dispatch(&cc, &Event::Threat(threat(Severity::Unknown)), "now");
    assert!(matches!(p, ChannelPlan::NotRouted(RoutingError::EmptyDestination)));
}

#[test]
fn critical_mail_threat_goes_to_emergency_with_named_subject() {
    let mc = email_config();
    let p = plan_mail_dispatch(&mc, &Event::Threat(threat(Severity::Critical)), "now");
    match p {
        ChannelPlan::Send { message, destinations, retry } => {
            assert_eq!(destinations, vec!["ops@example.com".to_string()]);
            assert!(message.subject.contains("Trojan.Test"));
            assert!(message.subject.contains("critical"));
            assert!(message.body.contains("95.5%"));
            assert_eq!(retry, RetryConfig { max_attempts: 3, delay_seconds: 5 });
        },
        _ => panic!("expected a send plan"),
    }
}

#[test]
fn chat_delivery_succeeds_on_third_attempt() {
    let cc = matrix_config();
    let p = plan_chat_dispatch(&cc, &Event::Threat(threat(Severity::Low)), "now");
    match &p {
        ChannelPlan::Send { destinations, .. } => {
            assert_eq!(*destinations, vec!["!abc:example.org".to_string()]);
        },
        _ => panic!("expected a send plan"),
    }
    let report = run_channel_scripted(
        &p,
        &vec![vec![false, false, true]],
        &TransportError::SendFailed("boom".to_string()),
    );
    assert_eq!(
        report,
        ChannelReport::Sent(vec![DestinationOutcome::Delivered { attempts_made: 3 }])
    );
    let whole = DispatchReport { mail: ChannelReport::Skipped, chat: report };
    assert!(whole.succeeded());
}

#[test]
fn exhausted_destination_reports_the_last_error() {
    let cc = matrix_config();
    let p = plan_chat_dispatch(&cc, &Event::Threat(threat(Severity::Low)), "now");
    let report = run_channel_scripted(
        &p,
        &vec![vec![false, false, false]],
        &TransportError::UnknownRoom("!abc:example.org".to_string()),
    );
    assert_eq!(
        report,
        ChannelReport::Sent(vec![DestinationOutcome::Failed {
            last_error: TransportError::UnknownRoom("!abc:example.org".to_string()),
            attempts_made: 3,
        }])
    );
    let whole = DispatchReport { mail: ChannelReport::Skipped, chat: report };
    assert!(!whole.succeeded());
}

#[test]
fn whole_call_short_circuits_on_invalid_config() {
    let mut mc = email_config();
    mc.auth.password = String::new();
    let cc = matrix_config();
    let r = plan_dispatch(&Event::Threat(threat(Severity::Low)), Some(&mc), Some(&cc), "now");
    assert_eq!(r.err(), Some(ConfigError::EmptyPassword));
}

#[test]
fn whole_call_plans_requested_channels() {
    let mc = email_config();
    let cc = matrix_config();
    let plan = plan_dispatch(&Event::Threat(threat(Severity::High)), Some(&mc), Some(&cc), "now")
        .unwrap();
    match plan.mail {
        ChannelPlan::Send { destinations, .. } => {
            assert_eq!(destinations, vec!["ops@example.com".to_string()]);
        },
        _ => panic!("expected a mail send plan"),
    }
    match plan.chat {
        ChannelPlan::Send { destinations, .. } => {
            assert_eq!(destinations, vec!["!emergency:example.org".to_string()]);
        },
        _ => panic!("expected a chat send plan"),
    }

    let only_chat = plan_dispatch(&Event::Threat(threat(Severity::High)), None, Some(&cc), "now")
        .unwrap();
    assert!(matches!(only_chat.mail, ChannelPlan::Skipped));
}

#[test]
fn disabled_channels_are_not_validated() {
    let mut mc = email_config();
    mc.enabled = false;
    mc.auth.password = String::new();
    let r = plan_dispatch(&Event::Threat(threat(Severity::Low)), Some(&mc), None, "now");
    assert!(r.is_ok());
    assert!(matches!(r.unwrap().mail, ChannelPlan::Skipped));
}

#[test]
fn test_plans_use_the_explicit_destination() {
    let mc = email_config();
    let p = plan_mail_test(&mc, &"someone@example.org".to_string(), "t0");
    match p {
        ChannelPlan::Send { message, destinations, .. } => {
            assert_eq!(destinations, vec!["someone@example.org".to_string()]);
            assert_eq!(message.subject, "🧪 Notification service test");
            assert!(message.body.contains("mail.example.org"));
        },
        _ => panic!("expected a send plan"),
    }

    let cc = matrix_config();
    let p = plan_chat_test(&cc, &"!somewhere:example.org".to_string(), "t0");
    match p {
        ChannelPlan::Send { message, destinations, .. } => {
            assert_eq!(destinations, vec!["!somewhere:example.org".to_string()]);
            assert!(message.body.contains("https://matrix.example.org"));
            assert!(message.body.contains("notifier"));
        },
        _ => panic!("expected a send plan"),
    }

    let mut off = matrix_config();
    off.enabled = false;
    let p = plan_chat_test(&off, &"!somewhere:example.org".to_string(), "t0");
    assert!(matches!(p, ChannelPlan::Skipped));
}

#[test]
fn transport_error_messages_name_the_fault() {
    assert_eq!(
        TransportError::UnknownRoom("!x:y".to_string()).message(),
        "unknown room: !x:y"
    );
    assert_eq!(
        TransportError::InvalidAddress("nope".to_string()).message(),
        "invalid address: nope"
    );
    assert_eq!(
        TransportError::SendFailed("timed out".to_string()).message(),
        "send failed: timed out"
    );
}
