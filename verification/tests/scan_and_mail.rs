use huntermatrix::clock::generation_timestamp;
use huntermatrix::config::{
    AuthConfig, EmailConfig, EmailProvider, RecipientsConfig, RetryConfig, SenderConfig,
    SmtpConfig, TemplateConfig,
};
use huntermatrix::dispatch::TransportError;
use huntermatrix::mail::{relay_mode, EmailService, RelayMode};
use huntermatrix::scan::{
    collect_found_lines, count_scanned_files, count_threats_found, report_from_scan, scan_status,
    signatures_for_size, summarize_scan_output, threat_from_detection, ScanResult,
};
use huntermatrix::severity::Severity;

const SAMPLE_OUTPUT: &str = "/tmp/a: Eicar-Signature FOUND\n/tmp/b: OK\n/tmp/c: Worm.Test FOUND\n\n----------- SCAN SUMMARY -----------\nScanned files: 42\nInfected files: 2\n";

fn scan_result(threats: u32) -> ScanResult {
    ScanResult {
        status: "infected".to_string(),
        files_scanned: 42,
        threats_found: threats,
        scan_time: "3s".to_string(),
        log_path: None,
        details: None,
        path: "/tmp".to_string(),
        timestamp: "2024-01-01T00:00:00Z".to_string(),
    }
}

fn email_config() -> EmailConfig {
    EmailConfig {
        enabled: true,
        provider: EmailProvider::Custom,
        smtp: SmtpConfig {
            server: "mail.example.org".to_string(),
            port: 2525,
            use_tls: false,
            use_ssl: false,
        },
        auth: AuthConfig { username: "user".to_string(), password: "SECRET-REDACTED".to_string() },
        sender: SenderConfig { name: "Ops".to_string(), email: "ops@example.org".to_string() },
        recipients: RecipientsConfig {
            default: vec!["a@example.org".to_string()],
            emergency: vec![],
            reports: vec![],
        },
        templates: TemplateConfig {
            daily_report: "daily_report".to_string(),
            weekly_report: "weekly_report".to_string(),
            threat_alert: "threat_alert".to_string(),
            emergency_alert: "emergency_alert".to_string(),
        },
        retry: RetryConfig { max_attempts: 3, delay_seconds: 5 },
    }
}

#[test]
fn threats_are_counted_from_detection_lines() {
    assert_eq!(count_threats_found(SAMPLE_OUTPUT), 2);
    assert_eq!(count_threats_found(""), 0);
    assert_eq!(count_threats_found("all clean\nnothing here"), 0);
}

#[test]
fn detection_lines_are_collected_in_order() {
    let lines = collect_found_lines(SAMPLE_OUTPUT);
    assert_eq!(
        lines,
        vec![
            "/tmp/a: Eicar-Signature FOUND".to_string(),
            "/tmp/c: Worm.Test FOUND".to_string(),
        ]
    );
}

#[test]
fn scanned_files_are_read_from_the_summary() {
    assert_eq!(count_scanned_files(SAMPLE_OUTPUT, 7), 42);
    assert_eq!(count_scanned_files("no summary here", 7), 7);
    assert_eq!(count_scanned_files("Scanned files: not-a-number", 7), 7);
    assert_eq!(count_scanned_files("Scanned files:   8  ", 7), 8);
}

#[test]
fn summaries_tie_counters_status_and_details_together() {
    let r = summarize_scan_output(
        SAMPLE_OUTPUT,
        7,
        true,
        "/tmp",
        "2024-01-01T00:00:00Z",
        "3s",
        Some("/tmp/scan.log".to_string()),
    );
    assert_eq!(r.files_scanned, 42);
    assert_eq!(r.threats_found, 2);
    assert_eq!(r.status, "infected");
    assert_eq!(
        r.details,
        Some(vec![
            "/tmp/a: Eicar-Signature FOUND".to_string(),
            "/tmp/c: Worm.Test FOUND".to_string(),
        ])
    );
    assert_eq!(r.log_path, Some("/tmp/scan.log".to_string()));

    let clean = summarize_scan_output("all good", 3, true, "/tmp", "t", "1s", None);
    assert_eq!(clean.files_scanned, 3);
    assert_eq!(clean.threats_found, 0);
    assert_eq!(clean.status, "safe");
    assert!(clean.details.is_none());

    let broken = summarize_scan_output("", 0, false, "/tmp", "t", "1s", None);
    assert_eq!(broken.status, "error");
}

#[test]
fn scan_status_follows_findings_then_exit() {
    assert_eq!(scan_status(2, true), "infected");
    assert_eq!(scan_status(2, false), "infected");
    assert_eq!(scan_status(0, true), "safe");
    assert_eq!(scan_status(0, false), "error");
}

#[test]
fn signature_estimate_follows_database_size() {
    assert_eq!(signatures_for_size(250_000_000), 8723276);
    assert_eq!(signatures_for_size(150_000_000), 5000000);
    assert_eq!(signatures_for_size(1_000), 1000000);
}

#[test]
fn report_shaping_sets_threat_level_by_count() {
    let low = report_from_scan(&scan_result(5), "today", "2024-01-01T00:00:00Z");
    assert_eq!(low.threat_level, Severity::Low);
    assert_eq!(low.total_threats, 5);
    assert_eq!(low.handled_threats, 5);
    assert_eq!(low.scanned_files, 42);
    assert_eq!(low.title, "Daily security report");
    assert_eq!(low.ai_insights.len(), 3);
    assert_eq!(low.recommendations.len(), 3);
    assert!(low.system_info.is_none());

    let high = report_from_scan(&scan_result(6), "today", "2024-01-01T00:00:00Z");
    assert_eq!(high.threat_level, Severity::High);
}

#[test]
fn detection_shaping_marks_detected() {
    let t = threat_from_detection(
        "Trojan.Test",
        "/tmp/evil",
        Severity::Critical,
        "2024-01-01T00:00:00Z",
        950,
    );
    assert_eq!(t.status, "detected");
    assert_eq!(t.threat_type, "Trojan.Test");
    assert_eq!(t.confidence_tenths, 950);
    assert!(t.description.is_none());
}

#[test]
fn recipient_checking_uses_the_real_mailbox_grammar() {
    assert!(EmailService::check_recipient(&"ops@example.com".to_string()).is_ok());
    assert!(EmailService::check_recipient(&"Name <ops@example.com>".to_string()).is_ok());
    let bad = EmailService::check_recipient(&"not an address".to_string());
    assert_eq!(
        bad,
        Err(TransportError::InvalidAddress("not an address".to_string()))
    );
    assert!(EmailService::check_recipient(&String::new()).is_err());
}

#[test]
fn message_building_fans_out_per_recipient() {
    let service = EmailService::new(email_config());
    let recipients = vec!["a@example.org".to_string(), "b@example.org".to_string()];
    let msgs = service.build_messages("subject", "<p>body</p>", &recipients).unwrap();
    assert_eq!(msgs.len(), 2);

    let bad = vec!["a@example.org".to_string(), "broken".to_string()];
    let err = service.build_messages("subject", "<p>body</p>", &bad);
    assert!(matches!(err, Err(TransportError::InvalidAddress(a)) if a == "broken"));

    let mut unsendable = email_config();
    unsendable.sender.email = "no-at-sign".to_string();
    let service = EmailService::new(unsendable);
    assert!(matches!(
        service.build_messages("s", "b", &recipients),
        Err(TransportError::InvalidAddress(_))
    ));
}

#[test]
fn relay_mode_prefers_ssl_then_tls() {
    let both = SmtpConfig {
        server: "s".to_string(),
        port: 1,
        use_tls: true,
        use_ssl: true,
    };
    assert_eq!(relay_mode(&both), RelayMode::ImplicitTls);
    let tls_only = SmtpConfig { use_ssl: false, ..both.clone() };
    assert_eq!(relay_mode(&tls_only), RelayMode::StartTls);
    let plain = SmtpConfig { use_tls: false, use_ssl: false, ..both };
    assert_eq!(relay_mode(&plain), RelayMode::Plain);
}

#[test]
fn sender_failure_names_the_sender_string() {
    let mut cfg = email_config();
    cfg.sender.email = "no-at-sign".to_string();
    let service = EmailService::new(cfg);
    let recipients = vec!["a@example.org".to_string()];
    match service.build_messages("s", "b", &recipients) {
        Err(TransportError::InvalidAddress(a)) => assert_eq!(a, "Ops <no-at-sign>"),
        _ => panic!("expected an invalid-address failure naming the sender"),
    }
}

#[test]
fn smtp_transport_builds_for_presets() {
    let service = EmailService::new(email_config());
    assert!(service.create_smtp_transport().is_ok());

    let mut with_tls = email_config();
    with_tls.provider = EmailProvider::Gmail;
    let service = EmailService::new(with_tls);
    assert!(service.create_smtp_transport().is_ok());

    let smtp = service.get_smtp_config();
    assert_eq!(smtp.server, "smtp.gmail.com");
}

#[test]
fn sender_string_is_addressable() {
    let service = EmailService::new(email_config());
    assert_eq!(service.sender_string(), "Ops <ops@example.org>");
}

#[test]
fn generation_timestamps_are_never_empty() {
    let t = generation_timestamp();
    assert!(!t.is_empty());
    // An RFC 3339 timestamp separates date and time with 'T'.
    assert!(t.contains('T'));
}
