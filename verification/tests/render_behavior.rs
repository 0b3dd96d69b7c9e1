use huntermatrix::config::MessageFormat;
use huntermatrix::event::{Event, ReportData, TestInfo, ThreatInfo};
use huntermatrix::render::{
    format_daily_report, format_emergency_alert, format_test_message, format_threat_alert,
    render, TextFormat,
};
use huntermatrix::severity::Severity;

fn threat(severity: Severity) -> ThreatInfo {
    ThreatInfo {
        threat_type: "Trojan.Test".to_string(),
        file_path: "/tmp/evil".to_string(),
        severity,
        status: "detected".to_string(),
        detection_time: "2024-01-01T00:00:00Z".to_string(),
        confidence_tenths: 955,
        description: None,
    }
}

fn fmt(markdown: bool, timestamp: bool, emoji: bool) -> MessageFormat {
    MessageFormat {
        use_markdown: markdown,
        use_html: false,
        include_timestamp: timestamp,
        include_severity_emoji: emoji,
    }
}

fn report() -> ReportData {
    ReportData {
        title: "Daily security report".to_string(),
        subtitle: "today".to_string(),
        timestamp: "2024-01-01T06:00:00Z".to_string(),
        scanned_files: 1234,
        total_threats: 5,
        handled_threats: 5,
        scan_time_tenths: 25,
        success_rate_tenths: 985,
        threat_level: Severity::Low,
        threats: vec![],
        ai_insights: vec!["All quiet".to_string(), "Database is fresh".to_string()],
        recommendations: vec!["Keep scanning".to_string()],
        system_info: None,
    }
}

#[test]
fn threat_alert_plain_is_exact() {
    let body = format_threat_alert(&threat(Severity::Critical), &fmt(false, true, true));
    let expected = "🚨 Threat alert 🔴\n\n🔍 Threat details:\n• Type: Trojan.Test\n• File: /tmp/evil\n• Severity: critical 🔴\n• Confidence: 95.5%\n• Status: detected\n\n⚡ Recommended actions:\n• Quarantine the suspicious file immediately\n• Run a deep system scan\n• Check related system files\n• Update the virus database\n\n🔗 View details: http://localhost:8080#incident\n🕐 Detected at: 2024-01-01T00:00:00Z";
    assert_eq!(body, expected);
}

#[test]
fn threat_alert_respects_options() {
    let with_all = format_threat_alert(&threat(Severity::High), &fmt(true, true, true));
    assert!(with_all.starts_with("# 🚨 Threat alert 🟠"));
    assert!(with_all.contains("🕐 Detected at: 2024-01-01T00:00:00Z"));

    let bare = format_threat_alert(&threat(Severity::High), &fmt(true, false, false));
    assert!(bare.starts_with("# 🚨 Threat alert \n"));
    assert!(!bare.contains("🟠"));
    assert!(!bare.contains("🕐"));
}

#[test]
fn threat_emoji_table_is_fixed() {
    for (severity, emoji) in [
        (Severity::Critical, "🔴"),
        (Severity::High, "🟠"),
        (Severity::Medium, "🟡"),
        (Severity::Low, "🟢"),
        (Severity::Unknown, "⚪"),
    ] {
        let body = format_threat_alert(&threat(severity), &fmt(false, false, true));
        assert!(body.starts_with(&format!("🚨 Threat alert {}", emoji)));
    }
}

#[test]
fn daily_report_markdown_carries_counters_and_bullets() {
    let body = format_daily_report(&report(), &fmt(true, true, true));
    assert!(body.starts_with("# 📊 Daily security report 🟢"));
    assert!(body.contains("- **Files scanned**: 1234"));
    assert!(body.contains("- **Threats found**: 5"));
    assert!(body.contains("- **Scan time**: 2.5s"));
    assert!(body.contains("- **Success rate**: 98.5%"));
    assert!(body.contains("- **Threat level**: low 🟢"));
    assert!(body.contains("## 🧠 Insights\n• All quiet\n• Database is fresh\n"));
    assert!(body.contains("## 💡 Recommendations\n• Keep scanning\n"));
    assert!(body.contains("🕐 Generated at: 2024-01-01T06:00:00Z"));
}

#[test]
fn daily_report_plain_flattens_bullets() {
    let body = format_daily_report(&report(), &fmt(false, false, false));
    assert!(body.starts_with("📊 Daily security report \n"));
    assert!(body.contains("• Files scanned: 1234"));
    assert!(body.contains("🧠 Insights:\n• All quiet\n• Database is fresh\n"));
    assert!(!body.contains("**"));
    assert!(!body.contains("🕐"));
}

#[test]
fn emergency_alert_lists_at_most_five_threats() {
    let threats: Vec<ThreatInfo> = (0..7).map(|_| threat(Severity::Critical)).collect();
    let body = format_emergency_alert(&threats, &fmt(true, false, true), "now");
    assert!(body.contains("- **Critical threats**: 7"));
    assert!(body.contains("- **Total threats**: 7"));
    assert_eq!(body.matches("• **Trojan.Test**: /tmp/evil (confidence: 95.5%)").count(), 5);
}

#[test]
fn emergency_alert_counts_only_urgent_threats() {
    let threats = vec![threat(Severity::Low), threat(Severity::High), threat(Severity::Critical)];
    let body = format_emergency_alert(&threats, &fmt(false, true, false), "2024-02-02T00:00:00Z");
    assert!(body.contains("• Critical threats: 2"));
    assert!(body.contains("• Total threats: 3"));
    assert!(body.contains("🕐 Raised at: 2024-02-02T00:00:00Z"));
}

#[test]
fn test_message_markdown_is_exact() {
    let info = TestInfo {
        homeserver: "https://matrix.example.org".to_string(),
        username: "bot".to_string(),
        device_name: "notifier".to_string(),
    };
    let body = format_test_message(&info, &fmt(true, false, true), "ignored");
    let expected = "# 🧪 Connectivity test\n\n## ✅ Status\nThe notification service is configured and can deliver messages.\n\n## 📋 Session\n- **Server**: https://matrix.example.org\n- **User**: bot\n- **Device**: notifier";
    assert_eq!(body, expected);
}

#[test]
fn render_is_pure() {
    let e = Event::Threat(threat(Severity::Medium));
    let options = fmt(true, true, true);
    let first = render(&e, &options, "2024-03-03T00:00:00Z");
    let second = render(&e, &options, "2024-03-03T00:00:00Z");
    assert_eq!(first, second);

    let e2 = Event::Emergency(vec![threat(Severity::Critical)]);
    let first2 = render(&e2, &options, "t0");
    let second2 = render(&e2, &options, "t0");
    assert_eq!(first2, second2);
}

#[test]
fn render_picks_format_and_subject() {
    let e = Event::Threat(threat(Severity::Critical));
    let md = render(&e, &fmt(true, false, false), "");
    assert_eq!(md.format, TextFormat::Markdown);
    assert_eq!(md.subject, "🚨 Threat alert - Trojan.Test (critical)");
    assert!(md.subject.contains("Trojan.Test"));
    assert!(md.subject.contains("critical"));

    let plain = render(&e, &fmt(false, false, false), "");
    assert_eq!(plain.format, TextFormat::Plain);

    let mut html_fmt = fmt(true, false, false);
    html_fmt.use_html = true;
    let html = render(&e, &html_fmt, "");
    assert_eq!(html.format, TextFormat::Html);

    let report_msg = render(&Event::Report(report()), &fmt(false, false, false), "");
    assert_eq!(report_msg.subject, "📊 Daily security report");

    let emergency = render(
        &Event::Emergency(vec![threat(Severity::Critical), threat(Severity::High)]),
        &fmt(false, false, false),
        "",
    );
    assert_eq!(emergency.subject, "🚨🚨 Emergency security alert - 2 critical threats");

    let test_msg = render(
        &Event::Test(TestInfo {
            homeserver: "h".to_string(),
            username: "u".to_string(),
            device_name: "d".to_string(),
        }),
        &fmt(false, false, false),
        "",
    );
    assert_eq!(test_msg.subject, "🧪 Notification service test");
}
