use huntermatrix::config::{RecipientsConfig, RetryConfig, RoomConfig};
use huntermatrix::event::{Event, ReportData, ThreatInfo};
use huntermatrix::retry::{run_scripted, RetryDecision, RetryExecutor};
use huntermatrix::router::{chat_buckets, destinations, mail_buckets, Buckets, RoutingError};
use huntermatrix::severity::Severity;

fn threat(severity: Severity) -> ThreatInfo {
    ThreatInfo {
        threat_type: "Trojan.Test".to_string(),
        file_path: "/tmp/evil".to_string(),
        severity,
        status: "detected".to_string(),
        detection_time: "2024-01-01T00:00:00Z".to_string(),
        confidence_tenths: 955,
        description: None,
    }
}

fn buckets() -> Buckets {
    Buckets {
        default: vec!["d1".to_string(), "d2".to_string()],
        emergency: vec!["e1".to_string()],
        reports: vec!["r1".to_string()],
        admin: vec![],
    }
}

fn report() -> ReportData {
    ReportData {
        title: "t".to_string(),
        subtitle: "s".to_string(),
        timestamp: "ts".to_string(),
        scanned_files: 1,
        total_threats: 2,
        handled_threats: 2,
        scan_time_tenths: 10,
        success_rate_tenths: 1000,
        threat_level: Severity::Critical,
        threats: vec![threat(Severity::Critical)],
        ai_insights: vec![],
        recommendations: vec![],
        system_info: None,
    }
}

#[test]
fn urgent_threats_route_to_emergency() {
    for severity in [Severity::High, Severity::Critical] {
        let d = destinations(&Event::Threat(threat(severity)), &buckets()).unwrap();
        assert_eq!(d, vec!["e1".to_string()]);
    }
}

#[test]
fn ordinary_threats_route_to_default() {
    for severity in [Severity::Low, Severity::Medium, Severity::Unknown] {
        let d = destinations(&Event::Threat(threat(severity)), &buckets()).unwrap();
        assert_eq!(d, vec!["d1".to_string(), "d2".to_string()]);
    }
}

#[test]
fn reports_route_to_reports_bucket_regardless_of_contents() {
    let d = destinations(&Event::Report(report()), &buckets()).unwrap();
    assert_eq!(d, vec!["r1".to_string()]);
}

#[test]
fn emergencies_route_to_emergency_bucket() {
    let d = destinations(&Event::Emergency(vec![threat(Severity::Low)]), &buckets()).unwrap();
    assert_eq!(d, vec!["e1".to_string()]);
}

#[test]
fn empty_bucket_is_a_routing_error() {
    let mut b = buckets();
    b.default = vec![];
    let r = destinations(&Event::Threat(threat(Severity::Low)), &b);
    assert_eq!(r, Err(RoutingError::EmptyDestination));
}

#[test]
fn buckets_come_from_channel_configuration() {
    let rc = RecipientsConfig {
        default: vec!["a".to_string()],
        emergency: vec!["b".to_string()],
        reports: vec!["c".to_string()],
    };
    let mb = mail_buckets(&rc);
    assert_eq!(mb.default, vec!["a".to_string()]);
    assert_eq!(mb.emergency, vec!["b".to_string()]);
    assert_eq!(mb.reports, vec!["c".to_string()]);
    assert!(mb.admin.is_empty());

    let rooms = RoomConfig {
        default_room: "!d:x".to_string(),
        emergency_room: String::new(),
        reports_room: "!r:x".to_string(),
        admin_room: String::new(),
    };
    let cb = chat_buckets(&rooms);
    assert_eq!(cb.default, vec!["!d:x".to_string()]);
    assert!(cb.emergency.is_empty());
    assert_eq!(cb.reports, vec!["!r:x".to_string()]);
    assert!(cb.admin.is_empty());
}

#[test]
fn retry_succeeds_after_k_failures() {
    let policy = RetryConfig { max_attempts: 5, delay_seconds: 1 };
    let outcomes = vec![false, false, true];
    let r = run_scripted(&policy, &outcomes);
    assert!(r.delivered);
    assert_eq!(r.attempts_made, 3);
    assert_eq!(r.delays_observed, 2);
}

#[test]
fn retry_success_on_first_attempt_takes_no_delay() {
    let policy = RetryConfig { max_attempts: 3, delay_seconds: 9 };
    let r = run_scripted(&policy, &vec![true]);
    assert!(r.delivered);
    assert_eq!(r.attempts_made, 1);
    assert_eq!(r.delays_observed, 0);
}

#[test]
fn retry_exhaustion_consumes_whole_budget() {
    let policy = RetryConfig { max_attempts: 4, delay_seconds: 1 };
    let r = run_scripted(&policy, &vec![false, false, false, false, true]);
    assert!(!r.delivered);
    assert_eq!(r.attempts_made, 4);
    assert_eq!(r.delays_observed, 3);

    let r2 = run_scripted(&policy, &vec![]);
    assert!(!r2.delivered);
    assert_eq!(r2.attempts_made, 4);
    assert_eq!(r2.delays_observed, 3);
}

#[test]
fn retry_does_not_overrun_a_late_success() {
    let policy = RetryConfig { max_attempts: 2, delay_seconds: 1 };
    let r = run_scripted(&policy, &vec![false, false, true]);
    assert!(!r.delivered);
    assert_eq!(r.attempts_made, 2);
}

#[test]
fn retry_executor_walks_the_budget() {
    let policy = RetryConfig { max_attempts: 3, delay_seconds: 5 };
    let mut ex = RetryExecutor::new(policy);
    assert!(ex.can_attempt());
    assert_eq!(ex.attempts_with_success(), 1);
    assert_eq!(ex.on_failure(), RetryDecision::Retry { delay_seconds: 5 });
    assert_eq!(ex.attempts_with_success(), 2);
    assert_eq!(ex.on_failure(), RetryDecision::Retry { delay_seconds: 5 });
    assert!(ex.can_attempt());
    assert_eq!(ex.on_failure(), RetryDecision::GiveUp);
    assert!(!ex.can_attempt());
}
