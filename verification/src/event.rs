//! The events the engine delivers: periodic reports, single-threat alerts,
//! emergency alerts over several findings, and connectivity tests.
//!
//! Fractional quantities (confidence, scan time, success rate) are held in
//! tenths, so a confidence of 95.5% is the integer 955.

use vstd::prelude::*;
use crate::severity::Severity;

verus! {

/// An optional system-telemetry snapshot embedded in report payloads;
/// usage percentages are held in tenths.
#[derive(Clone, Debug)]
pub struct SystemInfo {
    pub cpu_usage_tenths: u32,
    pub memory_usage_tenths: u32,
    pub disk_usage_tenths: u32,
    pub uptime: String,
}

/// One finding: what was detected, where, how bad, and how sure.
#[derive(Clone, Debug)]
pub struct ThreatInfo {
    pub threat_type: String,
    pub file_path: String,
    pub severity: Severity,
    pub status: String,
    pub detection_time: String,
    /// Detection confidence in tenths of a percent, at most 1000.
    pub confidence_tenths: u32,
    pub description: Option<String>,
}

/// The aggregate counters and findings of one reporting period.
#[derive(Clone, Debug)]
pub struct ReportData {
    pub title: String,
    pub subtitle: String,
    pub timestamp: String,
    pub scanned_files: u32,
    pub total_threats: u32,
    pub handled_threats: u32,
    /// Elapsed scan time in tenths of a second.
    pub scan_time_tenths: u32,
    /// Success rate in tenths of a percent, at most 1000.
    pub success_rate_tenths: u32,
    pub threat_level: Severity,
    pub threats: Vec<ThreatInfo>,
    pub ai_insights: Vec<String>,
    pub recommendations: Vec<String>,
    pub system_info: Option<SystemInfo>,
}

/// What a connectivity-test message reports about the session under test.
#[derive(Clone, Debug)]
pub struct TestInfo {
    pub homeserver: String,
    pub username: String,
    pub device_name: String,
}

/// A security event to be delivered; every variant but `Test` carries its
/// own severity information.
#[derive(Clone, Debug)]
pub enum Event {
    Report(ReportData),
    Threat(ThreatInfo),
    Emergency(Vec<ThreatInfo>),
    Test(TestInfo),
}

} // verus!
