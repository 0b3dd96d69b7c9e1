//! The five-level severity classification, its string form, and the two
//! fixed severity-to-emoji tables used by the renderer.

use vstd::prelude::*;
use crate::text::str_eq;

verus! {

/// The five-level urgency classification attached to threat-bearing events.
#[derive(Clone, Copy, Debug, PartialEq, Eq, Structural)]
pub enum Severity {
    Low,
    Medium,
    High,
    Critical,
    Unknown,
}

/// Severities that route a threat to the emergency bucket.
pub open spec fn spec_is_urgent(s: Severity) -> bool {
    s is High || s is Critical
}

/// The canonical lower-case name of a severity.
pub open spec fn spec_severity_label(s: Severity) -> Seq<char> {
    match s {
        Severity::Low => "low"@,
        Severity::Medium => "medium"@,
        Severity::High => "high"@,
        Severity::Critical => "critical"@,
        Severity::Unknown => "unknown"@,
    }
}

/// The case-sensitive reading of a severity string; anything outside the
/// fixed enumeration is `Unknown`.
pub open spec fn spec_parse_severity(s: Seq<char>) -> Severity {
    if s == "low"@ {
        Severity::Low
    } else if s == "medium"@ {
        Severity::Medium
    } else if s == "high"@ {
        Severity::High
    } else if s == "critical"@ {
        Severity::Critical
    } else {
        Severity::Unknown
    }
}

/// The emoji standing for an overall report threat level.
pub open spec fn spec_report_emoji(s: Severity) -> Seq<char> {
    match s {
        Severity::High => "🔴"@,
        Severity::Medium => "🟡"@,
        Severity::Low => "🟢"@,
        _ => "⚪"@,
    }
}

/// The emoji standing for a single threat's severity.
pub open spec fn spec_threat_emoji(s: Severity) -> Seq<char> {
    match s {
        Severity::Critical => "🔴"@,
        Severity::High => "🟠"@,
        Severity::Medium => "🟡"@,
        Severity::Low => "🟢"@,
        Severity::Unknown => "⚪"@,
    }
}

impl Severity {
    /// True exactly for the severities that demand emergency routing.
    pub fn is_urgent(&self) -> (b: bool)
        ensures
            b == spec_is_urgent(*self),
    {
        match self {
            Severity::High => true,
            Severity::Critical => true,
            _ => false,
        }
    }

    /// The canonical lower-case name of this severity.
    pub fn label(&self) -> (r: &'static str)
        ensures
            r@ == spec_severity_label(*self),
    {
        match self {
            Severity::Low => "low",
            Severity::Medium => "medium",
            Severity::High => "high",
            Severity::Critical => "critical",
            Severity::Unknown => "unknown",
        }
    }

    /// Reads a severity string, case-sensitively; anything outside the fixed
    /// enumeration counts as `Unknown`.
    pub fn parse(s: &str) -> (r: Severity)
        ensures
            r == spec_parse_severity(s@),
    {
        if str_eq(s, "low") {
            Severity::Low
        } else if str_eq(s, "medium") {
            Severity::Medium
        } else if str_eq(s, "high") {
            Severity::High
        } else if str_eq(s, "critical") {
            Severity::Critical
        } else {
            Severity::Unknown
        }
    }
}

/// The emoji standing for an overall report threat level.
pub fn report_emoji(s: Severity) -> (r: &'static str)
    ensures
        r@ == spec_report_emoji(s),
{
    match s {
        Severity::High => "🔴",
        Severity::Medium => "🟡",
        Severity::Low => "🟢",
        _ => "⚪",
    }
}

/// The emoji standing for a single threat's severity.
pub fn threat_emoji(s: Severity) -> (r: &'static str)
    ensures
        r@ == spec_threat_emoji(s),
{
    match s {
        Severity::Critical => "🔴",
        Severity::High => "🟠",
        Severity::Medium => "🟡",
        Severity::Low => "🟢",
        Severity::Unknown => "⚪",
    }
}

} // verus!
