//! Deterministic content rendering: one template per event kind and text
//! format, sharing the severity-to-emoji tables. Rendering has no side
//! effects and never fails; absent optional fields render as empty segments.

use vstd::prelude::*;
use crate::config::MessageFormat;
use crate::event::{Event, ReportData, TestInfo, ThreatInfo};
use crate::severity::{
    report_emoji, spec_report_emoji, spec_severity_label, spec_threat_emoji, threat_emoji,
};
use crate::text::{spec_tenths_str, spec_u32_str, tenths_string, u32_string, usize_string};

verus! {

/// The text format a message body is written in.
#[derive(Clone, Copy, Debug, PartialEq, Eq, Structural)]
pub enum TextFormat {
    Plain,
    Markdown,
    Html,
}

/// Channel-ready text, produced fresh per render call and never cached.
#[derive(Clone, Debug, PartialEq)]
pub struct RenderedMessage {
    pub subject: String,
    pub body: String,
    pub format: TextFormat,
}

/// The format the options ask for: HTML wins over Markdown, Markdown over
/// plain text.
pub open spec fn spec_text_format(fmt: MessageFormat) -> TextFormat {
    if fmt.use_html {
        TextFormat::Html
    } else if fmt.use_markdown {
        TextFormat::Markdown
    } else {
        TextFormat::Plain
    }
}

pub fn text_format(fmt: &MessageFormat) -> (r: TextFormat)
    ensures
        r == spec_text_format(*fmt),
{
    if fmt.use_html {
        TextFormat::Html
    } else if fmt.use_markdown {
        TextFormat::Markdown
    } else {
        TextFormat::Plain
    }
}

// ---------------------------------------------------------------------------
// Shared fragments
// ---------------------------------------------------------------------------

/// The emoji fragment for a single threat, or nothing when emoji are off.
pub open spec fn spec_threat_emoji_opt(t: ThreatInfo, fmt: MessageFormat) -> Seq<char> {
    if fmt.include_severity_emoji {
        spec_threat_emoji(t.severity)
    } else {
        Seq::<char>::empty()
    }
}

fn threat_emoji_opt(t: &ThreatInfo, fmt: &MessageFormat) -> (r: &'static str)
    ensures
        r@ == spec_threat_emoji_opt(*t, *fmt),
{
    if fmt.include_severity_emoji {
        threat_emoji(t.severity)
    } else {
        let empty = "";
        proof {
            reveal_strlit("");
            assert(empty@ =~= Seq::<char>::empty());
        }
        empty
    }
}

/// An optional trailing timestamp line: a newline, the given caption, then
/// the timestamp itself — or nothing when timestamps are off.
pub open spec fn spec_ts_line(on: bool, caption: Seq<char>, ts: Seq<char>) -> Seq<char> {
    if on {
        "\n🕐 "@ + caption + ": "@ + ts
    } else {
        Seq::<char>::empty()
    }
}

fn ts_line(on: bool, caption: &str, ts: &str) -> (r: String)
    ensures
        r@ == spec_ts_line(on, caption@, ts@),
{
    let mut s = String::new();
    if on {
        s.append("\n🕐 ");
        s.append(caption);
        s.append(": ");
        s.append(ts);
    }
    s
}

/// A bullet list: each item prefixed `• `, items separated by newlines.
pub open spec fn spec_bullets(items: Seq<String>) -> Seq<char>
    decreases items.len(),
{
    if items.len() == 0 {
        Seq::<char>::empty()
    } else if items.len() == 1 {
        "• "@ + items[0]@
    } else {
        spec_bullets(items.drop_last()) + "\n• "@ + items.last()@
    }
}

fn append_bullets(s: &mut String, items: &Vec<String>)
    ensures
        final(s)@ == old(s)@ + spec_bullets(items@),
{
    let mut i: usize = 0;
    proof {
        assert(items@.take(0) =~= Seq::<String>::empty());
        assert(s@ =~= old(s)@ + spec_bullets(items@.take(0)));
    }
    while i < items.len()
        invariant
            0 <= i <= items@.len(),
            s@ == old(s)@ + spec_bullets(items@.take(i as int)),
        decreases items@.len() - i,
    {
        if i == 0 {
            s.append("• ");
        } else {
            s.append("\n• ");
        }
        s.append(items[i].as_str());
        proof {
            assert(items@.take(i + 1).drop_last() =~= items@.take(i as int));
            assert(items@.take(i + 1).last() == items@[i as int]);
            assert(s@ =~= old(s)@ + spec_bullets(items@.take(i + 1)));
        }
        i = i + 1;
    }
    proof {
        assert(items@.take(items@.len() as int) =~= items@);
    }
}

// ---------------------------------------------------------------------------
// Threat alert
// ---------------------------------------------------------------------------

pub open spec fn spec_threat_alert_md(t: ThreatInfo, fmt: MessageFormat) -> Seq<char> {
    let emoji = spec_threat_emoji_opt(t, fmt);
    "# 🚨 Threat alert "@ + emoji + "\n\n## 🔍 Threat details\n- **Type**: "@ + t.threat_type@
        + "\n- **File**: `"@ + t.file_path@ + "`\n- **Severity**: "@ + spec_severity_label(
        t.severity,
    ) + " "@ + emoji + "\n- **Confidence**: "@ + spec_tenths_str(t.confidence_tenths as nat)
        + "%\n- **Status**: "@ + t.status@
        + "\n\n## ⚡ Recommended actions\n• Quarantine the suspicious file immediately\n• Run a deep system scan\n• Check related system files\n• Update the virus database\n\n## 🔗 Quick response\n[View details](http://localhost:8080#incident) | [Start response](http://localhost:8080#response)"@
        + spec_ts_line(fmt.include_timestamp, "Detected at"@, t.detection_time@)
}

pub open spec fn spec_threat_alert_plain(t: ThreatInfo, fmt: MessageFormat) -> Seq<char> {
    let emoji = spec_threat_emoji_opt(t, fmt);
    "🚨 Threat alert "@ + emoji + "\n\n🔍 Threat details:\n• Type: "@ + t.threat_type@
        + "\n• File: "@ + t.file_path@ + "\n• Severity: "@ + spec_severity_label(t.severity)
        + " "@ + emoji + "\n• Confidence: "@ + spec_tenths_str(t.confidence_tenths as nat)
        + "%\n• Status: "@ + t.status@
        + "\n\n⚡ Recommended actions:\n• Quarantine the suspicious file immediately\n• Run a deep system scan\n• Check related system files\n• Update the virus database\n\n🔗 View details: http://localhost:8080#incident"@
        + spec_ts_line(fmt.include_timestamp, "Detected at"@, t.detection_time@)
}

/// The threat-alert body in the format the options ask for.
pub open spec fn spec_format_threat_alert(t: ThreatInfo, fmt: MessageFormat) -> Seq<char> {
    if fmt.use_markdown {
        spec_threat_alert_md(t, fmt)
    } else {
        spec_threat_alert_plain(t, fmt)
    }
}

/// Renders one finding as an alert body.
pub fn format_threat_alert(t: &ThreatInfo, fmt: &MessageFormat) -> (r: String)
    ensures
        r@ == spec_format_threat_alert(*t, *fmt),
{
    let emoji = threat_emoji_opt(t, fmt);
    let ts = ts_line(fmt.include_timestamp, "Detected at", t.detection_time.as_str());
    let conf = tenths_string(t.confidence_tenths);
    let mut s = String::new();
    if fmt.use_markdown {
        s.append("# 🚨 Threat alert ");
        s.append(emoji);
        s.append("\n\n## 🔍 Threat details\n- **Type**: ");
        s.append(t.threat_type.as_str());
        s.append("\n- **File**: `");
        s.append(t.file_path.as_str());
        s.append("`\n- **Severity**: ");
        s.append(t.severity.label());
        s.append(" ");
        s.append(emoji);
        s.append("\n- **Confidence**: ");
        s.append(conf.as_str());
        s.append("%\n- **Status**: ");
        s.append(t.status.as_str());
        s.append(
            "\n\n## ⚡ Recommended actions\n• Quarantine the suspicious file immediately\n• Run a deep system scan\n• Check related system files\n• Update the virus database\n\n## 🔗 Quick response\n[View details](http://localhost:8080#incident) | [Start response](http://localhost:8080#response)",
        );
        s.append(ts.as_str());
    } else {
        s.append("🚨 Threat alert ");
        s.append(emoji);
        s.append("\n\n🔍 Threat details:\n• Type: ");
        s.append(t.threat_type.as_str());
        s.append("\n• File: ");
        s.append(t.file_path.as_str());
        s.append("\n• Severity: ");
        s.append(t.severity.label());
        s.append(" ");
        s.append(emoji);
        s.append("\n• Confidence: ");
        s.append(conf.as_str());
        s.append("%\n• Status: ");
        s.append(t.status.as_str());
        s.append(
            "\n\n⚡ Recommended actions:\n• Quarantine the suspicious file immediately\n• Run a deep system scan\n• Check related system files\n• Update the virus database\n\n🔗 View details: http://localhost:8080#incident",
        );
        s.append(ts.as_str());
    }
    s
}

// ---------------------------------------------------------------------------
// Daily report
// ---------------------------------------------------------------------------

/// The emoji fragment for a report's overall threat level, or nothing when
/// emoji are off.
pub open spec fn spec_report_emoji_opt(r: ReportData, fmt: MessageFormat) -> Seq<char> {
    if fmt.include_severity_emoji {
        spec_report_emoji(r.threat_level)
    } else {
        Seq::<char>::empty()
    }
}

fn report_emoji_opt(r: &ReportData, fmt: &MessageFormat) -> (e: &'static str)
    ensures
        e@ == spec_report_emoji_opt(*r, *fmt),
{
    if fmt.include_severity_emoji {
        report_emoji(r.threat_level)
    } else {
        let empty = "";
        proof {
            reveal_strlit("");
            assert(empty@ =~= Seq::<char>::empty());
        }
        empty
    }
}

pub open spec fn spec_daily_report_md(r: ReportData, fmt: MessageFormat) -> Seq<char> {
    let emoji = spec_report_emoji_opt(r, fmt);
    "# 📊 Daily security report "@ + emoji
        + "\n\n## 📈 Summary\n- **Files scanned**: "@ + spec_u32_str(r.scanned_files as nat)
        + "\n- **Threats found**: "@ + spec_u32_str(r.total_threats as nat)
        + "\n- **Threats handled**: "@ + spec_u32_str(r.handled_threats as nat)
        + "\n- **Scan time**: "@ + spec_tenths_str(r.scan_time_tenths as nat)
        + "s\n- **Success rate**: "@ + spec_tenths_str(r.success_rate_tenths as nat)
        + "%\n- **Threat level**: "@ + spec_severity_label(r.threat_level) + " "@ + emoji
        + "\n\n## 🧠 Insights\n"@ + spec_bullets(r.ai_insights@)
        + "\n\n## 💡 Recommendations\n"@ + spec_bullets(r.recommendations@)
        + "\n\n## 🔗 Quick links\n[Full report](http://localhost:8080) | [Settings](http://localhost:8080#settings)"@
        + spec_ts_line(fmt.include_timestamp, "Generated at"@, r.timestamp@)
}

pub open spec fn spec_daily_report_plain(r: ReportData, fmt: MessageFormat) -> Seq<char> {
    let emoji = spec_report_emoji_opt(r, fmt);
    "📊 Daily security report "@ + emoji
        + "\n\n📈 Summary:\n• Files scanned: "@ + spec_u32_str(r.scanned_files as nat)
        + "\n• Threats found: "@ + spec_u32_str(r.total_threats as nat)
        + "\n• Threats handled: "@ + spec_u32_str(r.handled_threats as nat)
        + "\n• Scan time: "@ + spec_tenths_str(r.scan_time_tenths as nat)
        + "s\n• Success rate: "@ + spec_tenths_str(r.success_rate_tenths as nat)
        + "%\n• Threat level: "@ + spec_severity_label(r.threat_level) + " "@ + emoji
        + "\n\n🧠 Insights:\n"@ + spec_bullets(r.ai_insights@)
        + "\n\n💡 Recommendations:\n"@ + spec_bullets(r.recommendations@)
        + "\n\n🔗 Full report: http://localhost:8080"@
        + spec_ts_line(fmt.include_timestamp, "Generated at"@, r.timestamp@)
}

/// The daily-report body in the format the options ask for.
pub open spec fn spec_format_daily_report(r: ReportData, fmt: MessageFormat) -> Seq<char> {
    if fmt.use_markdown {
        spec_daily_report_md(r, fmt)
    } else {
        spec_daily_report_plain(r, fmt)
    }
}

/// Renders the aggregate counters and findings of one reporting period.
pub fn format_daily_report(r: &ReportData, fmt: &MessageFormat) -> (out: String)
    ensures
        out@ == spec_format_daily_report(*r, *fmt),
{
    let emoji = report_emoji_opt(r, fmt);
    let ts = ts_line(fmt.include_timestamp, "Generated at", r.timestamp.as_str());
    let scanned = u32_string(r.scanned_files);
    let total = u32_string(r.total_threats);
    let handled = u32_string(r.handled_threats);
    let scan_time = tenths_string(r.scan_time_tenths);
    let rate = tenths_string(r.success_rate_tenths);
    let mut s = String::new();
    if fmt.use_markdown {
        s.append("# 📊 Daily security report ");
        s.append(emoji);
        s.append("\n\n## 📈 Summary\n- **Files scanned**: ");
        s.append(scanned.as_str());
        s.append("\n- **Threats found**: ");
        s.append(total.as_str());
        s.append("\n- **Threats handled**: ");
        s.append(handled.as_str());
        s.append("\n- **Scan time**: ");
        s.append(scan_time.as_str());
        s.append("s\n- **Success rate**: ");
        s.append(rate.as_str());
        s.append("%\n- **Threat level**: ");
        s.append(r.threat_level.label());
        s.append(" ");
        s.append(emoji);
        s.append("\n\n## 🧠 Insights\n");
        append_bullets(&mut s, &r.ai_insights);
        s.append("\n\n## 💡 Recommendations\n");
        append_bullets(&mut s, &r.recommendations);
        s.append(
            "\n\n## 🔗 Quick links\n[Full report](http://localhost:8080) | [Settings](http://localhost:8080#settings)",
        );
        s.append(ts.as_str());
    } else {
        s.append("📊 Daily security report ");
        s.append(emoji);
        s.append("\n\n📈 Summary:\n• Files scanned: ");
        s.append(scanned.as_str());
        s.append("\n• Threats found: ");
        s.append(total.as_str());
        s.append("\n• Threats handled: ");
        s.append(handled.as_str());
        s.append("\n• Scan time: ");
        s.append(scan_time.as_str());
        s.append("s\n• Success rate: ");
        s.append(rate.as_str());
        s.append("%\n• Threat level: ");
        s.append(r.threat_level.label());
        s.append(" ");
        s.append(emoji);
        s.append("\n\n🧠 Insights:\n");
        append_bullets(&mut s, &r.ai_insights);
        s.append("\n\n💡 Recommendations:\n");
        append_bullets(&mut s, &r.recommendations);
        s.append("\n\n🔗 Full report: http://localhost:8080");
        s.append(ts.as_str());
    }
    s
}

// ---------------------------------------------------------------------------
// Emergency alert
// ---------------------------------------------------------------------------

/// How many of the findings are urgent (high or critical).
pub open spec fn spec_urgent_count(ts: Seq<ThreatInfo>) -> nat
    decreases ts.len(),
{
    if ts.len() == 0 {
        0
    } else {
        spec_urgent_count(ts.drop_last()) + if crate::severity::spec_is_urgent(
            ts.last().severity,
        ) {
            1nat
        } else {
            0nat
        }
    }
}

proof fn lemma_urgent_count_le(ts: Seq<ThreatInfo>)
    ensures
        spec_urgent_count(ts) <= ts.len(),
    decreases ts.len(),
{
    if ts.len() > 0 {
        lemma_urgent_count_le(ts.drop_last());
    }
}

/// Counts the findings with an urgent severity.
pub fn urgent_count(ts: &Vec<ThreatInfo>) -> (n: usize)
    ensures
        n == spec_urgent_count(ts@),
{
    let mut n: usize = 0;
    let mut i: usize = 0;
    proof {
        assert(ts@.take(0) =~= Seq::<ThreatInfo>::empty());
    }
    while i < ts.len()
        invariant
            0 <= i <= ts@.len(),
            n == spec_urgent_count(ts@.take(i as int)),
            n <= i,
        decreases ts@.len() - i,
    {
        proof {
            assert(ts@.take(i + 1).drop_last() =~= ts@.take(i as int));
            assert(ts@.take(i + 1).last() == ts@[i as int]);
        }
        if ts[i].severity.is_urgent() {
            n = n + 1;
        }
        i = i + 1;
    }
    proof {
        assert(ts@.take(ts@.len() as int) =~= ts@);
    }
    n
}

/// One listed finding: its type (bold in Markdown), path and confidence.
pub open spec fn spec_threat_line(t: ThreatInfo, bold: bool) -> Seq<char> {
    if bold {
        "• **"@ + t.threat_type@ + "**: "@ + t.file_path@ + " (confidence: "@ + spec_tenths_str(
            t.confidence_tenths as nat,
        ) + "%)"@
    } else {
        "• "@ + t.threat_type@ + ": "@ + t.file_path@ + " (confidence: "@ + spec_tenths_str(
            t.confidence_tenths as nat,
        ) + "%)"@
    }
}

/// The listed findings, one per line.
pub open spec fn spec_threat_lines(ts: Seq<ThreatInfo>, bold: bool) -> Seq<char>
    decreases ts.len(),
{
    if ts.len() == 0 {
        Seq::<char>::empty()
    } else if ts.len() == 1 {
        spec_threat_line(ts[0], bold)
    } else {
        spec_threat_lines(ts.drop_last(), bold) + "\n"@ + spec_threat_line(ts.last(), bold)
    }
}

/// At most the first five findings make the list.
pub open spec fn spec_listed_threats(ts: Seq<ThreatInfo>) -> Seq<ThreatInfo> {
    if ts.len() > 5 {
        ts.take(5)
    } else {
        ts
    }
}

fn append_threat_line(s: &mut String, t: &ThreatInfo, bold: bool)
    ensures
        final(s)@ == old(s)@ + spec_threat_line(*t, bold),
{
    let conf = tenths_string(t.confidence_tenths);
    if bold {
        s.append("• **");
        s.append(t.threat_type.as_str());
        s.append("**: ");
    } else {
        s.append("• ");
        s.append(t.threat_type.as_str());
        s.append(": ");
    }
    s.append(t.file_path.as_str());
    s.append(" (confidence: ");
    s.append(conf.as_str());
    s.append("%)");
    proof {
        assert(s@ =~= old(s)@ + spec_threat_line(*t, bold));
    }
}

fn append_threat_lines(s: &mut String, ts: &Vec<ThreatInfo>, bold: bool)
    ensures
        final(s)@ == old(s)@ + spec_threat_lines(spec_listed_threats(ts@), bold),
{
    let limit = if ts.len() > 5 {
        5
    } else {
        ts.len()
    };
    let ghost listed = spec_listed_threats(ts@);
    proof {
        assert(listed =~= ts@.take(limit as int));
        assert(listed.take(0) =~= Seq::<ThreatInfo>::empty());
    }
    let mut i: usize = 0;
    while i < limit
        invariant
            0 <= i <= limit <= ts@.len(),
            listed == ts@.take(limit as int),
            listed.len() == limit,
            s@ == old(s)@ + spec_threat_lines(listed.take(i as int), bold),
        decreases limit - i,
    {
        if i > 0 {
            s.append("\n");
        }
        append_threat_line(s, &ts[i], bold);
        proof {
            assert(listed.take(i + 1).drop_last() =~= listed.take(i as int));
            assert(listed.take(i + 1).last() == ts@[i as int]);
            assert(s@ =~= old(s)@ + spec_threat_lines(listed.take(i + 1), bold));
        }
        i = i + 1;
    }
    proof {
        assert(listed.take(limit as int) =~= listed);
    }
}

pub open spec fn spec_emergency_alert_md(ts: Seq<ThreatInfo>, fmt: MessageFormat, generated_at: Seq<char>) -> Seq<char> {
    "# 🚨🚨 Emergency security alert 🚨🚨\n\n## ⚠️ Overview\n- **Critical threats**: "@
        + spec_u32_str(spec_urgent_count(ts)) + "\n- **Total threats**: "@ + spec_u32_str(
        ts.len(),
    )
        + "\n- **Affected systems**: 1\n- **Response**: 🔄 automatic response started\n\n## 🔥 Threats\n"@
        + spec_threat_lines(spec_listed_threats(ts), true)
        + "\n\n## ⚡ Actions taken\n• ✅ Suspicious files quarantined\n• ✅ Malicious connections blocked\n• ✅ Deep system scan started\n\n## 🎯 Next steps\n• **Check every affected system now**\n• **Verify the automatic response**\n• **Notify the security team**\n• **Prepare an incident report**\n\n## 🚨 Emergency contacts\n📞 Security hotline: +1-800-SECURITY\n📧 Security team: security@company.com\n\n## 🔗 Emergency response\n[Open the emergency center](http://localhost:8080#emergency)"@
        + spec_ts_line(fmt.include_timestamp, "Raised at"@, generated_at)
}

pub open spec fn spec_emergency_alert_plain(ts: Seq<ThreatInfo>, fmt: MessageFormat, generated_at: Seq<char>) -> Seq<char> {
    "🚨🚨 Emergency security alert 🚨🚨\n\n⚠️ Overview:\n• Critical threats: "@
        + spec_u32_str(spec_urgent_count(ts)) + "\n• Total threats: "@ + spec_u32_str(ts.len())
        + "\n• Affected systems: 1\n• Response: 🔄 automatic response started\n\n🔥 Threats:\n"@
        + spec_threat_lines(spec_listed_threats(ts), false)
        + "\n\n⚡ Actions taken:\n• ✅ Suspicious files quarantined\n• ✅ Malicious connections blocked\n• ✅ Deep system scan started\n\n🎯 Next steps:\n• Check every affected system now\n• Verify the automatic response\n• Notify the security team\n• Prepare an incident report\n\n🚨 Emergency contacts:\n📞 Security hotline: +1-800-SECURITY\n📧 Security team: security@company.com\n\n🔗 Emergency response: http://localhost:8080#emergency"@
        + spec_ts_line(fmt.include_timestamp, "Raised at"@, generated_at)
}

/// The emergency-alert body in the format the options ask for.
pub open spec fn spec_format_emergency_alert(ts: Seq<ThreatInfo>, fmt: MessageFormat, generated_at: Seq<char>) -> Seq<char> {
    if fmt.use_markdown {
        spec_emergency_alert_md(ts, fmt, generated_at)
    } else {
        spec_emergency_alert_plain(ts, fmt, generated_at)
    }
}

/// Renders an ordered set of findings as one emergency alert; `generated_at`
/// is the timestamp the caller produced for this rendering. At most the
/// first five findings are listed.
pub fn format_emergency_alert(ts: &Vec<ThreatInfo>, fmt: &MessageFormat, generated_at: &str) -> (r:
    String)
    ensures
        r@ == spec_format_emergency_alert(ts@, *fmt, generated_at@),
{
    let tsl = ts_line(fmt.include_timestamp, "Raised at", generated_at);
    let n = urgent_count(ts);
    proof {
        lemma_urgent_count_le(ts@);
    }
    let count = usize_string(n);
    let total = usize_string(ts.len());
    let mut s = String::new();
    if fmt.use_markdown {
        s.append("# 🚨🚨 Emergency security alert 🚨🚨\n\n## ⚠️ Overview\n- **Critical threats**: ");
        s.append(count.as_str());
        s.append("\n- **Total threats**: ");
        s.append(total.as_str());
        s.append(
            "\n- **Affected systems**: 1\n- **Response**: 🔄 automatic response started\n\n## 🔥 Threats\n",
        );
        append_threat_lines(&mut s, ts, true);
        s.append(
            "\n\n## ⚡ Actions taken\n• ✅ Suspicious files quarantined\n• ✅ Malicious connections blocked\n• ✅ Deep system scan started\n\n## 🎯 Next steps\n• **Check every affected system now**\n• **Verify the automatic response**\n• **Notify the security team**\n• **Prepare an incident report**\n\n## 🚨 Emergency contacts\n📞 Security hotline: +1-800-SECURITY\n📧 Security team: security@company.com\n\n## 🔗 Emergency response\n[Open the emergency center](http://localhost:8080#emergency)",
        );
        s.append(tsl.as_str());
    } else {
        s.append("🚨🚨 Emergency security alert 🚨🚨\n\n⚠️ Overview:\n• Critical threats: ");
        s.append(count.as_str());
        s.append("\n• Total threats: ");
        s.append(total.as_str());
        s.append(
            "\n• Affected systems: 1\n• Response: 🔄 automatic response started\n\n🔥 Threats:\n",
        );
        append_threat_lines(&mut s, ts, false);
        s.append(
            "\n\n⚡ Actions taken:\n• ✅ Suspicious files quarantined\n• ✅ Malicious connections blocked\n• ✅ Deep system scan started\n\n🎯 Next steps:\n• Check every affected system now\n• Verify the automatic response\n• Notify the security team\n• Prepare an incident report\n\n🚨 Emergency contacts:\n📞 Security hotline: +1-800-SECURITY\n📧 Security team: security@company.com\n\n🔗 Emergency response: http://localhost:8080#emergency",
        );
        s.append(tsl.as_str());
    }
    s
}

// ---------------------------------------------------------------------------
// Test message
// ---------------------------------------------------------------------------

pub open spec fn spec_test_message_md(info: TestInfo, fmt: MessageFormat, generated_at: Seq<char>) -> Seq<char> {
    "# 🧪 Connectivity test\n\n## ✅ Status\nThe notification service is configured and can deliver messages.\n\n## 📋 Session\n- **Server**: "@
        + info.homeserver@ + "\n- **User**: "@ + info.username@ + "\n- **Device**: "@
        + info.device_name@ + spec_ts_line(fmt.include_timestamp, "Tested at"@, generated_at)
}

pub open spec fn spec_test_message_plain(info: TestInfo, fmt: MessageFormat, generated_at: Seq<char>) -> Seq<char> {
    "🧪 Connectivity test\n\n✅ Status:\nThe notification service is configured and can deliver messages.\n\n📋 Session:\n• Server: "@
        + info.homeserver@ + "\n• User: "@ + info.username@ + "\n• Device: "@ + info.device_name@
        + spec_ts_line(fmt.include_timestamp, "Tested at"@, generated_at)
}

/// The test-message body in the format the options ask for.
pub open spec fn spec_format_test_message(info: TestInfo, fmt: MessageFormat, generated_at: Seq<char>) -> Seq<char> {
    if fmt.use_markdown {
        spec_test_message_md(info, fmt, generated_at)
    } else {
        spec_test_message_plain(info, fmt, generated_at)
    }
}

/// Renders the connectivity-test body; `generated_at` is the timestamp the
/// caller produced for this rendering.
pub fn format_test_message(info: &TestInfo, fmt: &MessageFormat, generated_at: &str) -> (r: String)
    ensures
        r@ == spec_format_test_message(*info, *fmt, generated_at@),
{
    let ts = ts_line(fmt.include_timestamp, "Tested at", generated_at);
    let mut s = String::new();
    if fmt.use_markdown {
        s.append(
            "# 🧪 Connectivity test\n\n## ✅ Status\nThe notification service is configured and can deliver messages.\n\n## 📋 Session\n- **Server**: ",
        );
        s.append(info.homeserver.as_str());
        s.append("\n- **User**: ");
        s.append(info.username.as_str());
        s.append("\n- **Device**: ");
        s.append(info.device_name.as_str());
        s.append(ts.as_str());
    } else {
        s.append(
            "🧪 Connectivity test\n\n✅ Status:\nThe notification service is configured and can deliver messages.\n\n📋 Session:\n• Server: ",
        );
        s.append(info.homeserver.as_str());
        s.append("\n• User: ");
        s.append(info.username.as_str());
        s.append("\n• Device: ");
        s.append(info.device_name.as_str());
        s.append(ts.as_str());
    }
    s
}

// ---------------------------------------------------------------------------
// Rendering an event
// ---------------------------------------------------------------------------

/// The subject line owed to each event kind.
pub open spec fn spec_subject(e: Event) -> Seq<char> {
    match e {
        Event::Report(r) => "📊 "@ + r.title@,
        Event::Threat(t) => "🚨 Threat alert - "@ + t.threat_type@ + " ("@ + spec_severity_label(
            t.severity,
        ) + ")"@,
        Event::Emergency(ts) => "🚨🚨 Emergency security alert - "@ + spec_u32_str(ts@.len())
            + " critical threats"@,
        Event::Test(_) => "🧪 Notification service test"@,
    }
}

/// The body owed to each event kind, format and generation timestamp.
pub open spec fn spec_body(e: Event, fmt: MessageFormat, generated_at: Seq<char>) -> Seq<char> {
    match e {
        Event::Report(r) => spec_format_daily_report(r, fmt),
        Event::Threat(t) => spec_format_threat_alert(t, fmt),
        Event::Emergency(ts) => spec_format_emergency_alert(ts@, fmt, generated_at),
        Event::Test(info) => spec_format_test_message(info, fmt, generated_at),
    }
}

/// Renders an event into channel-ready text. Deterministic: the subject,
/// body and format are functions of the arguments alone; `generated_at` is
/// the timestamp the caller produced for this rendering, read only by the
/// emergency and test templates.
pub fn render(e: &Event, fmt: &MessageFormat, generated_at: &str) -> (r: RenderedMessage)
    ensures
        r.subject@ == spec_subject(*e),
        r.body@ == spec_body(*e, *fmt, generated_at@),
        r.format == spec_text_format(*fmt),
{
    let format = text_format(fmt);
    match e {
        Event::Report(report) => {
            let mut subject = String::new();
            subject.append("📊 ");
            subject.append(report.title.as_str());
            RenderedMessage { subject, body: format_daily_report(report, fmt), format }
        },
        Event::Threat(threat) => {
            let mut subject = String::new();
            subject.append("🚨 Threat alert - ");
            subject.append(threat.threat_type.as_str());
            subject.append(" (");
            subject.append(threat.severity.label());
            subject.append(")");
            RenderedMessage { subject, body: format_threat_alert(threat, fmt), format }
        },
        Event::Emergency(threats) => {
            let count = usize_string(threats.len());
            let mut subject = String::new();
            subject.append("🚨🚨 Emergency security alert - ");
            subject.append(count.as_str());
            subject.append(" critical threats");
            RenderedMessage {
                subject,
                body: format_emergency_alert(threats, fmt, generated_at),
                format,
            }
        },
        Event::Test(info) => {
            let subject = "🧪 Notification service test".to_owned();
            RenderedMessage { subject, body: format_test_message(info, fmt, generated_at), format }
        },
    }
}

/// Rendering is pure: two renderings of the same event, with the same format
/// options and the same generation timestamp, agree character for character
/// in subject and body, and in format.
pub proof fn lemma_render_deterministic(
    e: Event,
    fmt: MessageFormat,
    generated_at: Seq<char>,
    r1: RenderedMessage,
    r2: RenderedMessage,
)
    requires
        r1.subject@ == spec_subject(e),
        r1.body@ == spec_body(e, fmt, generated_at),
        r1.format == spec_text_format(fmt),
        r2.subject@ == spec_subject(e),
        r2.body@ == spec_body(e, fmt, generated_at),
        r2.format == spec_text_format(fmt),
    ensures
        r1.subject@ == r2.subject@,
        r1.body@ == r2.body@,
        r1.format == r2.format,
{
}

} // verus!
