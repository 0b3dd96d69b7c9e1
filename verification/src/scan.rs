//! The normalized view of one scanner run: parsing the engine's text output
//! into counters and findings, and shaping them into a report event.

use vstd::prelude::*;
use crate::event::{ReportData, ThreatInfo};
use crate::severity::Severity;
use crate::text::{
    contains_sub, find_sub, parse_u32, spec_contains_sub, spec_match_at, spec_parse_u32,
    spec_split_lines, spec_trim, split_lines, trim,
};

verus! {

/// What one scanner run came to, as the application records it.
#[derive(Clone, Debug)]
pub struct ScanResult {
    pub status: String,
    pub files_scanned: u32,
    pub threats_found: u32,
    pub scan_time: String,
    pub log_path: Option<String>,
    pub details: Option<Vec<String>>,
    pub path: String,
    pub timestamp: String,
}

/// The signature database's reported state.
#[derive(Clone, Debug)]
pub struct DatabaseStatus {
    pub version: String,
    pub last_update: String,
    pub signatures: u32,
}

// ---------------------------------------------------------------------------
// Counting findings
// ---------------------------------------------------------------------------

/// How many of the lines carry the scanner's detection marker.
pub open spec fn spec_found_count(lines: Seq<Seq<char>>) -> nat
    decreases lines.len(),
{
    if lines.len() == 0 {
        0
    } else {
        spec_found_count(lines.drop_last()) + if spec_contains_sub(lines.last(), "FOUND"@) {
            1nat
        } else {
            0nat
        }
    }
}

proof fn lemma_found_count_le(lines: Seq<Seq<char>>)
    ensures
        spec_found_count(lines) <= lines.len(),
    decreases lines.len(),
{
    if lines.len() > 0 {
        lemma_found_count_le(lines.drop_last());
    }
}

proof fn lemma_split_lines_len(s: Seq<char>)
    ensures
        spec_split_lines(s).len() <= s.len() + 1,
    decreases s.len(),
{
    if s.len() > 0 {
        lemma_split_lines_len(s.skip(1));
    }
}

/// Counts the detection lines — those carrying `FOUND` — in the scanner's
/// output.
pub fn count_threats_found(output: &str) -> (r: u32)
    requires
        output@.len() < u32::MAX,
    ensures
        r == spec_found_count(spec_split_lines(output@)),
{
    let lines = split_lines(output);
    let ghost dv = lines.deep_view();
    proof {
        lemma_split_lines_len(output@);
        lemma_found_count_le(dv);
    }
    let mut count: u32 = 0;
    let mut i: usize = 0;
    proof {
        assert(dv.take(0) =~= Seq::<Seq<char>>::empty());
    }
    while i < lines.len()
        invariant
            dv == lines.deep_view(),
            dv == spec_split_lines(output@),
            dv.len() <= u32::MAX,
            0 <= i <= dv.len(),
            count == spec_found_count(dv.take(i as int)),
            count <= i,
        decreases dv.len() - i,
    {
        proof {
            lemma_found_count_le(dv.take(i as int));
            assert(dv.take(i + 1).drop_last() =~= dv.take(i as int));
            assert(dv.take(i + 1).last() == dv[i as int]);
            assert(lines@[i as int]@ == dv[i as int]);
        }
        if contains_sub(lines[i].as_str(), "FOUND") {
            count = count + 1;
        }
        i = i + 1;
    }
    proof {
        assert(dv.take(dv.len() as int) =~= dv);
    }
    count
}

/// The detection lines themselves, in output order.
pub open spec fn spec_found_lines(lines: Seq<Seq<char>>) -> Seq<Seq<char>>
    decreases lines.len(),
{
    if lines.len() == 0 {
        Seq::<Seq<char>>::empty()
    } else if spec_contains_sub(lines.last(), "FOUND"@) {
        spec_found_lines(lines.drop_last()).push(lines.last())
    } else {
        spec_found_lines(lines.drop_last())
    }
}

/// Collects the detection lines of the scanner's output, in order.
pub fn collect_found_lines(output: &str) -> (r: Vec<String>)
    ensures
        r.deep_view() == spec_found_lines(spec_split_lines(output@)),
{
    let lines = split_lines(output);
    let ghost dv = lines.deep_view();
    let mut r: Vec<String> = Vec::new();
    let mut i: usize = 0;
    proof {
        assert(dv.take(0) =~= Seq::<Seq<char>>::empty());
        assert(r.deep_view() =~= spec_found_lines(dv.take(0)));
    }
    while i < lines.len()
        invariant
            dv == lines.deep_view(),
            dv == spec_split_lines(output@),
            0 <= i <= dv.len(),
            r.deep_view() == spec_found_lines(dv.take(i as int)),
        decreases dv.len() - i,
    {
        proof {
            assert(dv.take(i + 1).drop_last() =~= dv.take(i as int));
            assert(dv.take(i + 1).last() == dv[i as int]);
            assert(lines@[i as int]@ == dv[i as int]);
        }
        let ghost before = r.deep_view();
        if contains_sub(lines[i].as_str(), "FOUND") {
            r.push(lines[i].clone());
            proof {
                assert(r.deep_view() =~= before.push(dv[i as int]));
            }
        }
        i = i + 1;
    }
    proof {
        assert(dv.take(dv.len() as int) =~= dv);
    }
    r
}

// ---------------------------------------------------------------------------
// The scanned-files counter
// ---------------------------------------------------------------------------

/// The position of the first occurrence of `needle` at or after `from`.
pub open spec fn spec_find_from(hay: Seq<char>, needle: Seq<char>, from: int) -> Option<int>
    decreases hay.len() - from + 1,
        when 0 <= from
{
    if from + needle.len() > hay.len() {
        None
    } else if spec_match_at(hay, needle, from) {
        Some(from)
    } else {
        spec_find_from(hay, needle, from + 1)
    }
}

proof fn lemma_find_from_first(hay: Seq<char>, needle: Seq<char>, from: int, i: int)
    requires
        0 <= from <= i,
        spec_match_at(hay, needle, i),
        forall|j: int| from <= j < i ==> !spec_match_at(hay, needle, j),
    ensures
        spec_find_from(hay, needle, from) == Some(i),
    decreases i - from,
{
    if from < i {
        lemma_find_from_first(hay, needle, from + 1, i);
    }
}

proof fn lemma_find_from_none(hay: Seq<char>, needle: Seq<char>, from: int)
    requires
        0 <= from,
        forall|j: int| !spec_match_at(hay, needle, j),
    ensures
        spec_find_from(hay, needle, from) is None,
    decreases hay.len() - from + 1,
{
    if from + needle.len() <= hay.len() {
        lemma_find_from_none(hay, needle, from + 1);
    }
}

/// The counter a single line yields: the decimal value after the first
/// `Scanned files:` marker, trimmed; nothing when the marker is absent or
/// the tail is not a clean number.
pub open spec fn spec_line_count(line: Seq<char>) -> Option<u32> {
    match spec_find_from(line, "Scanned files:"@, 0) {
        Some(i) => spec_parse_u32(spec_trim(line.skip(i + "Scanned files:"@.len()))),
        None => None,
    }
}

/// The scanned-files count of a whole output: the first line that yields a
/// counter decides; without one, the fallback.
pub open spec fn spec_scanned_files(lines: Seq<Seq<char>>, fallback: u32) -> u32
    decreases lines.len(),
{
    if lines.len() == 0 {
        fallback
    } else {
        match spec_line_count(lines[0]) {
            Some(n) => n,
            None => spec_scanned_files(lines.skip(1), fallback),
        }
    }
}

fn line_count(line: &str) -> (r: Option<u32>)
    ensures
        r == spec_line_count(line@),
{
    let needle = "Scanned files:";
    match find_sub(line, needle) {
        Some(i) => {
            proof {
                lemma_find_from_first(line@, needle@, 0, i as int);
            }
            let nl = needle.unicode_len();
            let ll = line.unicode_len();
            proof {
                assert(i + needle@.len() <= line@.len());
            }
            let tail = line.substring_char(i + nl, ll);
            proof {
                assert(tail@ =~= line@.skip(i + needle@.len()));
            }
            parse_u32(trim(tail))
        },
        None => {
            proof {
                assert(forall|j: int| !spec_match_at(line@, needle@, j));
                lemma_find_from_none(line@, needle@, 0);
            }
            None
        },
    }
}

/// Reads the scanned-files counter out of the scanner's output: the first
/// line carrying `Scanned files:` followed by a clean decimal decides.
/// Without one, the caller-supplied fallback — typically the application's
/// own estimate of the scanned tree's size — is returned.
pub fn count_scanned_files(output: &str, fallback: u32) -> (r: u32)
    ensures
        r == spec_scanned_files(spec_split_lines(output@), fallback),
{
    let lines = split_lines(output);
    let ghost dv = lines.deep_view();
    let mut i: usize = 0;
    proof {
        assert(dv.skip(0) =~= dv);
    }
    while i < lines.len()
        invariant
            dv == lines.deep_view(),
            dv == spec_split_lines(output@),
            0 <= i <= dv.len(),
            spec_scanned_files(dv, fallback) == spec_scanned_files(dv.skip(i as int), fallback),
        decreases dv.len() - i,
    {
        proof {
            assert(lines@[i as int]@ == dv[i as int]);
            assert(dv.skip(i as int)[0] == dv[i as int]);
            assert(dv.skip(i as int).skip(1) =~= dv.skip(i + 1));
        }
        match line_count(lines[i].as_str()) {
            Some(n) => {
                return n;
            },
            None => {},
        }
        i = i + 1;
    }
    proof {
        assert(dv.skip(i as int).len() == 0);
    }
    fallback
}

// ---------------------------------------------------------------------------
// Run status and database size
// ---------------------------------------------------------------------------

/// The status a run reports: `infected` when findings exist, otherwise
/// `safe` when the engine exited cleanly, otherwise `error`.
pub open spec fn spec_scan_status(threats_found: u32, exit_clean: bool) -> Seq<char> {
    if threats_found > 0 {
        "infected"@
    } else if exit_clean {
        "safe"@
    } else {
        "error"@
    }
}

/// The status of a run; `exit_clean` says whether the engine's exit code
/// was one of its two regular codes.
pub fn scan_status(threats_found: u32, exit_clean: bool) -> (r: &'static str)
    ensures
        r@ == spec_scan_status(threats_found, exit_clean),
{
    if threats_found > 0 {
        "infected"
    } else if exit_clean {
        "safe"
    } else {
        "error"
    }
}

/// The signature-count estimate the database's total file size yields.
pub open spec fn spec_signatures_for_size(total_size: u64) -> u32 {
    if total_size > 200000000 {
        8723276
    } else if total_size > 100000000 {
        5000000
    } else {
        1000000
    }
}

/// Estimates the signature count from the database files' total size.
pub fn signatures_for_size(total_size: u64) -> (r: u32)
    ensures
        r == spec_signatures_for_size(total_size),
{
    if total_size > 200000000 {
        8723276
    } else if total_size > 100000000 {
        5000000
    } else {
        1000000
    }
}

/// Digests one scanner run's text output into the recorded result: the
/// parsed counters, the status they yield, and the detection lines as
/// details — `None` when there are none. The run's surroundings (path,
/// timestamps, log location, the exit's cleanliness and the fallback file
/// estimate) are the caller's facts, passed through unchanged.
pub fn summarize_scan_output(
    output: &str,
    fallback_count: u32,
    exit_clean: bool,
    path: &str,
    timestamp: &str,
    scan_time: &str,
    log_path: Option<String>,
) -> (r: ScanResult)
    requires
        output@.len() < u32::MAX,
    ensures
        r.files_scanned == spec_scanned_files(spec_split_lines(output@), fallback_count),
        r.threats_found == spec_found_count(spec_split_lines(output@)),
        r.status@ == spec_scan_status(r.threats_found, exit_clean),
        (match r.details {
            Some(d) => d.deep_view() == spec_found_lines(spec_split_lines(output@))
                && d@.len() > 0,
            None => spec_found_lines(spec_split_lines(output@)).len() == 0,
        }),
        r.path@ == path@,
        r.timestamp@ == timestamp@,
        r.scan_time@ == scan_time@,
        r.log_path == log_path,
{
    let files_scanned = count_scanned_files(output, fallback_count);
    let threats_found = count_threats_found(output);
    let found = collect_found_lines(output);
    let details = if found.len() == 0 {
        None
    } else {
        Some(found)
    };
    ScanResult {
        status: scan_status(threats_found, exit_clean).to_owned(),
        files_scanned,
        threats_found,
        scan_time: scan_time.to_owned(),
        log_path,
        details,
        path: path.to_owned(),
        timestamp: timestamp.to_owned(),
    }
}

// ---------------------------------------------------------------------------
// Shaping a report event
// ---------------------------------------------------------------------------

/// The threat level a run's finding count yields: high past five findings,
/// low otherwise.
pub open spec fn spec_scan_threat_level(threats_found: u32) -> Severity {
    if threats_found > 5 {
        Severity::High
    } else {
        Severity::Low
    }
}

/// Shapes one run's counters into the standing daily-report payload: all
/// findings counted as handled, the fixed insight and recommendation lines,
/// and no telemetry snapshot. `subtitle` and `timestamp` are the caller's,
/// since they name the reporting period.
pub fn report_from_scan(scan: &ScanResult, subtitle: &str, timestamp: &str) -> (r: ReportData)
    ensures
        r.title@ == "Daily security report"@,
        r.subtitle@ == subtitle@,
        r.timestamp@ == timestamp@,
        r.scanned_files == scan.files_scanned,
        r.total_threats == scan.threats_found,
        r.handled_threats == scan.threats_found,
        r.scan_time_tenths == 25,
        r.success_rate_tenths == 985,
        r.threat_level == spec_scan_threat_level(scan.threats_found),
        r.threats@.len() == 0,
        r.ai_insights@.len() == 3,
        r.ai_insights@[0]@ == "Overall system health is good"@,
        r.ai_insights@[1]@ == "Keep the virus database up to date"@,
        r.ai_insights@[2]@ == "A small number of low-risk files is being watched"@,
        r.recommendations@.len() == 3,
        r.recommendations@[0]@ == "Keep scanning on a regular schedule"@,
        r.recommendations@[1]@ == "Apply system patches promptly"@,
        r.recommendations@[2]@ == "Harden the network perimeter"@,
        r.system_info is None,
{
    let mut ai_insights: Vec<String> = Vec::new();
    ai_insights.push("Overall system health is good".to_owned());
    ai_insights.push("Keep the virus database up to date".to_owned());
    ai_insights.push("A small number of low-risk files is being watched".to_owned());
    let mut recommendations: Vec<String> = Vec::new();
    recommendations.push("Keep scanning on a regular schedule".to_owned());
    recommendations.push("Apply system patches promptly".to_owned());
    recommendations.push("Harden the network perimeter".to_owned());
    let threat_level = if scan.threats_found > 5 {
        Severity::High
    } else {
        Severity::Low
    };
    ReportData {
        title: "Daily security report".to_owned(),
        subtitle: subtitle.to_owned(),
        timestamp: timestamp.to_owned(),
        scanned_files: scan.files_scanned,
        total_threats: scan.threats_found,
        handled_threats: scan.threats_found,
        scan_time_tenths: 25,
        success_rate_tenths: 985,
        threat_level,
        threats: Vec::new(),
        ai_insights,
        recommendations,
        system_info: None,
    }
}

/// Shapes one finding's facts into the standing threat payload, marked
/// `detected`; confidence and the detection timestamp are the caller's.
pub fn threat_from_detection(
    threat_type: &str,
    file_path: &str,
    severity: Severity,
    detection_time: &str,
    confidence_tenths: u32,
) -> (t: ThreatInfo)
    ensures
        t.threat_type@ == threat_type@,
        t.file_path@ == file_path@,
        t.severity == severity,
        t.status@ == "detected"@,
        t.detection_time@ == detection_time@,
        t.confidence_tenths == confidence_tenths,
        t.description is None,
{
    ThreatInfo {
        threat_type: threat_type.to_owned(),
        file_path: file_path.to_owned(),
        severity,
        status: "detected".to_owned(),
        detection_time: detection_time.to_owned(),
        confidence_tenths,
        description: None,
    }
}

} // verus!
