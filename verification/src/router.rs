//! Severity routing: which destination bucket an event goes to, and the
//! guarantee that an empty bucket fails fast instead of sending partially.

use vstd::prelude::*;
use crate::config::{RecipientsConfig, RoomConfig};
use crate::event::{Event, ReportData, ThreatInfo};
use crate::severity::spec_is_urgent;

verus! {

/// The four named destination groups of one channel. For the chat channel
/// each group holds at most one room; an unset room is an empty group.
#[derive(Clone, Debug)]
pub struct Buckets {
    pub default: Vec<String>,
    pub emergency: Vec<String>,
    pub reports: Vec<String>,
    pub admin: Vec<String>,
}

/// Routing fails only when the selected bucket is empty; fatal for that
/// channel alone.
#[derive(Clone, Copy, Debug, PartialEq, Eq, Structural)]
pub enum RoutingError {
    EmptyDestination,
}

/// The buckets the router selects among.
#[derive(Clone, Copy, Debug, PartialEq, Eq, Structural)]
pub enum BucketKind {
    Default,
    Emergency,
    Reports,
}

/// Which bucket an event kind and severity select: urgent threats and
/// emergencies go to `Emergency`, other threats to `Default`, reports to
/// `Reports`. Test events are not routed through buckets.
pub open spec fn spec_bucket_kind(e: Event) -> BucketKind
    recommends
        !(e is Test),
{
    match e {
        Event::Report(_) => BucketKind::Reports,
        Event::Threat(t) => if spec_is_urgent(t.severity) {
            BucketKind::Emergency
        } else {
            BucketKind::Default
        },
        Event::Emergency(_) => BucketKind::Emergency,
        Event::Test(_) => BucketKind::Default,
    }
}

pub open spec fn spec_bucket(b: Buckets, k: BucketKind) -> Seq<String> {
    match k {
        BucketKind::Default => b.default@,
        BucketKind::Emergency => b.emergency@,
        BucketKind::Reports => b.reports@,
    }
}

/// The destination sequence an event selects from the given buckets.
pub open spec fn spec_selected(e: Event, b: Buckets) -> Seq<String> {
    spec_bucket(b, spec_bucket_kind(e))
}

fn clone_string_vec(v: &Vec<String>) -> (r: Vec<String>)
    ensures
        r@ == v@,
{
    let mut r: Vec<String> = Vec::new();
    let mut i: usize = 0;
    while i < v.len()
        invariant
            0 <= i <= v@.len(),
            r@.len() == i,
            forall|j: int| 0 <= j < i ==> r@[j] == v@[j],
        decreases v@.len() - i,
    {
        r.push(v[i].clone());
        i = i + 1;
    }
    proof {
        assert(r@ =~= v@);
    }
    r
}

/// Resolves the destination set for an event, or fails with
/// `EmptyDestination` exactly when the selected bucket is empty. Test
/// events take a single caller-supplied destination and are not resolved
/// here.
pub fn destinations(e: &Event, b: &Buckets) -> (r: Result<Vec<String>, RoutingError>)
    requires
        !(e is Test),
    ensures
        match r {
            Ok(d) => d@ == spec_selected(*e, *b) && d@.len() > 0,
            Err(err) => err is EmptyDestination && spec_selected(*e, *b).len() == 0,
        },
{
    let bucket: &Vec<String> = match e {
        Event::Report(_) => &b.reports,
        Event::Threat(t) => if t.severity.is_urgent() {
            &b.emergency
        } else {
            &b.default
        },
        Event::Emergency(_) => &b.emergency,
        Event::Test(_) => &b.default,
    };
    if bucket.len() == 0 {
        Err(RoutingError::EmptyDestination)
    } else {
        Ok(clone_string_vec(bucket))
    }
}

// ---------------------------------------------------------------------------
// Channel buckets from configuration
// ---------------------------------------------------------------------------

/// The mail channel's buckets; mail has no admin group.
pub fn mail_buckets(rc: &RecipientsConfig) -> (b: Buckets)
    ensures
        b.default@ == rc.default@,
        b.emergency@ == rc.emergency@,
        b.reports@ == rc.reports@,
        b.admin@.len() == 0,
{
    Buckets {
        default: clone_string_vec(&rc.default),
        emergency: clone_string_vec(&rc.emergency),
        reports: clone_string_vec(&rc.reports),
        admin: Vec::new(),
    }
}

/// A configured room is a one-member bucket; an unset room an empty one.
pub open spec fn spec_room_bucket(room: String) -> Seq<String> {
    if room@.len() == 0 {
        Seq::<String>::empty()
    } else {
        seq![room]
    }
}

fn room_bucket(room: &String) -> (r: Vec<String>)
    ensures
        r@ == spec_room_bucket(*room),
{
    let mut r: Vec<String> = Vec::new();
    if !room.as_str().is_empty() {
        r.push(room.clone());
        proof {
            assert(r@ =~= seq![*room]);
        }
    }
    r
}

/// The chat channel's buckets, one per configured room.
pub fn chat_buckets(rooms: &RoomConfig) -> (b: Buckets)
    ensures
        b.default@ == spec_room_bucket(rooms.default_room),
        b.emergency@ == spec_room_bucket(rooms.emergency_room),
        b.reports@ == spec_room_bucket(rooms.reports_room),
        b.admin@ == spec_room_bucket(rooms.admin_room),
{
    Buckets {
        default: room_bucket(&rooms.default_room),
        emergency: room_bucket(&rooms.emergency_room),
        reports: room_bucket(&rooms.reports_room),
        admin: room_bucket(&rooms.admin_room),
    }
}

// ---------------------------------------------------------------------------
// Routing laws
// ---------------------------------------------------------------------------

/// A threat of high or critical severity selects exactly the emergency
/// bucket.
pub proof fn lemma_urgent_threat_routes_to_emergency(t: ThreatInfo, b: Buckets)
    requires
        spec_is_urgent(t.severity),
    ensures
        spec_selected(Event::Threat(t), b) == b.emergency@,
{
}

/// A threat of low, medium or unknown severity selects exactly the default
/// bucket.
pub proof fn lemma_ordinary_threat_routes_to_default(t: ThreatInfo, b: Buckets)
    requires
        !spec_is_urgent(t.severity),
    ensures
        spec_selected(Event::Threat(t), b) == b.default@,
{
}

/// A report selects exactly the reports bucket, whatever the severities of
/// the findings it carries.
pub proof fn lemma_report_routes_to_reports(r: ReportData, b: Buckets)
    ensures
        spec_selected(Event::Report(r), b) == b.reports@,
{
}

} // verus!
