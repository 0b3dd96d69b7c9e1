//! Dispatch orchestration: per channel, check enabled, render, route, and
//! plan send-with-retry for each destination. Planning is pure; an
//! application loop performs the sends and pauses and folds the transport
//! outcomes back into a report.

use vstd::prelude::*;
use crate::config::{
    ConfigError, EmailConfig, MatrixConfig, MessageFormat, RecipientsConfig, RetryConfig,
    RoomConfig, spec_validate_email, spec_validate_matrix, validate_email_config,
    validate_matrix_config,
};
use crate::event::{Event, TestInfo, ThreatInfo};
use crate::render::{render, spec_body, spec_subject, spec_text_format, RenderedMessage};
use crate::retry::{run_scripted, spec_retry_contract, RetryOutcome};
use crate::router::{
    chat_buckets, destinations, mail_buckets, spec_bucket_kind, spec_room_bucket, BucketKind,
    RoutingError,
};
use crate::severity::spec_is_urgent;

verus! {

/// A transport-level failure; always retryable at this layer, including the
/// permanently-invalid-destination kinds, which consume the full attempt
/// budget like any other failure.
#[derive(Clone, Debug, PartialEq, Eq)]
pub enum TransportError {
    UnknownRoom(String),
    InvalidAddress(String),
    SendFailed(String),
}

/// The description owed to each transport error.
pub open spec fn spec_transport_error_message(e: TransportError) -> Seq<char> {
    match e {
        TransportError::UnknownRoom(room) => "unknown room: "@ + room@,
        TransportError::InvalidAddress(addr) => "invalid address: "@ + addr@,
        TransportError::SendFailed(detail) => "send failed: "@ + detail@,
    }
}

impl TransportError {
    /// A short description, for operator-facing reporting.
    pub fn message(&self) -> (r: String)
        ensures
            r@ == spec_transport_error_message(*self),
    {
        let mut s = String::new();
        match self {
            TransportError::UnknownRoom(room) => {
                s.append("unknown room: ");
                s.append(room.as_str());
            },
            TransportError::InvalidAddress(addr) => {
                s.append("invalid address: ");
                s.append(addr.as_str());
            },
            TransportError::SendFailed(detail) => {
                s.append("send failed: ");
                s.append(detail.as_str());
            },
        }
        s
    }

    /// A field-for-field copy.
    pub fn duplicate(&self) -> (r: TransportError)
        ensures
            r == *self,
    {
        match self {
            TransportError::UnknownRoom(room) => TransportError::UnknownRoom(room.clone()),
            TransportError::InvalidAddress(addr) => TransportError::InvalidAddress(addr.clone()),
            TransportError::SendFailed(detail) => TransportError::SendFailed(detail.clone()),
        }
    }
}

/// What one destination's delivery came to: delivered, or failed with the
/// most recent error after the attempt budget ran out. `attempts_made`
/// never exceeds the policy's `max_attempts`.
#[derive(Clone, Debug, PartialEq)]
pub enum DestinationOutcome {
    Delivered { attempts_made: u32 },
    Failed { last_error: TransportError, attempts_made: u32 },
}

/// What the engine decided for one channel before any sending.
#[derive(Clone, Debug)]
pub enum ChannelPlan {
    /// The channel is disabled: nothing is sent, and that is no error.
    Skipped,
    /// The selected bucket was empty: nothing is sent on this channel.
    NotRouted(RoutingError),
    /// Send the message to each destination in order under the retry policy.
    Send { message: RenderedMessage, destinations: Vec<String>, retry: RetryConfig },
}

// ---------------------------------------------------------------------------
// Channel planning
// ---------------------------------------------------------------------------

/// The content options of the mail channel: flat text with emoji and
/// timestamps. The application may instead wrap the planned content in a
/// styled document template when it sends.
pub open spec fn spec_mail_format() -> MessageFormat {
    MessageFormat {
        use_markdown: false,
        use_html: false,
        include_timestamp: true,
        include_severity_emoji: true,
    }
}

pub fn mail_format() -> (r: MessageFormat)
    ensures
        r == spec_mail_format(),
{
    MessageFormat {
        use_markdown: false,
        use_html: false,
        include_timestamp: true,
        include_severity_emoji: true,
    }
}

/// The destinations an event selects from the mail buckets.
pub open spec fn spec_mail_selected(rc: RecipientsConfig, e: Event) -> Seq<String> {
    match spec_bucket_kind(e) {
        BucketKind::Default => rc.default@,
        BucketKind::Emergency => rc.emergency@,
        BucketKind::Reports => rc.reports@,
    }
}

/// The destinations an event selects from the chat rooms.
pub open spec fn spec_chat_selected(rooms: RoomConfig, e: Event) -> Seq<String> {
    match spec_bucket_kind(e) {
        BucketKind::Default => spec_room_bucket(rooms.default_room),
        BucketKind::Emergency => spec_room_bucket(rooms.emergency_room),
        BucketKind::Reports => spec_room_bucket(rooms.reports_room),
    }
}

/// The plan owed to the mail channel: skipped when disabled, failed routing
/// exactly when the selected bucket is empty, else the rendered message,
/// the whole selected bucket and the configured retry policy.
pub open spec fn spec_mail_plan(cfg: EmailConfig, e: Event, gen: Seq<char>, p: ChannelPlan) -> bool {
    if !cfg.enabled {
        p is Skipped
    } else if spec_mail_selected(cfg.recipients, e).len() == 0 {
        p == ChannelPlan::NotRouted(RoutingError::EmptyDestination)
    } else {
        &&& p matches ChannelPlan::Send { message, destinations, retry }
        &&& destinations@ == spec_mail_selected(cfg.recipients, e)
        &&& retry == cfg.retry
        &&& message.subject@ == spec_subject(e)
        &&& message.body@ == spec_body(e, spec_mail_format(), gen)
        &&& message.format == spec_text_format(spec_mail_format())
    }
}

/// The plan owed to the chat channel, under its configured content options.
pub open spec fn spec_chat_plan(cfg: MatrixConfig, e: Event, gen: Seq<char>, p: ChannelPlan) -> bool {
    if !cfg.enabled {
        p is Skipped
    } else if spec_chat_selected(cfg.rooms, e).len() == 0 {
        p == ChannelPlan::NotRouted(RoutingError::EmptyDestination)
    } else {
        &&& p matches ChannelPlan::Send { message, destinations, retry }
        &&& destinations@ == spec_chat_selected(cfg.rooms, e)
        &&& retry == cfg.retry
        &&& message.subject@ == spec_subject(e)
        &&& message.body@ == spec_body(e, cfg.message_format, gen)
        &&& message.format == spec_text_format(cfg.message_format)
    }
}

/// Plans the mail channel for an event: disabled means skipped, an empty
/// selected bucket fails fast with no destination handed out, otherwise
/// every member of the selected bucket is planned. `generated_at` is the
/// timestamp for render-time templates. Performs no validation and no
/// sending.
pub fn plan_mail_dispatch(cfg: &EmailConfig, e: &Event, generated_at: &str) -> (p: ChannelPlan)
    requires
        !(e is Test),
    ensures
        spec_mail_plan(*cfg, *e, generated_at@, p),
{
    if !cfg.enabled {
        return ChannelPlan::Skipped;
    }
    let buckets = mail_buckets(&cfg.recipients);
    match destinations(e, &buckets) {
        Err(err) => ChannelPlan::NotRouted(err),
        Ok(d) => {
            let fmt = mail_format();
            let message = render(e, &fmt, generated_at);
            ChannelPlan::Send { message, destinations: d, retry: cfg.retry }
        },
    }
}

/// Plans the chat channel for an event, as `plan_mail_dispatch` does for
/// mail, with the channel's own content options.
pub fn plan_chat_dispatch(cfg: &MatrixConfig, e: &Event, generated_at: &str) -> (p: ChannelPlan)
    requires
        !(e is Test),
    ensures
        spec_chat_plan(*cfg, *e, generated_at@, p),
{
    if !cfg.enabled {
        return ChannelPlan::Skipped;
    }
    let buckets = chat_buckets(&cfg.rooms);
    match destinations(e, &buckets) {
        Err(err) => ChannelPlan::NotRouted(err),
        Ok(d) => {
            let message = render(e, &cfg.message_format, generated_at);
            ChannelPlan::Send { message, destinations: d, retry: cfg.retry }
        },
    }
}

// ---------------------------------------------------------------------------
// Test-message planning
// ---------------------------------------------------------------------------

/// Plans a mail connectivity test to one caller-supplied recipient; test
/// events are never looked up in buckets.
pub fn plan_mail_test(cfg: &EmailConfig, recipient: &String, generated_at: &str) -> (p: ChannelPlan)
    ensures
        p matches ChannelPlan::Send { message, destinations, retry } && {
            let info = TestInfo {
                homeserver: cfg.smtp.server,
                username: cfg.sender.email,
                device_name: cfg.sender.name,
            };
            &&& destinations@ == seq![*recipient]
            &&& retry == cfg.retry
            &&& message.subject@ == spec_subject(Event::Test(info))
            &&& message.body@ == spec_body(Event::Test(info), spec_mail_format(), generated_at@)
            &&& message.format == spec_text_format(spec_mail_format())
        },
{
    let info = TestInfo {
        homeserver: cfg.smtp.server.clone(),
        username: cfg.sender.email.clone(),
        device_name: cfg.sender.name.clone(),
    };
    let e = Event::Test(info);
    let fmt = mail_format();
    let message = render(&e, &fmt, generated_at);
    let mut d: Vec<String> = Vec::new();
    d.push(recipient.clone());
    proof {
        assert(d@ =~= seq![*recipient]);
    }
    ChannelPlan::Send { message, destinations: d, retry: cfg.retry }
}

/// Plans a chat connectivity test to one caller-supplied room. A disabled
/// channel plans `Skipped`; the caller decides whether to surface that as
/// an error for an explicitly requested test.
pub fn plan_chat_test(cfg: &MatrixConfig, room_id: &String, generated_at: &str) -> (p: ChannelPlan)
    ensures
        !cfg.enabled ==> p is Skipped,
        cfg.enabled ==> (p matches ChannelPlan::Send { message, destinations, retry } && {
            let info = TestInfo {
                homeserver: cfg.homeserver,
                username: cfg.username,
                device_name: cfg.device_name,
            };
            &&& destinations@ == seq![*room_id]
            &&& retry == cfg.retry
            &&& message.subject@ == spec_subject(Event::Test(info))
            &&& message.body@ == spec_body(Event::Test(info), cfg.message_format, generated_at@)
            &&& message.format == spec_text_format(cfg.message_format)
        }),
{
    if !cfg.enabled {
        return ChannelPlan::Skipped;
    }
    let info = TestInfo {
        homeserver: cfg.homeserver.clone(),
        username: cfg.username.clone(),
        device_name: cfg.device_name.clone(),
    };
    let e = Event::Test(info);
    let message = render(&e, &cfg.message_format, generated_at);
    let mut d: Vec<String> = Vec::new();
    d.push(room_id.clone());
    proof {
        assert(d@ =~= seq![*room_id]);
    }
    ChannelPlan::Send { message, destinations: d, retry: cfg.retry }
}

// ---------------------------------------------------------------------------
// Whole-call planning with validation
// ---------------------------------------------------------------------------

/// The plan of one dispatch call over the two channels; a channel that was
/// not requested is planned as `Skipped`.
#[derive(Clone, Debug)]
pub struct DispatchPlan {
    pub mail: ChannelPlan,
    pub chat: ChannelPlan,
}

/// Plans one dispatch call: every requested, enabled channel's
/// configuration is validated first, and the first validation failure
/// short-circuits the whole call with no channel planned; then each
/// requested channel is planned. A disabled channel is skipped, not
/// validated, and no error.
pub fn plan_dispatch(
    e: &Event,
    mail: Option<&EmailConfig>,
    chat: Option<&MatrixConfig>,
    generated_at: &str,
) -> (r: Result<DispatchPlan, ConfigError>)
    requires
        !(e is Test),
    ensures
        match r {
            Ok(p) => {
                &&& (mail matches Some(mc) ==> (mc.enabled ==> spec_validate_email(*mc) is None)
                    && spec_mail_plan(*mc, *e, generated_at@, p.mail))
                &&& (mail is None ==> p.mail is Skipped)
                &&& (chat matches Some(cc) ==> (cc.enabled ==> spec_validate_matrix(*cc) is None)
                    && spec_chat_plan(*cc, *e, generated_at@, p.chat))
                &&& (chat is None ==> p.chat is Skipped)
            },
            Err(err) => {
                ||| (mail matches Some(mc) && mc.enabled && spec_validate_email(*mc) == Some(err))
                ||| ({
                    &&& match mail {
                        Some(mc) => !(mc.enabled && spec_validate_email(*mc) is Some),
                        None => true,
                    }
                    &&& chat matches Some(cc) && cc.enabled && spec_validate_matrix(*cc) == Some(
                        err,
                    )
                })
            },
        },
{
    if let Some(mc) = mail {
        if mc.enabled {
            if let Err(err) = validate_email_config(mc) {
                return Err(err);
            }
        }
    }
    if let Some(cc) = chat {
        if cc.enabled {
            if let Err(err) = validate_matrix_config(cc) {
                return Err(err);
            }
        }
    }
    let mail_plan = match mail {
        Some(mc) => plan_mail_dispatch(mc, e, generated_at),
        None => ChannelPlan::Skipped,
    };
    let chat_plan = match chat {
        Some(cc) => plan_chat_dispatch(cc, e, generated_at),
        None => ChannelPlan::Skipped,
    };
    Ok(DispatchPlan { mail: mail_plan, chat: chat_plan })
}

// ---------------------------------------------------------------------------
// Reports
// ---------------------------------------------------------------------------

/// Per-channel result of one dispatch call.
#[derive(Clone, Debug, PartialEq)]
pub enum ChannelReport {
    /// The channel was disabled or not requested; nothing was attempted.
    Skipped,
    /// Routing failed before any network attempt.
    NotRouted(RoutingError),
    /// One outcome per planned destination, in planning order.
    Sent(Vec<DestinationOutcome>),
}

/// A channel counts as successful when nothing was attempted by design, or
/// every attempted destination was delivered.
pub open spec fn spec_channel_ok(c: ChannelReport) -> bool {
    match c {
        ChannelReport::Skipped => true,
        ChannelReport::NotRouted(_) => false,
        ChannelReport::Sent(outs) => forall|i: int|
            0 <= i < outs@.len() ==> (#[trigger] outs@[i]) is Delivered,
    }
}

/// All channel-by-destination outcomes of one dispatch call; the caller
/// must inspect it, since a destination's failure is reported here and
/// never raised.
#[derive(Clone, Debug)]
pub struct DispatchReport {
    pub mail: ChannelReport,
    pub chat: ChannelReport,
}

impl DispatchReport {
    /// Overall success: every attempted destination on every channel was
    /// delivered, and no channel failed routing.
    pub fn succeeded(&self) -> (b: bool)
        ensures
            b == (spec_channel_ok(self.mail) && spec_channel_ok(self.chat)),
    {
        channel_ok(&self.mail) && channel_ok(&self.chat)
    }
}

fn channel_ok(c: &ChannelReport) -> (b: bool)
    ensures
        b == spec_channel_ok(*c),
{
    match c {
        ChannelReport::Skipped => true,
        ChannelReport::NotRouted(_) => false,
        ChannelReport::Sent(outs) => {
            proof {
                assert(*c is Sent);
                assert(c->Sent_0 == *outs);
            }
            let mut i: usize = 0;
            while i < outs.len()
                invariant
                    *c is Sent,
                    c->Sent_0 == *outs,
                    0 <= i <= outs@.len(),
                    forall|j: int| 0 <= j < i ==> #[trigger] outs@[j] is Delivered,
                decreases outs@.len() - i,
            {
                match &outs[i] {
                    DestinationOutcome::Delivered { .. } => {},
                    DestinationOutcome::Failed { .. } => {
                        proof {
                            let os = c->Sent_0;
                            assert(0 <= i < os@.len());
                            assert(!(os@[i as int] is Delivered));
                            assert(!spec_channel_ok(*c));
                        }
                        return false;
                    },
                }
                i = i + 1;
            }
            true
        },
    }
}

// ---------------------------------------------------------------------------
// Scripted channel runs
// ---------------------------------------------------------------------------

/// The outcome script of destination `i`: its own outcome sequence when the
/// script provides one, else the empty sequence, whose attempts all fail.
pub open spec fn spec_script_for(scripts: Seq<Vec<bool>>, i: int) -> Seq<bool> {
    if 0 <= i < scripts.len() {
        scripts[i]@
    } else {
        Seq::<bool>::empty()
    }
}

/// What one destination's outcome owes its script: the retry contract,
/// with the scripted failure error on exhaustion.
pub open spec fn spec_outcome_matches(
    o: DestinationOutcome,
    script: Seq<bool>,
    max: int,
    err: TransportError,
) -> bool {
    match o {
        DestinationOutcome::Delivered { attempts_made } => spec_retry_contract(
            script,
            max,
            RetryOutcome {
                delivered: true,
                attempts_made,
                delays_observed: (attempts_made - 1) as u32,
            },
        ) && attempts_made >= 1,
        DestinationOutcome::Failed { last_error, attempts_made } => spec_retry_contract(
            script,
            max,
            RetryOutcome {
                delivered: false,
                attempts_made,
                delays_observed: (attempts_made - 1) as u32,
            },
        ) && attempts_made >= 1 && last_error == err,
    }
}

/// Runs a channel plan against pre-recorded attempt scripts, one per
/// destination in order; a destination beyond the scripts always fails,
/// and an exhausted destination fails with `fail_error`. This is the
/// reference run of the dispatch protocol; the application's live loop
/// drives the same retry protocol per destination.
pub fn run_channel_scripted(
    plan: &ChannelPlan,
    scripts: &Vec<Vec<bool>>,
    fail_error: &TransportError,
) -> (r: ChannelReport)
    requires
        plan matches ChannelPlan::Send { retry, .. } ==> retry.max_attempts >= 1,
    ensures
        match *plan {
            ChannelPlan::Skipped => r == ChannelReport::Skipped,
            ChannelPlan::NotRouted(e) => r == ChannelReport::NotRouted(e),
            ChannelPlan::Send { message, destinations, retry } => r matches ChannelReport::Sent(
                outs,
            ) && outs@.len() == destinations@.len() && (forall|i: int|
                0 <= i < outs@.len() ==> spec_outcome_matches(
                    #[trigger] outs@[i],
                    spec_script_for(scripts@, i),
                    retry.max_attempts as int,
                    *fail_error,
                )),
        },
{
    match plan {
        ChannelPlan::Skipped => ChannelReport::Skipped,
        ChannelPlan::NotRouted(e) => ChannelReport::NotRouted(*e),
        ChannelPlan::Send { message: _, destinations, retry } => {
            let empty_script: Vec<bool> = Vec::new();
            let mut outs: Vec<DestinationOutcome> = Vec::new();
            let mut i: usize = 0;
            while i < destinations.len()
                invariant
                    0 <= i <= destinations@.len(),
                    outs@.len() == i,
                    retry.max_attempts >= 1,
                    empty_script@.len() == 0,
                    forall|j: int|
                        0 <= j < i ==> spec_outcome_matches(
                            #[trigger] outs@[j],
                            spec_script_for(scripts@, j),
                            retry.max_attempts as int,
                            *fail_error,
                        ),
                decreases destinations@.len() - i,
            {
                let script: &Vec<bool> = if i < scripts.len() {
                    &scripts[i]
                } else {
                    &empty_script
                };
                let ro = run_scripted(retry, script);
                let outcome = if ro.delivered {
                    DestinationOutcome::Delivered { attempts_made: ro.attempts_made }
                } else {
                    DestinationOutcome::Failed {
                        last_error: fail_error.duplicate(),
                        attempts_made: ro.attempts_made,
                    }
                };
                proof {
                    assert(script@ == spec_script_for(scripts@, i as int));
                }
                outs.push(outcome);
                i = i + 1;
            }
            ChannelReport::Sent(outs)
        },
    }
}

// ---------------------------------------------------------------------------
// Dispatch laws
// ---------------------------------------------------------------------------

/// A disabled mail channel is planned as `Skipped`: no destination is ever
/// handed to a transport, and that is no error.
pub proof fn lemma_disabled_mail_channel_skipped(
    cfg: EmailConfig,
    e: Event,
    gen: Seq<char>,
    p: ChannelPlan,
)
    requires
        !cfg.enabled,
        spec_mail_plan(cfg, e, gen, p),
    ensures
        p is Skipped,
{
}

/// A disabled chat channel is planned as `Skipped`: no destination is ever
/// handed to a transport, and that is no error.
pub proof fn lemma_disabled_chat_channel_skipped(
    cfg: MatrixConfig,
    e: Event,
    gen: Seq<char>,
    p: ChannelPlan,
)
    requires
        !cfg.enabled,
        spec_chat_plan(cfg, e, gen, p),
    ensures
        p is Skipped,
{
}

/// An enabled mail channel with an empty default bucket fails fast on a
/// non-urgent threat: the plan is `EmptyDestination` and carries no
/// destination to send to.
pub proof fn lemma_empty_default_bucket_fails_fast(
    cfg: EmailConfig,
    t: ThreatInfo,
    gen: Seq<char>,
    p: ChannelPlan,
)
    requires
        cfg.enabled,
        !spec_is_urgent(t.severity),
        cfg.recipients.default@.len() == 0,
        spec_mail_plan(cfg, Event::Threat(t), gen, p),
    ensures
        p == ChannelPlan::NotRouted(RoutingError::EmptyDestination),
{
}

/// An enabled chat channel with no default room fails fast on a non-urgent
/// threat in the same way.
pub proof fn lemma_empty_default_room_fails_fast(
    cfg: MatrixConfig,
    t: ThreatInfo,
    gen: Seq<char>,
    p: ChannelPlan,
)
    requires
        cfg.enabled,
        !spec_is_urgent(t.severity),
        cfg.rooms.default_room@.len() == 0,
        spec_chat_plan(cfg, Event::Threat(t), gen, p),
    ensures
        p == ChannelPlan::NotRouted(RoutingError::EmptyDestination),
{
}

} // verus!
