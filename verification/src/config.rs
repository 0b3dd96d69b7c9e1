//! Channel configuration: mail and chat sub-configurations, destination
//! buckets, retry policy, validation, and the built-in provider presets.

use vstd::prelude::*;
use crate::text::starts_with_char;

verus! {

/// A well-known mail relay, or a custom relay named in `SmtpConfig`.
#[derive(Clone, Copy, Debug, PartialEq, Eq, Structural)]
pub enum EmailProvider {
    Gmail,
    Outlook,
    Yahoo,
    QQ,
    NetEase163,
    Custom,
}

#[derive(Clone, Debug)]
pub struct SmtpConfig {
    pub server: String,
    pub port: u16,
    pub use_tls: bool,
    pub use_ssl: bool,
}

#[derive(Clone, Debug)]
pub struct AuthConfig {
    pub username: String,
    pub password: String,
}

#[derive(Clone, Debug)]
pub struct SenderConfig {
    pub name: String,
    pub email: String,
}

/// The mail channel's destination buckets.
#[derive(Clone, Debug)]
pub struct RecipientsConfig {
    pub default: Vec<String>,
    pub emergency: Vec<String>,
    pub reports: Vec<String>,
}

#[derive(Clone, Debug)]
pub struct TemplateConfig {
    pub daily_report: String,
    pub weekly_report: String,
    pub threat_alert: String,
    pub emergency_alert: String,
}

/// The bounded fixed-delay retry policy: at least one attempt, and a pause
/// of `delay_seconds` between a failed attempt and the next.
#[derive(Clone, Copy, Debug, PartialEq, Eq, Structural)]
pub struct RetryConfig {
    pub max_attempts: u32,
    pub delay_seconds: u64,
}

#[derive(Clone, Debug)]
pub struct EmailConfig {
    pub enabled: bool,
    pub provider: EmailProvider,
    pub smtp: SmtpConfig,
    pub auth: AuthConfig,
    pub sender: SenderConfig,
    pub recipients: RecipientsConfig,
    pub templates: TemplateConfig,
    pub retry: RetryConfig,
}

/// The chat channel's destination buckets: each holds at most one room.
#[derive(Clone, Debug)]
pub struct RoomConfig {
    pub default_room: String,
    pub emergency_room: String,
    pub reports_room: String,
    pub admin_room: String,
}

/// Per-channel content options carried from configuration into rendering.
#[derive(Clone, Copy, Debug, PartialEq, Eq, Structural)]
pub struct MessageFormat {
    pub use_markdown: bool,
    pub use_html: bool,
    pub include_timestamp: bool,
    pub include_severity_emoji: bool,
}

#[derive(Clone, Debug)]
pub struct MatrixConfig {
    pub enabled: bool,
    pub homeserver: String,
    pub username: String,
    pub password: String,
    pub device_name: String,
    pub rooms: RoomConfig,
    pub message_format: MessageFormat,
    pub retry: RetryConfig,
}

// ---------------------------------------------------------------------------
// Validation
// ---------------------------------------------------------------------------

/// The first configuration fault found, if any; fatal for a whole dispatch
/// call, never retried.
#[derive(Clone, Debug, PartialEq, Eq)]
pub enum ConfigError {
    EmptyUsername,
    EmptyPassword,
    EmptySenderEmail,
    NoDefaultRecipient,
    EmptyHomeserver,
    NoDefaultRoom,
    InvalidRoomId(String),
}

impl ConfigError {
    /// A short description, for operator-facing reporting.
    pub fn message(&self) -> (r: &'static str)
        ensures
            r@.len() > 0,
    {
        let m: &'static str = match self {
            ConfigError::EmptyUsername => "account user name must not be empty",
            ConfigError::EmptyPassword => "account password must not be empty",
            ConfigError::EmptySenderEmail => "sender address must not be empty",
            ConfigError::NoDefaultRecipient => "at least one default recipient is required",
            ConfigError::EmptyHomeserver => "homeserver address must not be empty",
            ConfigError::NoDefaultRoom => "at least the default room must be configured",
            ConfigError::InvalidRoomId(_) => "room identifiers must start with '!'",
        };
        proof {
            reveal_strlit("account user name must not be empty");
            reveal_strlit("account password must not be empty");
            reveal_strlit("sender address must not be empty");
            reveal_strlit("at least one default recipient is required");
            reveal_strlit("homeserver address must not be empty");
            reveal_strlit("at least the default room must be configured");
            reveal_strlit("room identifiers must start with '!'");
        }
        m
    }
}

/// The first violated mail-configuration invariant, in checking order.
pub open spec fn spec_validate_email(c: EmailConfig) -> Option<ConfigError> {
    if c.auth.username@.len() == 0 {
        Some(ConfigError::EmptyUsername)
    } else if c.auth.password@.len() == 0 {
        Some(ConfigError::EmptyPassword)
    } else if c.sender.email@.len() == 0 {
        Some(ConfigError::EmptySenderEmail)
    } else if c.recipients.default@.len() == 0 {
        Some(ConfigError::NoDefaultRecipient)
    } else {
        None
    }
}

/// A room entry is well formed when it is empty (bucket unused) or carries
/// the required `'!'` sigil prefix.
pub open spec fn spec_room_ok(room: Seq<char>) -> bool {
    room.len() == 0 || room[0] == '!'
}

/// The first violated chat-configuration invariant, in checking order.
pub open spec fn spec_validate_matrix(c: MatrixConfig) -> Option<ConfigError> {
    if c.homeserver@.len() == 0 {
        Some(ConfigError::EmptyHomeserver)
    } else if c.username@.len() == 0 {
        Some(ConfigError::EmptyUsername)
    } else if c.password@.len() == 0 {
        Some(ConfigError::EmptyPassword)
    } else if c.rooms.default_room@.len() == 0 {
        Some(ConfigError::NoDefaultRoom)
    } else if !spec_room_ok(c.rooms.default_room@) {
        Some(ConfigError::InvalidRoomId(c.rooms.default_room))
    } else if !spec_room_ok(c.rooms.emergency_room@) {
        Some(ConfigError::InvalidRoomId(c.rooms.emergency_room))
    } else if !spec_room_ok(c.rooms.reports_room@) {
        Some(ConfigError::InvalidRoomId(c.rooms.reports_room))
    } else if !spec_room_ok(c.rooms.admin_room@) {
        Some(ConfigError::InvalidRoomId(c.rooms.admin_room))
    } else {
        None
    }
}

fn is_empty_string(s: &String) -> (r: bool)
    ensures
        r == (s@.len() == 0),
{
    s.as_str().is_empty()
}

fn room_ok(room: &String) -> (r: bool)
    ensures
        r == spec_room_ok(room@),
{
    if is_empty_string(room) {
        true
    } else {
        starts_with_char(room.as_str(), '!')
    }
}

/// Checks the mail configuration for completeness before any dispatch:
/// credentials and sender identity non-empty, default bucket non-empty.
/// Fails fast with the first violated invariant.
pub fn validate_email_config(c: &EmailConfig) -> (r: Result<(), ConfigError>)
    ensures
        match r {
            Ok(()) => spec_validate_email(*c) is None,
            Err(e) => spec_validate_email(*c) == Some(e),
        },
{
    if is_empty_string(&c.auth.username) {
        Err(ConfigError::EmptyUsername)
    } else if is_empty_string(&c.auth.password) {
        Err(ConfigError::EmptyPassword)
    } else if is_empty_string(&c.sender.email) {
        Err(ConfigError::EmptySenderEmail)
    } else if c.recipients.default.len() == 0 {
        Err(ConfigError::NoDefaultRecipient)
    } else {
        Ok(())
    }
}

/// Checks the chat configuration: server and credentials non-empty, the
/// default room configured, and every non-empty room carrying the `'!'`
/// sigil. Fails fast with the first violated invariant.
pub fn validate_matrix_config(c: &MatrixConfig) -> (r: Result<(), ConfigError>)
    ensures
        match r {
            Ok(()) => spec_validate_matrix(*c) is None,
            Err(e) => spec_validate_matrix(*c) == Some(e),
        },
{
    if is_empty_string(&c.homeserver) {
        Err(ConfigError::EmptyHomeserver)
    } else if is_empty_string(&c.username) {
        Err(ConfigError::EmptyUsername)
    } else if is_empty_string(&c.password) {
        Err(ConfigError::EmptyPassword)
    } else if is_empty_string(&c.rooms.default_room) {
        Err(ConfigError::NoDefaultRoom)
    } else if !room_ok(&c.rooms.default_room) {
        Err(ConfigError::InvalidRoomId(c.rooms.default_room.clone()))
    } else if !room_ok(&c.rooms.emergency_room) {
        Err(ConfigError::InvalidRoomId(c.rooms.emergency_room.clone()))
    } else if !room_ok(&c.rooms.reports_room) {
        Err(ConfigError::InvalidRoomId(c.rooms.reports_room.clone()))
    } else if !room_ok(&c.rooms.admin_room) {
        Err(ConfigError::InvalidRoomId(c.rooms.admin_room.clone()))
    } else {
        Ok(())
    }
}

// ---------------------------------------------------------------------------
// Provider presets and defaults
// ---------------------------------------------------------------------------

/// The relay settings that `smtp_config_for` owes each provider.
pub open spec fn spec_smtp_preset(r: SmtpConfig, provider: EmailProvider, custom: SmtpConfig) -> bool {
    match provider {
        EmailProvider::Gmail => r.server@ == "smtp.gmail.com"@ && r.port == 587 && r.use_tls
            && !r.use_ssl,
        EmailProvider::Outlook => r.server@ == "smtp-mail.outlook.com"@ && r.port == 587
            && r.use_tls && !r.use_ssl,
        EmailProvider::Yahoo => r.server@ == "smtp.mail.yahoo.com"@ && r.port == 587 && r.use_tls
            && !r.use_ssl,
        EmailProvider::QQ => r.server@ == "smtp.qq.com"@ && r.port == 587 && r.use_tls
            && !r.use_ssl,
        EmailProvider::NetEase163 => r.server@ == "smtp.163.com"@ && r.port == 25 && r.use_tls
            && !r.use_ssl,
        EmailProvider::Custom => r.server@ == custom.server@ && r.port == custom.port && r.use_tls
            == custom.use_tls && r.use_ssl == custom.use_ssl,
    }
}

/// The relay preset for a provider; a `Custom` provider keeps the custom
/// settings handed in.
pub fn smtp_config_for(provider: EmailProvider, custom: &SmtpConfig) -> (r: SmtpConfig)
    ensures
        spec_smtp_preset(r, provider, *custom),
{
    match provider {
        EmailProvider::Gmail => SmtpConfig {
            server: "smtp.gmail.com".to_owned(),
            port: 587,
            use_tls: true,
            use_ssl: false,
        },
        EmailProvider::Outlook => SmtpConfig {
            server: "smtp-mail.outlook.com".to_owned(),
            port: 587,
            use_tls: true,
            use_ssl: false,
        },
        EmailProvider::Yahoo => SmtpConfig {
            server: "smtp.mail.yahoo.com".to_owned(),
            port: 587,
            use_tls: true,
            use_ssl: false,
        },
        EmailProvider::QQ => SmtpConfig {
            server: "smtp.qq.com".to_owned(),
            port: 587,
            use_tls: true,
            use_ssl: false,
        },
        EmailProvider::NetEase163 => SmtpConfig {
            server: "smtp.163.com".to_owned(),
            port: 25,
            use_tls: true,
            use_ssl: false,
        },
        EmailProvider::Custom => SmtpConfig {
            server: custom.server.clone(),
            port: custom.port,
            use_tls: custom.use_tls,
            use_ssl: custom.use_ssl,
        },
    }
}

impl Default for EmailConfig {
    /// A disabled Gmail-preset configuration with empty credentials,
    /// no recipients, the standard template names, and three attempts
    /// five seconds apart.
    fn default() -> (r: Self)
        ensures
            !r.enabled,
            r.provider == EmailProvider::Gmail,
            r.smtp.server@ == "smtp.gmail.com"@,
            r.smtp.port == 587,
            r.smtp.use_tls,
            !r.smtp.use_ssl,
            r.auth.username@.len() == 0,
            r.auth.password@.len() == 0,
            r.sender.name@ == "HunterMatrix Security"@,
            r.sender.email@.len() == 0,
            r.recipients.default@.len() == 0,
            r.recipients.emergency@.len() == 0,
            r.recipients.reports@.len() == 0,
            r.templates.daily_report@ == "daily_report"@,
            r.templates.weekly_report@ == "weekly_report"@,
            r.templates.threat_alert@ == "threat_alert"@,
            r.templates.emergency_alert@ == "emergency_alert"@,
            r.retry == (RetryConfig { max_attempts: 3, delay_seconds: 5 }),
    {
        EmailConfig {
            enabled: false,
            provider: EmailProvider::Gmail,
            smtp: SmtpConfig {
                server: "smtp.gmail.com".to_owned(),
                port: 587,
                use_tls: true,
                use_ssl: false,
            },
            auth: AuthConfig { username: String::new(), password: String::new() },
            sender: SenderConfig { name: "HunterMatrix Security".to_owned(), email: String::new() },
            recipients: RecipientsConfig { default: Vec::new(), emergency: Vec::new(), reports: Vec::new() },
            templates: TemplateConfig {
                daily_report: "daily_report".to_owned(),
                weekly_report: "weekly_report".to_owned(),
                threat_alert: "threat_alert".to_owned(),
                emergency_alert: "emergency_alert".to_owned(),
            },
            retry: RetryConfig { max_attempts: 3, delay_seconds: 5 },
        }
    }
}

impl Default for MatrixConfig {
    /// A disabled configuration pointing at the public homeserver, with
    /// empty credentials and rooms, Markdown content with timestamps and
    /// emoji, and three attempts five seconds apart.
    fn default() -> (r: Self)
        ensures
            !r.enabled,
            r.homeserver@ == "https://matrix.org"@,
            r.username@.len() == 0,
            r.password@.len() == 0,
            r.device_name@ == "AI-Security-Bot"@,
            r.rooms.default_room@.len() == 0,
            r.rooms.emergency_room@.len() == 0,
            r.rooms.reports_room@.len() == 0,
            r.rooms.admin_room@.len() == 0,
            r.message_format == (MessageFormat {
                use_markdown: true,
                use_html: false,
                include_timestamp: true,
                include_severity_emoji: true,
            }),
            r.retry == (RetryConfig { max_attempts: 3, delay_seconds: 5 }),
    {
        MatrixConfig {
            enabled: false,
            homeserver: "https://matrix.org".to_owned(),
            username: String::new(),
            password: String::new(),
            device_name: "AI-Security-Bot".to_owned(),
            rooms: RoomConfig {
                default_room: String::new(),
                emergency_room: String::new(),
                reports_room: String::new(),
                admin_room: String::new(),
            },
            message_format: MessageFormat {
                use_markdown: true,
                use_html: false,
                include_timestamp: true,
                include_severity_emoji: true,
            },
            retry: RetryConfig { max_attempts: 3, delay_seconds: 5 },
        }
    }
}

} // verus!
