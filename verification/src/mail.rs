//! The mail channel: address checking, message assembly and relay
//! construction over the `lettre` crate. Every outside call sits behind a
//! trusted wrapper; the network send itself belongs to the application.

use vstd::prelude::*;
use crate::config::{
    ConfigError, EmailConfig, SmtpConfig, spec_smtp_preset, spec_validate_email, smtp_config_for,
    validate_email_config,
};
use crate::dispatch::TransportError;

verus! {

#[verifier::external_type_specification]
#[verifier::external_body]
pub struct ExMailbox(lettre::message::Mailbox);

#[verifier::external_type_specification]
#[verifier::external_body]
pub struct ExMessage(lettre::Message);

#[verifier::external_type_specification]
#[verifier::external_body]
pub struct ExSmtpTransport(lettre::SmtpTransport);

/// Whether lettre's mailbox grammar accepts a string; acceptance depends on
/// the characters alone.
pub uninterp spec fn mailbox_ok(s: Seq<char>) -> bool;

/// Relies on lettre's `Mailbox: FromStr`: parses `Name <user@domain>` or
/// `user@domain`; whether it succeeds depends only on the string.
#[verifier::external_body]
fn parse_mailbox(s: &str) -> (r: Result<lettre::message::Mailbox, String>)
    ensures
        r is Ok <==> mailbox_ok(s@),
{
    match s.parse::<lettre::message::Mailbox>() {
        Ok(mb) => Ok(mb),
        Err(e) => Err(e.to_string()),
    }
}

/// Relies on lettre's `MessageBuilder`: assembles a message whose one
/// alternative part carries the body as HTML text.
#[verifier::external_body]
fn build_html_message(
    from: lettre::message::Mailbox,
    to: lettre::message::Mailbox,
    subject: &str,
    html_body: &str,
) -> (r: Result<lettre::Message, String>)
{
    let part = lettre::message::SinglePart::builder()
        .header(lettre::message::header::ContentType::TEXT_HTML)
        .body(html_body.to_string());
    let built = lettre::Message::builder()
        .from(from)
        .to(to)
        .subject(subject)
        .multipart(lettre::message::MultiPart::alternative().singlepart(part));
    match built {
        Ok(m) => Ok(m),
        Err(e) => Err(e.to_string()),
    }
}

/// Relies on `SmtpTransport::relay`: a client for an implicit-TLS relay on
/// the given port, with the given credentials.
#[verifier::external_body]
fn smtp_relay(server: &str, port: u16, username: &str, password: &str) -> (r: Result<
    lettre::SmtpTransport,
    String,
>)
{
    let creds = lettre::transport::smtp::authentication::Credentials::new(
        username.to_string(),
        password.to_string(),
    );
    match lettre::SmtpTransport::relay(server) {
        Ok(b) => Ok(b.port(port).credentials(creds).build()),
        Err(e) => Err(e.to_string()),
    }
}

/// Relies on `SmtpTransport::starttls_relay`: a client that upgrades the
/// connection with STARTTLS, on the given port, with the given credentials.
#[verifier::external_body]
fn smtp_starttls(server: &str, port: u16, username: &str, password: &str) -> (r: Result<
    lettre::SmtpTransport,
    String,
>)
{
    let creds = lettre::transport::smtp::authentication::Credentials::new(
        username.to_string(),
        password.to_string(),
    );
    match lettre::SmtpTransport::starttls_relay(server) {
        Ok(b) => Ok(b.port(port).credentials(creds).build()),
        Err(e) => Err(e.to_string()),
    }
}

/// Relies on `SmtpTransport::builder_dangerous`: an unencrypted client on
/// the given port, with the given credentials; it cannot fail.
#[verifier::external_body]
fn smtp_plain(server: &str, port: u16, username: &str, password: &str) -> (r:
    lettre::SmtpTransport)
{
    let creds = lettre::transport::smtp::authentication::Credentials::new(
        username.to_string(),
        password.to_string(),
    );
    lettre::SmtpTransport::builder_dangerous(server).port(port).credentials(creds).build()
}

// ---------------------------------------------------------------------------
// The mail service
// ---------------------------------------------------------------------------

/// How the relay connection is secured; implicit TLS wins over STARTTLS,
/// and STARTTLS over a plain connection.
#[derive(Clone, Copy, Debug, PartialEq, Eq, Structural)]
pub enum RelayMode {
    ImplicitTls,
    StartTls,
    Plain,
}

/// The security mode a relay setting resolves to: `use_ssl` over `use_tls`
/// over plain.
pub open spec fn spec_relay_mode(sc: SmtpConfig) -> RelayMode {
    if sc.use_ssl {
        RelayMode::ImplicitTls
    } else if sc.use_tls {
        RelayMode::StartTls
    } else {
        RelayMode::Plain
    }
}

/// Resolves the security mode of one relay setting.
pub fn relay_mode(sc: &SmtpConfig) -> (m: RelayMode)
    ensures
        m == spec_relay_mode(*sc),
{
    if sc.use_ssl {
        RelayMode::ImplicitTls
    } else if sc.use_tls {
        RelayMode::StartTls
    } else {
        RelayMode::Plain
    }
}

/// The security mode a whole mail configuration resolves to, through the
/// provider preset: every named provider's preset asks for STARTTLS; a
/// custom provider keeps its own flags.
pub open spec fn spec_mail_relay_mode(c: EmailConfig) -> RelayMode {
    match c.provider {
        crate::config::EmailProvider::Custom => spec_relay_mode(c.smtp),
        _ => RelayMode::StartTls,
    }
}

/// The sender identity as one addressable string: `Name <email>`.
pub open spec fn spec_sender_string(name: Seq<char>, email: Seq<char>) -> Seq<char> {
    name + " <"@ + email + ">"@
}

/// The mail channel's service: holds the configuration; the template
/// registry of the styled document rendering lives with the application.
pub struct EmailService {
    pub config: EmailConfig,
}

impl EmailService {
    /// A service over the given configuration.
    pub fn new(config: EmailConfig) -> (r: Self)
        ensures
            r.config == config,
    {
        EmailService { config }
    }

    /// The relay settings for the configured provider.
    pub fn get_smtp_config(&self) -> (r: SmtpConfig)
        ensures
            spec_smtp_preset(r, self.config.provider, self.config.smtp),
    {
        smtp_config_for(self.config.provider, &self.config.smtp)
    }

    /// Checks the configuration for completeness; fails fast with the first
    /// violated invariant.
    pub fn validate_config(&self) -> (r: Result<(), ConfigError>)
        ensures
            match r {
                Ok(()) => spec_validate_email(self.config) is None,
                Err(e) => spec_validate_email(self.config) == Some(e),
            },
    {
        validate_email_config(&self.config)
    }

    /// Builds the SMTP client for the relay the configuration resolves to,
    /// in the security mode `spec_mail_relay_mode` gives: the implicit-TLS
    /// constructor, the STARTTLS constructor, or the plain one, each handed
    /// the preset's server and port and the configured credentials.
    /// Construction opens no connection; only the TLS modes can fail, when
    /// the relay builder refuses, and the error is its own description.
    pub fn create_smtp_transport(&self) -> (r: Result<lettre::SmtpTransport, String>)
        ensures
            spec_mail_relay_mode(self.config) is Plain ==> r is Ok,
    {
        let sc = self.get_smtp_config();
        let user = self.config.auth.username.as_str();
        let pass = self.config.auth.password.as_str();
        let mode = relay_mode(&sc);
        proof {
            assert(mode == spec_mail_relay_mode(self.config));
        }
        match mode {
            RelayMode::ImplicitTls => smtp_relay(sc.server.as_str(), sc.port, user, pass),
            RelayMode::StartTls => smtp_starttls(sc.server.as_str(), sc.port, user, pass),
            RelayMode::Plain => Ok(smtp_plain(sc.server.as_str(), sc.port, user, pass)),
        }
    }

    /// The configured sender as one addressable string, `Name <email>`.
    pub fn sender_string(&self) -> (r: String)
        ensures
            r@ == spec_sender_string(self.config.sender.name@, self.config.sender.email@),
    {
        let mut s = String::new();
        s.append(self.config.sender.name.as_str());
        s.append(" <");
        s.append(self.config.sender.email.as_str());
        s.append(">");
        s
    }

    /// Checks one destination address against the mailbox grammar without
    /// sending anything.
    pub fn check_recipient(addr: &String) -> (r: Result<(), TransportError>)
        ensures
            r is Ok <==> mailbox_ok(addr@),
            r matches Err(e) ==> e == TransportError::InvalidAddress(*addr),
    {
        match parse_mailbox(addr.as_str()) {
            Ok(_) => Ok(()),
            Err(_) => Err(TransportError::InvalidAddress(addr.clone())),
        }
    }

    /// Assembles one HTML message per recipient, checking the sender first:
    /// an unaddressable sender fails fast with `InvalidAddress` carrying the
    /// sender string, an unaddressable recipient with `InvalidAddress` for
    /// the first such recipient; a refusal of lettre's builder yields
    /// `SendFailed` with its description, and then the sender had passed the
    /// grammar. On success there is exactly one message per recipient, in
    /// recipient order, and every address passed the grammar.
    pub fn build_messages(&self, subject: &str, html_body: &str, recipients: &Vec<String>) -> (r:
        Result<Vec<lettre::Message>, TransportError>)
        ensures
            ({
                let sender = spec_sender_string(
                    self.config.sender.name@,
                    self.config.sender.email@,
                );
                match r {
                    Ok(msgs) => {
                        &&& msgs@.len() == recipients@.len()
                        &&& mailbox_ok(sender)
                        &&& forall|i: int|
                            0 <= i < recipients@.len() ==> mailbox_ok(#[trigger] recipients@[i]@)
                    },
                    Err(e) => match e {
                        TransportError::InvalidAddress(a) => {
                            &&& !mailbox_ok(a@)
                            &&& (a@ == sender || (mailbox_ok(sender) && exists|i: int|
                                0 <= i < recipients@.len() && #[trigger] recipients@[i]@ == a@
                                    && (forall|j: int|
                                    0 <= j < i ==> mailbox_ok(#[trigger] recipients@[j]@))))
                        },
                        TransportError::SendFailed(_) => mailbox_ok(sender),
                        TransportError::UnknownRoom(_) => false,
                    },
                }
            }),
            !mailbox_ok(
                spec_sender_string(self.config.sender.name@, self.config.sender.email@),
            ) ==> (r matches Err(TransportError::InvalidAddress(a)) && a@ == spec_sender_string(
                self.config.sender.name@,
                self.config.sender.email@,
            )),
    {
        let sender = self.sender_string();
        match parse_mailbox(sender.as_str()) {
            Ok(_) => {},
            Err(_) => {
                return Err(TransportError::InvalidAddress(sender));
            },
        }
        let mut msgs: Vec<lettre::Message> = Vec::new();
        let mut i: usize = 0;
        while i < recipients.len()
            invariant
                0 <= i <= recipients@.len(),
                msgs@.len() == i,
                mailbox_ok(sender@),
                sender@ == spec_sender_string(
                    self.config.sender.name@,
                    self.config.sender.email@,
                ),
                forall|j: int| 0 <= j < i ==> mailbox_ok(#[trigger] recipients@[j]@),
            decreases recipients@.len() - i,
        {
            let to = match parse_mailbox(recipients[i].as_str()) {
                Ok(mb) => mb,
                Err(_) => {
                    proof {
                        assert(0 <= i < recipients@.len() && recipients@[i as int]@
                            == recipients@[i as int]@ && (forall|j: int|
                            0 <= j < i ==> mailbox_ok(#[trigger] recipients@[j]@)));
                    }
                    return Err(TransportError::InvalidAddress(recipients[i].clone()));
                },
            };
            let from = match parse_mailbox(sender.as_str()) {
                Ok(mb) => mb,
                Err(_) => {
                    return Err(TransportError::InvalidAddress(sender));
                },
            };
            match build_html_message(from, to, subject, html_body) {
                Ok(m) => msgs.push(m),
                Err(detail) => {
                    return Err(TransportError::SendFailed(detail));
                },
            }
            i = i + 1;
        }
        Ok(msgs)
    }
}

} // verus!
