//! The configuration of a run, and how it is made of what was read.

use vstd::prelude::*;
use crate::error::PipelineError;
use crate::text::views;

verus! {

/// How the finished book is sent.
#[derive(Clone, Debug, PartialEq, Eq)]
pub struct EmailConfig {
    /// The sender's address.
    pub from: String,
    /// The recipient's address.
    pub to: String,
    /// The host name of the mail relay.
    pub smtp_server: String,
    /// The user name for the relay.
    pub username: String,
    /// The password for the relay.
    pub password: String,
}

/// An email configuration as a mathematical value.
pub ghost struct EmailConfigView {
    pub from: Seq<char>,
    pub to: Seq<char>,
    pub smtp_server: Seq<char>,
    pub username: Seq<char>,
    pub password: Seq<char>,
}

impl View for EmailConfig {
    type V = EmailConfigView;

    open spec fn view(&self) -> EmailConfigView {
        EmailConfigView {
            from: self.from@,
            to: self.to@,
            smtp_server: self.smtp_server@,
            username: self.username@,
            password: self.password@,
        }
    }
}

/// What a run works from: the feeds to read, in order, and how to send the
/// book.
#[derive(Clone, Debug, PartialEq, Eq)]
pub struct Config {
    /// The addresses of the feeds.
    pub rss_feeds: Vec<String>,
    /// How the finished book is sent.
    pub email: EmailConfig,
}

/// A configuration as a mathematical value.
pub ghost struct ConfigView {
    pub rss_feeds: Seq<Seq<char>>,
    pub email: EmailConfigView,
}

impl View for Config {
    type V = ConfigView;

    open spec fn view(&self) -> ConfigView {
        ConfigView { rss_feeds: views(self.rss_feeds@), email: self.email@ }
    }
}

/// The email block of a configuration as it was read: any field may be
/// missing.
#[derive(Clone, Debug, PartialEq, Eq)]
pub struct RawEmailConfig {
    /// The sender's address.
    pub from: Option<String>,
    /// The recipient's address.
    pub to: Option<String>,
    /// The host name of the mail relay.
    pub smtp_server: Option<String>,
    /// The user name for the relay.
    pub username: Option<String>,
    /// The password for the relay.
    pub password: Option<String>,
}

/// A configuration as it was read: any field may be missing.
#[derive(Clone, Debug, PartialEq, Eq)]
pub struct RawConfig {
    /// The addresses of the feeds.
    pub rss_feeds: Option<Vec<String>>,
    /// How the finished book is sent.
    pub email: Option<RawEmailConfig>,
}

/// Whether an email block has all its fields.
pub open spec fn email_complete(raw: RawEmailConfig) -> bool {
    &&& raw.from is Some
    &&& raw.to is Some
    &&& raw.smtp_server is Some
    &&& raw.username is Some
    &&& raw.password is Some
}

/// Whether a configuration has all its fields.
pub open spec fn config_complete(raw: RawConfig) -> bool {
    &&& raw.rss_feeds is Some
    &&& raw.email matches Some(email)
    &&& email_complete(email)
}

/// The email block with the fields of a complete raw one.
pub open spec fn email_of(raw: RawEmailConfig) -> EmailConfigView {
    EmailConfigView {
        from: raw.from->0@,
        to: raw.to->0@,
        smtp_server: raw.smtp_server->0@,
        username: raw.username->0@,
        password: raw.password->0@,
    }
}

/// The configuration with the fields of a complete raw one.
pub open spec fn config_of(raw: RawConfig) -> ConfigView {
    ConfigView { rss_feeds: views(raw.rss_feeds->0@), email: email_of(raw.email->0) }
}

/// Makes an email block of a raw one. Nothing is filled in: the outcome is
/// `Configuration` exactly where a field is missing.
pub fn complete_email(raw: RawEmailConfig) -> (outcome: Result<EmailConfig, PipelineError>)
    ensures
        outcome is Ok <==> email_complete(raw),
        outcome matches Ok(email) ==> email@ == email_of(raw),
        outcome matches Err(error) ==> error == PipelineError::Configuration,
{
    match (raw.from, raw.to, raw.smtp_server, raw.username, raw.password) {
        (Some(from), Some(to), Some(smtp_server), Some(username), Some(password)) => Ok(
            EmailConfig { from, to, smtp_server, username, password },
        ),
        _ => Err(PipelineError::Configuration),
    }
}

/// Makes a configuration of a raw one. Nothing is filled in: the outcome
/// is `Configuration` exactly where the list of feeds, the email block or
/// one of its fields is missing.
pub fn complete_config(raw: RawConfig) -> (outcome: Result<Config, PipelineError>)
    ensures
        outcome is Ok <==> config_complete(raw),
        outcome matches Ok(config) ==> config@ == config_of(raw),
        outcome matches Err(error) ==> error == PipelineError::Configuration,
{
    match (raw.rss_feeds, raw.email) {
        (Some(rss_feeds), Some(raw_email)) => match complete_email(raw_email) {
            Ok(email) => Ok(Config { rss_feeds, email }),
            Err(error) => Err(error),
        },
        _ => Err(PipelineError::Configuration),
    }
}

} // verus!
