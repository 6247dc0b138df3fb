//! The message that carries the finished book.

use vstd::prelude::*;
use crate::config::{EmailConfig, EmailConfigView};
use crate::error::PipelineError;

verus! {

/// The subject of every message.
pub open spec fn message_subject() -> Seq<char> {
    "Your RSS Feed Compilation"@
}

/// The content type under which the book is attached.
pub open spec fn book_content_type() -> Seq<char> {
    "application/epub+zip"@
}

/// What is needed to send the book: the message's headers, the file whose
/// bytes are its body, and the relay with the credentials for it.
#[derive(Clone, Debug, PartialEq, Eq)]
pub struct OutgoingMessage {
    /// The sender's address.
    pub from: String,
    /// The recipient's address.
    pub to: String,
    /// The subject line.
    pub subject: String,
    /// The declared type of the body.
    pub content_type: String,
    /// The path of the file whose bytes are the body.
    pub attachment_path: String,
    /// The host name of the mail relay.
    pub smtp_server: String,
    /// The user name for the relay.
    pub username: String,
    /// The password for the relay.
    pub password: String,
}

/// An outgoing message as a mathematical value.
pub ghost struct OutgoingMessageView {
    pub from: Seq<char>,
    pub to: Seq<char>,
    pub subject: Seq<char>,
    pub content_type: Seq<char>,
    pub attachment_path: Seq<char>,
    pub smtp_server: Seq<char>,
    pub username: Seq<char>,
    pub password: Seq<char>,
}

impl View for OutgoingMessage {
    type V = OutgoingMessageView;

    open spec fn view(&self) -> OutgoingMessageView {
        OutgoingMessageView {
            from: self.from@,
            to: self.to@,
            subject: self.subject@,
            content_type: self.content_type@,
            attachment_path: self.attachment_path@,
            smtp_server: self.smtp_server@,
            username: self.username@,
            password: self.password@,
        }
    }
}

/// Whether the mail library takes a text for a mailbox, that is an address
/// with or without a name before it.
pub uninterp spec fn mailbox_parses(address: Seq<char>) -> bool;

/// The error of the address parser, `lettre::address::AddressError`, taken
/// as an opaque value.
#[verifier::external_type_specification]
#[verifier::external_body]
pub struct ExAddressError(lettre::address::AddressError);

/// Parses a text as a `lettre::message::Mailbox` with its `FromStr` and
/// drops the mailbox. Whether that succeeds depends on the text alone, so
/// it is given the name `mailbox_parses`; nothing more is claimed of it.
#[verifier::external_body]
fn parse_mailbox(address: &str) -> (outcome: Result<(), lettre::address::AddressError>)
    ensures
        outcome is Ok <==> mailbox_parses(address@),
{
    address.parse::<lettre::message::Mailbox>().map(|_| ())
}

/// The message that sends the file at `file_path` as this configuration
/// says.
pub open spec fn message_of(file_path: Seq<char>, email: EmailConfigView) -> OutgoingMessageView {
    OutgoingMessageView {
        from: email.from,
        to: email.to,
        subject: message_subject(),
        content_type: book_content_type(),
        attachment_path: file_path,
        smtp_server: email.smtp_server,
        username: email.username,
        password: email.password,
    }
}

/// Whether both addresses of a configuration are valid.
pub open spec fn addresses_valid(email: EmailConfigView) -> bool {
    mailbox_parses(email.from) && mailbox_parses(email.to)
}

/// Prepares the message that sends the book file. Fails with `Validation`
/// exactly where the sender's or the recipient's address is not valid.
pub fn prepare_message(file_path: &str, email: &EmailConfig) -> (outcome: Result<
    OutgoingMessage,
    PipelineError,
>)
    ensures
        outcome is Ok <==> addresses_valid(email@),
        outcome matches Ok(message) ==> message@ == message_of(file_path@, email@),
        outcome matches Err(error) ==> error == PipelineError::Validation,
{
    if parse_mailbox(email.from.as_str()).is_err() {
        return Err(PipelineError::Validation);
    }
    if parse_mailbox(email.to.as_str()).is_err() {
        return Err(PipelineError::Validation);
    }
    Ok(
        OutgoingMessage {
            from: email.from.clone(),
            to: email.to.clone(),
            subject: "Your RSS Feed Compilation".to_owned(),
            content_type: "application/epub+zip".to_owned(),
            attachment_path: file_path.to_owned(),
            smtp_server: email.smtp_server.clone(),
            username: email.username.clone(),
            password: email.password.clone(),
        },
    )
}

} // verus!
