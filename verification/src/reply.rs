//! The reply that answers a message.

use crate::error::RelayError;
use crate::settings::{EmailConfig, EmailConfigView};
use vstd::prelude::*;
use vstd::string::*;

verus! {

/// A reply, ready to be handed to the submission server.
#[derive(Clone, Debug, PartialEq, Eq)]
pub struct Reply {
    /// Who the reply comes from: the account.
    pub from: String,
    /// Who the reply goes to: the watched sender.
    pub to: String,
    /// The subject line.
    pub subject: String,
    /// The text of the reply.
    pub body: String,
}

/// A [`Reply`] as a mathematical value.
pub struct ReplyView {
    pub from: Seq<char>,
    pub to: Seq<char>,
    pub subject: Seq<char>,
    pub body: Seq<char>,
}

impl View for Reply {
    type V = ReplyView;

    open spec fn view(&self) -> ReplyView {
        ReplyView { from: self.from@, to: self.to@, subject: self.subject@, body: self.body@ }
    }
}

/// Whether a text is a mailbox as `lettre` reads one: an address, or a
/// display name followed by an address in angle brackets.
pub uninterp spec fn mailbox_syntax(text: Seq<char>) -> bool;

/// `<lettre::message::Mailbox as FromStr>::from_str`: whether the text parses
/// as a mailbox. The parser reads nothing but the text.
#[verifier::external_body]
fn is_mailbox(text: &str) -> (ok: bool)
    ensures
        ok == mailbox_syntax(text@),
{
    text.parse::<lettre::message::Mailbox>().is_ok()
}

/// The reply to a message, given the response to it and whether the two
/// configured addresses are mailboxes. It goes from the account to the
/// watched sender under the subject `Response`, and carries the response as
/// it stands. Without two good addresses there is no reply.
pub open spec fn composed(
    config: EmailConfigView,
    response: Seq<char>,
    from_ok: bool,
    to_ok: bool,
) -> Result<ReplyView, RelayError> {
    if from_ok && to_ok {
        Ok(
            ReplyView {
                from: config.username,
                to: config.sender_email,
                subject: "Response"@,
                body: response,
            },
        )
    } else {
        Err(RelayError::AddressError)
    }
}

/// Builds the reply once the two addresses have been judged: `from_ok` says
/// whether the account's address is a mailbox, `to_ok` whether the watched
/// sender's is.
pub fn compose_reply(config: &EmailConfig, response: String, from_ok: bool, to_ok: bool) -> (reply:
    Result<Reply, RelayError>)
    ensures
        match reply {
            Ok(r) => composed(config@, response@, from_ok, to_ok) == Ok::<ReplyView, RelayError>(
                r@,
            ),
            Err(e) => composed(config@, response@, from_ok, to_ok) == Err::<ReplyView, RelayError>(
                e,
            ),
        },
{
    if from_ok && to_ok {
        Ok(
            Reply {
                from: config.username.clone(),
                to: config.sender_email.clone(),
                subject: String::from_str("Response"),
                body: response,
            },
        )
    } else {
        Err(RelayError::AddressError)
    }
}

/// Builds the reply that carries `response`. Both configured addresses must
/// be mailboxes; where one is not, the result is an `AddressError`.
pub fn reply_for(config: &EmailConfig, response: String) -> (reply: Result<Reply, RelayError>)
    ensures
        match reply {
            Ok(r) => composed(
                config@,
                response@,
                mailbox_syntax(config@.username),
                mailbox_syntax(config@.sender_email),
            ) == Ok::<ReplyView, RelayError>(r@),
            Err(e) => composed(
                config@,
                response@,
                mailbox_syntax(config@.username),
                mailbox_syntax(config@.sender_email),
            ) == Err::<ReplyView, RelayError>(e),
        },
{
    let from_ok = is_mailbox(config.username.as_str());
    let to_ok = from_ok && is_mailbox(config.sender_email.as_str());
    compose_reply(config, response, from_ok, to_ok)
}

} // verus!
