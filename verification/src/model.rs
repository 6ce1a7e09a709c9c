//! The relay as a mathematical machine.
//!
//! A state and the answer to the relay's last request give the next state
//! and the next request ([`next`]). Everything the executable relay does is
//! stated against this machine, and the laws of the crate are proved of it.

use crate::error::RelayError;
use crate::reply::{composed, mailbox_syntax, ReplyView};
use crate::settings::EmailConfigView;
use crate::text::{decimal, query_for};
use vstd::prelude::*;
use vstd::utf8::*;

verus! {

/// What the relay is waiting for.
#[derive(Clone, Copy, Debug, PartialEq, Eq, Structural)]
pub enum Phase {
    /// For the secure connection to the mailbox server.
    Connecting,
    /// For the mailbox server to accept the credentials.
    Authenticating,
    /// For the submission transport to be set up.
    PreparingTransport,
    /// For the inbox to be selected. A poll cycle begins here.
    Selecting,
    /// For the identifiers of the messages that match the search.
    Searching,
    /// For the messages under one identifier.
    Fetching,
    /// For the response to the text of one message.
    Processing,
    /// For the submission server to take one reply.
    Submitting,
    /// For the pause between two poll cycles to pass.
    Sleeping,
    /// For nothing: the relay has failed, and stays so.
    Stopped(RelayError),
}

/// A fetched message as a mathematical value.
pub struct MessageView {
    pub id: u32,
    pub body: Option<Seq<u8>>,
}

/// The answer to a request, as a mathematical value.
pub enum EventView {
    Completed,
    Failed,
    Found(Seq<u32>),
    Fetched(Seq<MessageView>),
    Processed(Seq<char>),
}

/// A request of the relay, as a mathematical value.
pub enum ActionView {
    Connect { host: Seq<char>, port: u16 },
    Login { username: Seq<char>, password: Seq<char> },
    PrepareTransport { host: Seq<char>, username: Seq<char>, password: Seq<char> },
    Select { mailbox: Seq<char> },
    Search { query: Seq<char> },
    Fetch { sequence_set: Seq<char>, query: Seq<char> },
    Process { text: Seq<char> },
    Submit { reply: ReplyView },
    Sleep { seconds: u64 },
    Halt { error: RelayError },
}

/// The state of the relay: its configuration, what it waits for, the
/// identifiers of this cycle that are still to be fetched, and the fetched
/// messages that are still to be looked at.
pub struct RelayView {
    pub config: EmailConfigView,
    pub phase: Phase,
    pub ids: Seq<u32>,
    pub messages: Seq<MessageView>,
}

/// How long the relay pauses between two poll cycles, in seconds.
pub const POLL_INTERVAL_SECS: u64 = 60;

impl RelayView {
    /// What holds of every state that the relay reaches: identifiers are
    /// kept only while a cycle fetches, messages only while one fetch is
    /// being worked off.
    pub open spec fn wf(self) -> bool {
        match self.phase {
            Phase::Fetching => self.messages.len() == 0,
            Phase::Processing | Phase::Submitting => true,
            _ => self.ids.len() == 0 && self.messages.len() == 0,
        }
    }

    /// The same state, waiting for something else.
    pub open spec fn entering(self, phase: Phase) -> RelayView {
        RelayView { phase, ..self }
    }
}

/// The relay fails: it drops what it had queued and asks to be halted.
pub open spec fn halted(state: RelayView, error: RelayError) -> (RelayView, ActionView) {
    (
        RelayView {
            config: state.config,
            phase: Phase::Stopped(error),
            ids: Seq::empty(),
            messages: Seq::empty(),
        },
        ActionView::Halt { error },
    )
}

/// The relay goes on with the cycle. Fetched messages come first, in the
/// order in which they arrived: one without a body is passed over, one whose
/// body is valid UTF-8 is sent to be processed, and one whose body is not
/// ends the run. With no message left, the next identifier is fetched; with
/// no identifier left, the cycle is over and the relay sleeps.
pub open spec fn advance(state: RelayView) -> (RelayView, ActionView)
    decreases state.messages.len(),
{
    if state.messages.len() > 0 {
        let rest = RelayView { messages: state.messages.drop_first(), ..state };
        match state.messages[0].body {
            None => advance(rest),
            Some(bytes) => if valid_utf8(bytes) {
                (rest.entering(Phase::Processing), ActionView::Process { text: decode_utf8(bytes) })
            } else {
                halted(state, RelayError::EncodingError)
            },
        }
    } else if state.ids.len() > 0 {
        (
            RelayView { phase: Phase::Fetching, ids: state.ids.drop_first(), ..state },
            ActionView::Fetch { sequence_set: decimal(state.ids[0] as nat), query: "BODY.PEEK[]"@ },
        )
    } else {
        (state.entering(Phase::Sleeping), ActionView::Sleep { seconds: POLL_INTERVAL_SECS })
    }
}

/// The request that selects the inbox.
pub open spec fn select_inbox() -> ActionView {
    ActionView::Select { mailbox: "INBOX"@ }
}

/// The state in which the relay starts, and its first request: to connect to
/// the mailbox server.
pub open spec fn initial(config: EmailConfigView) -> (RelayView, ActionView) {
    (
        RelayView { config, phase: Phase::Connecting, ids: Seq::empty(), messages: Seq::empty() },
        ActionView::Connect { host: config.imap_server, port: config.imap_port },
    )
}

/// One step of the relay: from a state and the answer to its last request to
/// the next state and the next request.
///
/// A failure ends the run with the error of the phase it occurred in. So does
/// an answer that the phase does not wait for, as a `ProtocolError`. A relay
/// that has stopped stays as it is and asks to be halted, whatever comes.
pub open spec fn next(state: RelayView, event: EventView) -> (RelayView, ActionView) {
    match state.phase {
        Phase::Stopped(error) => (state, ActionView::Halt { error }),
        Phase::Connecting => match event {
            EventView::Completed => (
                state.entering(Phase::Authenticating),
                ActionView::Login {
                    username: state.config.username,
                    password: state.config.password,
                },
            ),
            EventView::Failed => halted(state, RelayError::ConnectError),
            _ => halted(state, RelayError::ProtocolError),
        },
        Phase::Authenticating => match event {
            EventView::Completed => (
                state.entering(Phase::PreparingTransport),
                ActionView::PrepareTransport {
                    host: state.config.smtp_server,
                    username: state.config.username,
                    password: state.config.password,
                },
            ),
            EventView::Failed => halted(state, RelayError::AuthError),
            _ => halted(state, RelayError::ProtocolError),
        },
        Phase::PreparingTransport => match event {
            EventView::Completed => (state.entering(Phase::Selecting), select_inbox()),
            EventView::Failed => halted(state, RelayError::TransportSetupError),
            _ => halted(state, RelayError::ProtocolError),
        },
        Phase::Selecting => match event {
            EventView::Completed => (
                state.entering(Phase::Searching),
                ActionView::Search { query: query_for(state.config.sender_email) },
            ),
            _ => halted(state, RelayError::ProtocolError),
        },
        Phase::Searching => match event {
            EventView::Found(ids) => advance(RelayView { ids, messages: Seq::empty(), ..state }),
            _ => halted(state, RelayError::ProtocolError),
        },
        Phase::Fetching => match event {
            EventView::Fetched(messages) => advance(RelayView { messages, ..state }),
            _ => halted(state, RelayError::ProtocolError),
        },
        Phase::Processing => match event {
            EventView::Processed(response) => match composed(
                state.config,
                response,
                mailbox_syntax(state.config.username),
                mailbox_syntax(state.config.sender_email),
            ) {
                Ok(reply) => (state.entering(Phase::Submitting), ActionView::Submit { reply }),
                Err(error) => halted(state, error),
            },
            _ => halted(state, RelayError::ProtocolError),
        },
        Phase::Submitting => match event {
            EventView::Completed => advance(state),
            EventView::Failed => halted(state, RelayError::SubmissionError),
            _ => halted(state, RelayError::ProtocolError),
        },
        Phase::Sleeping => match event {
            EventView::Completed => (state.entering(Phase::Selecting), select_inbox()),
            _ => halted(state, RelayError::ProtocolError),
        },
    }
}

/// The relay after a sequence of answers, and the requests it made on the
/// way, one for each answer.
pub open spec fn run(state: RelayView, events: Seq<EventView>) -> (RelayView, Seq<ActionView>)
    decreases events.len(),
{
    if events.len() == 0 {
        (state, Seq::empty())
    } else {
        let (before, actions) = run(state, events.drop_last());
        let (after, action) = next(before, events.last());
        (after, actions.push(action))
    }
}

} // verus!
