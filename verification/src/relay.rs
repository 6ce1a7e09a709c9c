//! The relay itself: a machine that is driven from outside.
//!
//! The caller owns the two network sessions. It carries out what the relay
//! asks for ([`Action`]), tells the relay how that went ([`Event`]), and is
//! asked for the next thing. The relay keeps the order of the work and
//! decides when a failure ends it.

use crate::error::RelayError;
use crate::model::{
    advance, halted, initial, next, ActionView, EventView, MessageView, Phase, RelayView,
    POLL_INTERVAL_SECS,
};
use crate::reply::{reply_for, Reply};
use crate::settings::{complete, configured, EmailConfig};
use crate::text::{decode_body, search_query, sequence_set};
use vstd::prelude::*;
use vstd::string::*;

verus! {

/// A message as the mailbox server handed it over.
#[derive(Clone, Debug, PartialEq, Eq)]
pub struct Message {
    /// The identifier that the server gave the message. It may change from
    /// one session to the next.
    pub id: u32,
    /// The raw body, where the server sent one.
    pub body: Option<Vec<u8>>,
}

impl View for Message {
    type V = MessageView;

    open spec fn view(&self) -> MessageView {
        MessageView {
            id: self.id,
            body: match self.body {
                Some(bytes) => Some(bytes@),
                None => None,
            },
        }
    }
}

/// The messages of a list as mathematical values.
pub open spec fn messages_view(messages: Seq<Message>) -> Seq<MessageView> {
    messages.map_values(|m: Message| m@)
}

/// How the work that the relay asked for went.
#[derive(Clone, Debug, PartialEq, Eq)]
pub enum Event {
    /// It was done. This answers every request that brings nothing back.
    Completed,
    /// It could not be done.
    Failed,
    /// The search was done; these are the identifiers it found, in any order.
    Found(Vec<u32>),
    /// The fetch was done; these are the messages under the identifier.
    Fetched(Vec<Message>),
    /// The text was processed; this is the response.
    Processed(String),
}

impl View for Event {
    type V = EventView;

    open spec fn view(&self) -> EventView {
        match self {
            Event::Completed => EventView::Completed,
            Event::Failed => EventView::Failed,
            Event::Found(ids) => EventView::Found(ids@),
            Event::Fetched(messages) => EventView::Fetched(messages_view(messages@)),
            Event::Processed(response) => EventView::Processed(response@),
        }
    }
}

/// What the relay asks its caller to do next.
#[derive(Clone, Debug, PartialEq, Eq)]
pub enum Action {
    /// Open a secure connection to the mailbox server.
    Connect { host: String, port: u16 },
    /// Log in to the mailbox server.
    Login { username: String, password: String },
    /// Set up the transport to the submission server, with the credentials.
    PrepareTransport { host: String, username: String, password: String },
    /// Select a mailbox.
    Select { mailbox: String },
    /// Search the selected mailbox.
    Search { query: String },
    /// Fetch the messages that `sequence_set` names; `query` says which part.
    Fetch { sequence_set: String, query: String },
    /// Hand a message's text to the processing function.
    Process { text: String },
    /// Hand a reply to the submission server.
    Submit { reply: Reply },
    /// Pause.
    Sleep { seconds: u64 },
    /// End the run with this error.
    Halt { error: RelayError },
}

impl View for Action {
    type V = ActionView;

    open spec fn view(&self) -> ActionView {
        match self {
            Action::Connect { host, port } => ActionView::Connect { host: host@, port: *port },
            Action::Login { username, password } => ActionView::Login {
                username: username@,
                password: password@,
            },
            Action::PrepareTransport { host, username, password } => ActionView::PrepareTransport {
                host: host@,
                username: username@,
                password: password@,
            },
            Action::Select { mailbox } => ActionView::Select { mailbox: mailbox@ },
            Action::Search { query } => ActionView::Search { query: query@ },
            Action::Fetch { sequence_set, query } => ActionView::Fetch {
                sequence_set: sequence_set@,
                query: query@,
            },
            Action::Process { text } => ActionView::Process { text: text@ },
            Action::Submit { reply } => ActionView::Submit { reply: reply@ },
            Action::Sleep { seconds } => ActionView::Sleep { seconds: *seconds },
            Action::Halt { error } => ActionView::Halt { error: *error },
        }
    }
}

/// The relay. It is made by [`Relay::new`] or [`Relay::start`] and moved on
/// by [`Relay::step`].
pub struct Relay {
    config: EmailConfig,
    phase: Phase,
    ids: Vec<u32>,
    next_id: usize,
    messages: Vec<Message>,
    next_message: usize,
}

impl View for Relay {
    type V = RelayView;

    closed spec fn view(&self) -> RelayView {
        RelayView {
            config: self.config@,
            phase: self.phase,
            ids: self.ids@.skip(self.next_id as int),
            messages: messages_view(self.messages@.skip(self.next_message as int)),
        }
    }
}

impl Relay {
    #[verifier::type_invariant]
    spec fn inv(self) -> bool {
        &&& self.next_id <= self.ids.len()
        &&& self.next_message <= self.messages.len()
        &&& self@.wf()
    }

    /// A relay for this configuration, and its first request.
    pub fn new(config: EmailConfig) -> (started: (Relay, Action))
        ensures
            (started.0@, started.1@) == initial(config@),
            started.0@.wf(),
    {
        let action = Action::Connect { host: config.imap_server.clone(), port: config.imap_port };
        let relay = Relay {
            config,
            phase: Phase::Connecting,
            ids: Vec::new(),
            next_id: 0,
            messages: Vec::new(),
            next_message: 0,
        };
        assert(relay@.ids =~= Seq::empty());
        assert(relay@.messages =~= Seq::empty());
        (relay, action)
    }

    /// A relay for the configuration that a settings store holds, and its
    /// first request. A store that lacks a field gives a `ConfigError` and no
    /// relay, so that nothing is ever asked of the network.
    pub fn start(settings: &config::Config) -> (started: Result<(Relay, Action), RelayError>)
        ensures
            match started {
                Ok((relay, action)) => complete(*settings) && (relay@, action@) == initial(
                    configured(*settings),
                ) && relay@.wf(),
                Err(e) => !complete(*settings) && e == RelayError::ConfigError,
            },
    {
        match EmailConfig::load(settings) {
            Ok(config) => Ok(Relay::new(config)),
            Err(e) => Err(e),
        }
    }

    /// Moves the relay on by the answer to its last request, and gives its
    /// next request.
    pub fn step(self, event: Event) -> (moved: (Relay, Action))
        ensures
            (moved.0@, moved.1@) == next(self@, event@),
            moved.0@.wf(),
    {
        proof {
            use_type_invariant(&self);
        }
        match self.phase {
            Phase::Stopped(error) => (self, Action::Halt { error }),
            Phase::Connecting => match event {
                Event::Completed => {
                    let action = Action::Login {
                        username: self.config.username.clone(),
                        password: self.config.password.clone(),
                    };
                    (self.enter(Phase::Authenticating), action)
                },
                Event::Failed => self.halt(RelayError::ConnectError),
                _ => self.halt(RelayError::ProtocolError),
            },
            Phase::Authenticating => match event {
                Event::Completed => {
                    let action = Action::PrepareTransport {
                        host: self.config.smtp_server.clone(),
                        username: self.config.username.clone(),
                        password: self.config.password.clone(),
                    };
                    (self.enter(Phase::PreparingTransport), action)
                },
                Event::Failed => self.halt(RelayError::AuthError),
                _ => self.halt(RelayError::ProtocolError),
            },
            Phase::PreparingTransport => match event {
                Event::Completed => (self.enter(Phase::Selecting), Relay::select_inbox()),
                Event::Failed => self.halt(RelayError::TransportSetupError),
                _ => self.halt(RelayError::ProtocolError),
            },
            Phase::Selecting => match event {
                Event::Completed => {
                    let action = Action::Search {
                        query: search_query(self.config.sender_email.as_str()),
                    };
                    (self.enter(Phase::Searching), action)
                },
                _ => self.halt(RelayError::ProtocolError),
            },
            Phase::Searching => match event {
                Event::Found(ids) => {
                    let ghost found = RelayView { ids: ids@, messages: Seq::empty(), ..self@ };
                    assert(ids@.skip(0) =~= ids@);
                    assert(messages_view(Seq::<Message>::empty().skip(0)) =~= Seq::empty());
                    Relay::advance(self.config, ids, 0, Vec::new(), 0, Ghost(found))
                },
                _ => self.halt(RelayError::ProtocolError),
            },
            Phase::Fetching => match event {
                Event::Fetched(messages) => {
                    let ghost fetched = RelayView { messages: messages_view(messages@), ..self@ };
                    assert(messages@.skip(0) =~= messages@);
                    Relay::advance(
                        self.config,
                        self.ids,
                        self.next_id,
                        messages,
                        0,
                        Ghost(fetched),
                    )
                },
                _ => self.halt(RelayError::ProtocolError),
            },
            Phase::Processing => match event {
                Event::Processed(response) => match reply_for(&self.config, response) {
                    Ok(reply) => (self.enter(Phase::Submitting), Action::Submit { reply }),
                    Err(error) => self.halt(error),
                },
                _ => self.halt(RelayError::ProtocolError),
            },
            Phase::Submitting => match event {
                Event::Completed => {
                    let ghost state = self@;
                    Relay::advance(
                        self.config,
                        self.ids,
                        self.next_id,
                        self.messages,
                        self.next_message,
                        Ghost(state),
                    )
                },
                Event::Failed => self.halt(RelayError::SubmissionError),
                _ => self.halt(RelayError::ProtocolError),
            },
            Phase::Sleeping => match event {
                Event::Completed => (self.enter(Phase::Selecting), Relay::select_inbox()),
                _ => self.halt(RelayError::ProtocolError),
            },
        }
    }

    fn select_inbox() -> (action: Action)
        ensures
            action@ == crate::model::select_inbox(),
    {
        Action::Select { mailbox: String::from_str("INBOX") }
    }

    fn enter(self, phase: Phase) -> (moved: Relay)
        requires
            self@.entering(phase).wf(),
        ensures
            moved@ == self@.entering(phase),
    {
        proof {
            use_type_invariant(&self);
        }
        Relay {
            config: self.config,
            phase,
            ids: self.ids,
            next_id: self.next_id,
            messages: self.messages,
            next_message: self.next_message,
        }
    }

    fn halt(self, error: RelayError) -> (stopped: (Relay, Action))
        ensures
            (stopped.0@, stopped.1@) == halted(self@, error),
            stopped.0@.wf(),
    {
        Relay::stopped(self.config, error, Ghost(self@))
    }

    fn stopped(config: EmailConfig, error: RelayError, Ghost(state): Ghost<RelayView>) -> (stopped:
        (Relay, Action))
        requires
            state.config == config@,
        ensures
            (stopped.0@, stopped.1@) == halted(state, error),
            stopped.0@.wf(),
    {
        let relay = Relay {
            config,
            phase: Phase::Stopped(error),
            ids: Vec::new(),
            next_id: 0,
            messages: Vec::new(),
            next_message: 0,
        };
        assert(relay@.ids =~= Seq::empty());
        assert(relay@.messages =~= Seq::empty());
        (relay, Action::Halt { error })
    }

    fn advance(
        config: EmailConfig,
        ids: Vec<u32>,
        next_id: usize,
        messages: Vec<Message>,
        next_message: usize,
        Ghost(start): Ghost<RelayView>,
    ) -> (moved: (Relay, Action))
        requires
            next_id <= ids.len(),
            next_message <= messages.len(),
            start.config == config@,
            start.ids == ids@.skip(next_id as int),
            start.messages == messages_view(messages@.skip(next_message as int)),
        ensures
            (moved.0@, moved.1@) == advance(start),
            moved.0@.wf(),
    {
        let mut cursor: usize = next_message;
        while cursor < messages.len()
            invariant
                cursor <= messages.len(),
                next_id <= ids.len(),
                start.config == config@,
                start.ids == ids@.skip(next_id as int),
                advance(
                    RelayView {
                        messages: messages_view(messages@.skip(cursor as int)),
                        ..start
                    },
                ) == advance(start),
            decreases messages.len() - cursor,
        {
            let ghost here = RelayView {
                messages: messages_view(messages@.skip(cursor as int)),
                ..start
            };
            assert(here.messages.drop_first() =~= messages_view(
                messages@.skip(cursor as int + 1),
            ));
            assert(here.messages[0] == messages@[cursor as int]@);
            match &messages[cursor].body {
                None => {
                    cursor = cursor + 1;
                },
                Some(bytes) => {
                    match decode_body(bytes.as_slice()) {
                        Ok(text) => {
                            let relay = Relay {
                                config,
                                phase: Phase::Processing,
                                ids,
                                next_id,
                                messages,
                                next_message: cursor + 1,
                            };
                            return (relay, Action::Process { text });
                        },
                        Err(error) => {
                            return Relay::stopped(config, error, Ghost(here));
                        },
                    }
                },
            }
        }
        assert(messages_view(messages@.skip(cursor as int)) =~= Seq::empty());
        if next_id < ids.len() {
            let id = ids[next_id];
            let relay = Relay {
                config,
                phase: Phase::Fetching,
                ids,
                next_id: next_id + 1,
                messages,
                next_message: cursor,
            };
            assert(relay@.ids =~= start.ids.drop_first());
            (
                relay,
                Action::Fetch {
                    sequence_set: sequence_set(id),
                    query: String::from_str("BODY.PEEK[]"),
                },
            )
        } else {
            let relay = Relay {
                config,
                phase: Phase::Sleeping,
                ids,
                next_id,
                messages,
                next_message: cursor,
            };
            assert(relay@.ids =~= Seq::empty());
            (relay, Action::Sleep { seconds: POLL_INTERVAL_SECS })
        }
    }

    /// What the relay is waiting for.
    pub fn phase(&self) -> (phase: Phase)
        ensures
            phase == self@.phase,
    {
        self.phase
    }
}

} // verus!
