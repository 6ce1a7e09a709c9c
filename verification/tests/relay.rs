use config::Config;
use mail_relay::{callback_fn, Action, EmailConfig, Event, Message, Phase, Relay, RelayError, Reply};

fn relay_config(username: &str, sender_email: &str) -> EmailConfig {
    EmailConfig {
        username: String::from(username),
        password: String::from("s3cret"),
        sender_email: String::from(sender_email),
        imap_server: String::from("imap.example.com"),
        imap_port: 993,
        smtp_server: String::from("smtp.example.com"),
        smtp_port: 587,
    }
}

fn message(id: u32, body: Option<&[u8]>) -> Message {
    Message { id, body: body.map(|bytes| bytes.to_vec()) }
}

fn select_inbox() -> Action {
    Action::Select { mailbox: String::from("INBOX") }
}

fn fetch(id: &str) -> Action {
    Action::Fetch { sequence_set: String::from(id), query: String::from("BODY.PEEK[]") }
}

fn halt(error: RelayError) -> Action {
    Action::Halt { error }
}

/// A relay that has started and waits for the inbox to be selected.
fn relay_in_the_loop(config: EmailConfig) -> Relay {
    let (relay, _) = Relay::new(config);
    let (relay, _) = relay.step(Event::Completed);
    let (relay, _) = relay.step(Event::Completed);
    let (relay, action) = relay.step(Event::Completed);
    assert_eq!(action, select_inbox());
    relay
}

/// A relay that has asked for the search and waits for what it finds.
fn relay_searching(config: EmailConfig) -> Relay {
    let (relay, action) = relay_in_the_loop(config).step(Event::Completed);
    assert!(matches!(action, Action::Search { .. }));
    relay
}

/// Plays the mailbox and the submission server for one poll cycle: `inbox`
/// gives the messages under each identifier that the search finds. Returns
/// the relay, the request that ended the cycle and all requests made.
fn play_cycle(relay: Relay, inbox: &[(u32, Vec<Message>)]) -> (Relay, Action, Vec<Action>) {
    let mut made: Vec<Action> = Vec::new();
    let ids: Vec<u32> = inbox.iter().map(|entry| entry.0).collect();
    let (mut relay, mut action) = relay.step(Event::Found(ids));
    loop {
        made.push(action.clone());
        let event = match &action {
            Action::Fetch { sequence_set, .. } => {
                let id: u32 = sequence_set.parse().unwrap();
                let found = inbox.iter().find(|entry| entry.0 == id).unwrap();
                Event::Fetched(found.1.clone())
            }
            Action::Process { text } => Event::Processed(callback_fn(text)),
            Action::Submit { .. } => Event::Completed,
            _ => return (relay, action, made),
        };
        let moved = relay.step(event);
        relay = moved.0;
        action = moved.1;
    }
}

fn submitted(made: &[Action]) -> Vec<Reply> {
    let mut replies: Vec<Reply> = Vec::new();
    for action in made {
        if let Action::Submit { reply } = action {
            replies.push(reply.clone());
        }
    }
    replies
}

#[test]
fn the_relay_starts_by_connecting_to_the_mailbox_server() {
    let (relay, action) = Relay::new(relay_config("relay@example.com", "alice@example.com"));
    assert_eq!(action, Action::Connect { host: String::from("imap.example.com"), port: 993 });
    assert_eq!(relay.phase(), Phase::Connecting);
}

#[test]
fn the_start_goes_from_connection_to_login_to_transport_to_inbox() {
    let (relay, _) = Relay::new(relay_config("relay@example.com", "alice@example.com"));
    let (relay, action) = relay.step(Event::Completed);
    assert_eq!(
        action,
        Action::Login {
            username: String::from("relay@example.com"),
            password: String::from("s3cret"),
        }
    );
    assert_eq!(relay.phase(), Phase::Authenticating);
    let (relay, action) = relay.step(Event::Completed);
    assert_eq!(
        action,
        Action::PrepareTransport {
            host: String::from("smtp.example.com"),
            username: String::from("relay@example.com"),
            password: String::from("s3cret"),
        }
    );
    assert_eq!(relay.phase(), Phase::PreparingTransport);
    let (relay, action) = relay.step(Event::Completed);
    assert_eq!(action, select_inbox());
    assert_eq!(relay.phase(), Phase::Selecting);
}

#[test]
fn start_with_a_complete_store_asks_to_connect() {
    let store = Config::builder()
        .set_override("email.username", "relay@example.com")
        .unwrap()
        .set_override("email.password", "s3cret")
        .unwrap()
        .set_override("email.sender_email", "alice@example.com")
        .unwrap()
        .set_override("email.imap_server", "mail.example.org")
        .unwrap()
        .set_override("email.imap_port", 143_i64)
        .unwrap()
        .set_override("email.smtp_server", "smtp.example.org")
        .unwrap()
        .set_override("email.smtp_port", 25_i64)
        .unwrap()
        .build()
        .unwrap();
    let (relay, action) = Relay::start(&store).ok().unwrap();
    assert_eq!(action, Action::Connect { host: String::from("mail.example.org"), port: 143 });
    assert_eq!(relay.phase(), Phase::Connecting);
}

#[test]
fn start_without_a_required_field_fails_and_asks_for_nothing() {
    let store = Config::builder()
        .set_override("email.username", "relay@example.com")
        .unwrap()
        .set_override("email.sender_email", "alice@example.com")
        .unwrap()
        .set_override("email.imap_server", "mail.example.org")
        .unwrap()
        .set_override("email.imap_port", 143_i64)
        .unwrap()
        .set_override("email.smtp_server", "smtp.example.org")
        .unwrap()
        .set_override("email.smtp_port", 25_i64)
        .unwrap()
        .build()
        .unwrap();
    assert_eq!(Relay::start(&store).err(), Some(RelayError::ConfigError));
}

#[test]
fn a_failed_connection_is_a_connect_error() {
    let (relay, _) = Relay::new(relay_config("relay@example.com", "alice@example.com"));
    let (relay, action) = relay.step(Event::Failed);
    assert_eq!(action, halt(RelayError::ConnectError));
    assert_eq!(relay.phase(), Phase::Stopped(RelayError::ConnectError));
}

#[test]
fn a_rejected_login_is_an_auth_error_before_any_polling() {
    let (relay, first) = Relay::new(relay_config("relay@example.com", "alice@example.com"));
    let (relay, second) = relay.step(Event::Completed);
    let (relay, third) = relay.step(Event::Failed);
    assert!(matches!(first, Action::Connect { .. }));
    assert!(matches!(second, Action::Login { .. }));
    assert_eq!(third, halt(RelayError::AuthError));
    assert_eq!(relay.phase(), Phase::Stopped(RelayError::AuthError));
    let (relay, fourth) = relay.step(Event::Completed);
    assert_eq!(fourth, halt(RelayError::AuthError));
    assert_eq!(relay.phase(), Phase::Stopped(RelayError::AuthError));
}

#[test]
fn a_transport_that_cannot_be_set_up_is_a_transport_setup_error() {
    let (relay, _) = Relay::new(relay_config("relay@example.com", "alice@example.com"));
    let (relay, _) = relay.step(Event::Completed);
    let (relay, _) = relay.step(Event::Completed);
    let (relay, action) = relay.step(Event::Failed);
    assert_eq!(action, halt(RelayError::TransportSetupError));
    assert_eq!(relay.phase(), Phase::Stopped(RelayError::TransportSetupError));
}

#[test]
fn the_search_names_the_watched_sender() {
    let relay = relay_in_the_loop(relay_config("relay@example.com", "alice@example.com"));
    let (relay, action) = relay.step(Event::Completed);
    assert_eq!(action, Action::Search { query: String::from("(UNSEEN FROM alice@example.com)") });
    assert_eq!(relay.phase(), Phase::Searching);
}

#[test]
fn a_message_from_the_watched_sender_gets_one_reply() {
    let relay = relay_searching(relay_config("relay@example.com", "alice@example.com"));
    let (relay, action) = relay.step(Event::Found(vec![3]));
    assert_eq!(action, fetch("3"));
    assert_eq!(relay.phase(), Phase::Fetching);
    let (relay, action) = relay.step(Event::Fetched(vec![message(3, Some(b"hello"))]));
    assert_eq!(action, Action::Process { text: String::from("hello") });
    assert_eq!(relay.phase(), Phase::Processing);
    let (relay, action) = relay.step(Event::Processed(callback_fn("hello")));
    assert_eq!(
        action,
        Action::Submit {
            reply: Reply {
                from: String::from("relay@example.com"),
                to: String::from("alice@example.com"),
                subject: String::from("Response"),
                body: String::from("Processed: hello"),
            }
        }
    );
    assert_eq!(relay.phase(), Phase::Submitting);
    let (relay, action) = relay.step(Event::Completed);
    assert_eq!(action, Action::Sleep { seconds: 60 });
    assert_eq!(relay.phase(), Phase::Sleeping);
}

#[test]
fn a_cycle_with_one_message_submits_exactly_once() {
    let relay = relay_searching(relay_config("relay@example.com", "alice@example.com"));
    let inbox = vec![(1_u32, vec![message(1, Some(b"hello"))])];
    let (_, last, made) = play_cycle(relay, &inbox);
    assert_eq!(last, Action::Sleep { seconds: 60 });
    let replies = submitted(&made);
    assert_eq!(replies.len(), 1);
    assert_eq!(replies[0].to, "alice@example.com");
    assert_eq!(replies[0].from, "relay@example.com");
    assert_eq!(replies[0].subject, "Response");
    assert_eq!(replies[0].body, "Processed: hello");
}

#[test]
fn a_message_that_the_search_does_not_find_is_neither_fetched_nor_answered() {
    // The inbox holds an unseen message from bob@example.com only; the search
    // for messages from alice@example.com finds nothing.
    let relay = relay_in_the_loop(relay_config("relay@example.com", "alice@example.com"));
    let (relay, action) = relay.step(Event::Completed);
    assert_eq!(action, Action::Search { query: String::from("(UNSEEN FROM alice@example.com)") });
    let (relay, last, made) = play_cycle(relay, &[]);
    assert_eq!(made, vec![Action::Sleep { seconds: 60 }]);
    assert_eq!(last, Action::Sleep { seconds: 60 });
    assert_eq!(relay.phase(), Phase::Sleeping);
}

#[test]
fn only_what_the_search_found_is_fetched() {
    let relay = relay_searching(relay_config("relay@example.com", "alice@example.com"));
    let inbox = vec![
        (12_u32, vec![message(12, Some(b"a"))]),
        (7_u32, vec![message(7, Some(b"b"))]),
        (4000000000_u32, vec![message(4000000000, Some(b"c"))]),
    ];
    let (_, _, made) = play_cycle(relay, &inbox);
    let fetched: Vec<Action> =
        made.iter().filter(|action| matches!(action, Action::Fetch { .. })).cloned().collect();
    assert_eq!(fetched, vec![fetch("12"), fetch("7"), fetch("4000000000")]);
}

#[test]
fn every_message_with_a_body_gets_one_reply_and_the_others_none() {
    let relay = relay_searching(relay_config("relay@example.com", "alice@example.com"));
    let inbox = vec![
        (5_u32, vec![message(5, Some(b"first")), message(5, None), message(5, Some(b"second"))]),
        (9_u32, vec![message(9, None)]),
        (11_u32, vec![]),
        (12_u32, vec![message(12, None), message(12, Some(b""))]),
    ];
    let (relay, last, made) = play_cycle(relay, &inbox);
    assert_eq!(last, Action::Sleep { seconds: 60 });
    assert_eq!(relay.phase(), Phase::Sleeping);
    let bodies: Vec<String> = submitted(&made).into_iter().map(|reply| reply.body).collect();
    assert_eq!(bodies, vec!["Processed: first", "Processed: second", "Processed: "]);
    let fetches = made.iter().filter(|action| matches!(action, Action::Fetch { .. })).count();
    assert_eq!(fetches, 4);
}

#[test]
fn the_requests_of_a_cycle_come_in_order() {
    let relay = relay_searching(relay_config("relay@example.com", "alice@example.com"));
    let inbox = vec![
        (1_u32, vec![message(1, Some(b"one"))]),
        (2_u32, vec![message(2, None), message(2, Some(b"two"))]),
    ];
    let (_, _, made) = play_cycle(relay, &inbox);
    let reply = |body: &str| Action::Submit {
        reply: Reply {
            from: String::from("relay@example.com"),
            to: String::from("alice@example.com"),
            subject: String::from("Response"),
            body: String::from(body),
        },
    };
    assert_eq!(
        made,
        vec![
            fetch("1"),
            Action::Process { text: String::from("one") },
            reply("Processed: one"),
            fetch("2"),
            Action::Process { text: String::from("two") },
            reply("Processed: two"),
            Action::Sleep { seconds: 60 },
        ]
    );
}

#[test]
fn the_response_is_sent_as_the_processing_function_gave_it() {
    let relay = relay_searching(relay_config("relay@example.com", "alice@example.com"));
    let (relay, _) = relay.step(Event::Found(vec![1]));
    let (relay, _) = relay.step(Event::Fetched(vec![message(1, Some(b"ping"))]));
    let (_, action) = relay.step(Event::Processed(String::from("pong")));
    match action {
        Action::Submit { reply } => assert_eq!(reply.body, "pong"),
        other => panic!("expected a submission, got {:?}", other),
    }
}

#[test]
fn a_failed_submission_ends_the_run() {
    let relay = relay_searching(relay_config("relay@example.com", "alice@example.com"));
    let (relay, _) = relay.step(Event::Found(vec![1, 2]));
    let (relay, _) =
        relay.step(Event::Fetched(vec![message(1, Some(b"one")), message(1, Some(b"more"))]));
    let (relay, action) = relay.step(Event::Processed(callback_fn("one")));
    assert!(matches!(action, Action::Submit { .. }));
    let (relay, action) = relay.step(Event::Failed);
    assert_eq!(action, halt(RelayError::SubmissionError));
    assert_eq!(relay.phase(), Phase::Stopped(RelayError::SubmissionError));
    // Whatever is said to it afterwards, it asks for nothing more.
    let (relay, action) = relay.step(Event::Completed);
    assert_eq!(action, halt(RelayError::SubmissionError));
    let (relay, action) = relay.step(Event::Fetched(vec![message(2, Some(b"two"))]));
    assert_eq!(action, halt(RelayError::SubmissionError));
    let (relay, action) = relay.step(Event::Found(vec![3]));
    assert_eq!(action, halt(RelayError::SubmissionError));
    let (relay, action) = relay.step(Event::Processed(String::from("x")));
    assert_eq!(action, halt(RelayError::SubmissionError));
    assert_eq!(relay.phase(), Phase::Stopped(RelayError::SubmissionError));
}

#[test]
fn with_nothing_to_answer_the_relay_searches_once_and_sleeps_a_minute() {
    let mut relay = relay_in_the_loop(relay_config("relay@example.com", "alice@example.com"));
    for _ in 0..5 {
        let (searching, action) = relay.step(Event::Completed);
        assert_eq!(
            action,
            Action::Search { query: String::from("(UNSEEN FROM alice@example.com)") }
        );
        let (sleeping, action) = searching.step(Event::Found(Vec::new()));
        assert_eq!(action, Action::Sleep { seconds: 60 });
        assert_eq!(sleeping.phase(), Phase::Sleeping);
        let (selecting, action) = sleeping.step(Event::Completed);
        assert_eq!(action, select_inbox());
        assert_eq!(selecting.phase(), Phase::Selecting);
        relay = selecting;
    }
}

#[test]
fn a_body_that_is_no_text_is_an_encoding_error() {
    let relay = relay_searching(relay_config("relay@example.com", "alice@example.com"));
    let (relay, _) = relay.step(Event::Found(vec![1, 2]));
    let (relay, action) =
        relay.step(Event::Fetched(vec![message(1, None), message(1, Some(&[0xff, 0xfe]))]));
    assert_eq!(action, halt(RelayError::EncodingError));
    assert_eq!(relay.phase(), Phase::Stopped(RelayError::EncodingError));
}

#[test]
fn a_message_before_a_bad_body_is_still_answered() {
    let relay = relay_searching(relay_config("relay@example.com", "alice@example.com"));
    let inbox = vec![(1_u32, vec![message(1, Some(b"good")), message(1, Some(&[0x80]))])];
    let (relay, last, made) = play_cycle(relay, &inbox);
    assert_eq!(last, halt(RelayError::EncodingError));
    assert_eq!(relay.phase(), Phase::Stopped(RelayError::EncodingError));
    assert_eq!(submitted(&made).len(), 1);
}

#[test]
fn a_sender_that_is_no_address_is_an_address_error_when_a_reply_is_due() {
    let relay = relay_searching(relay_config("relay@example.com", "alice"));
    let (relay, action) = relay.step(Event::Found(vec![1]));
    assert_eq!(action, fetch("1"));
    let (relay, action) = relay.step(Event::Fetched(vec![message(1, Some(b"hello"))]));
    assert_eq!(action, Action::Process { text: String::from("hello") });
    let (relay, action) = relay.step(Event::Processed(callback_fn("hello")));
    assert_eq!(action, halt(RelayError::AddressError));
    assert_eq!(relay.phase(), Phase::Stopped(RelayError::AddressError));
}

#[test]
fn an_account_that_is_no_address_is_an_address_error_when_a_reply_is_due() {
    let relay = relay_searching(relay_config("relay", "alice@example.com"));
    let (relay, _) = relay.step(Event::Found(vec![1]));
    let (relay, _) = relay.step(Event::Fetched(vec![message(1, Some(b"hello"))]));
    let (relay, action) = relay.step(Event::Processed(callback_fn("hello")));
    assert_eq!(action, halt(RelayError::AddressError));
    assert_eq!(relay.phase(), Phase::Stopped(RelayError::AddressError));
}

#[test]
fn a_bad_address_does_no_harm_while_nothing_is_to_be_answered() {
    let relay = relay_searching(relay_config("relay", "alice"));
    let (relay, last, _) = play_cycle(relay, &[(1_u32, vec![message(1, None)])]);
    assert_eq!(last, Action::Sleep { seconds: 60 });
    assert_eq!(relay.phase(), Phase::Sleeping);
}

#[test]
fn a_failure_of_the_mailbox_server_is_a_protocol_error() {
    let relay = relay_in_the_loop(relay_config("relay@example.com", "alice@example.com"));
    let (relay, action) = relay.step(Event::Failed);
    assert_eq!(action, halt(RelayError::ProtocolError));
    assert_eq!(relay.phase(), Phase::Stopped(RelayError::ProtocolError));

    let relay = relay_searching(relay_config("relay@example.com", "alice@example.com"));
    let (_, action) = relay.step(Event::Failed);
    assert_eq!(action, halt(RelayError::ProtocolError));

    let relay = relay_searching(relay_config("relay@example.com", "alice@example.com"));
    let (relay, _) = relay.step(Event::Found(vec![8]));
    let (_, action) = relay.step(Event::Failed);
    assert_eq!(action, halt(RelayError::ProtocolError));
}

#[test]
fn an_answer_that_nothing_waits_for_is_a_protocol_error() {
    let (relay, _) = Relay::new(relay_config("relay@example.com", "alice@example.com"));
    let (relay, action) = relay.step(Event::Found(vec![1]));
    assert_eq!(action, halt(RelayError::ProtocolError));
    assert_eq!(relay.phase(), Phase::Stopped(RelayError::ProtocolError));

    let relay = relay_searching(relay_config("relay@example.com", "alice@example.com"));
    let (_, action) = relay.step(Event::Completed);
    assert_eq!(action, halt(RelayError::ProtocolError));

    let relay = relay_searching(relay_config("relay@example.com", "alice@example.com"));
    let (relay, _) = relay.step(Event::Found(Vec::new()));
    let (_, action) = relay.step(Event::Failed);
    assert_eq!(action, halt(RelayError::ProtocolError));

    let relay = relay_searching(relay_config("relay@example.com", "alice@example.com"));
    let (relay, _) = relay.step(Event::Found(vec![1]));
    let (relay, _) = relay.step(Event::Fetched(vec![message(1, Some(b"hello"))]));
    let (_, action) = relay.step(Event::Failed);
    assert_eq!(action, halt(RelayError::ProtocolError));
}

#[test]
fn the_next_cycle_starts_afresh() {
    let relay = relay_searching(relay_config("relay@example.com", "alice@example.com"));
    let (relay, _, made) = play_cycle(relay, &[(1_u32, vec![message(1, Some(b"one"))])]);
    assert_eq!(submitted(&made).len(), 1);
    let (relay, action) = relay.step(Event::Completed);
    assert_eq!(action, select_inbox());
    let (relay, _) = relay.step(Event::Completed);
    let (relay, last, made) = play_cycle(
        relay,
        &[(1_u32, vec![message(1, Some(b"uno"))]), (2_u32, vec![message(2, Some(b"due"))])],
    );
    assert_eq!(last, Action::Sleep { seconds: 60 });
    assert_eq!(relay.phase(), Phase::Sleeping);
    let bodies: Vec<String> = submitted(&made).into_iter().map(|reply| reply.body).collect();
    assert_eq!(bodies, vec!["Processed: uno", "Processed: due"]);
}
