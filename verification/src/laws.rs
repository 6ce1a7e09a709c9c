//! What holds of every run of the relay.

use crate::error::RelayError;
use crate::model::{
    advance, initial, next, run, select_inbox, ActionView, EventView, MessageView, Phase,
    RelayView, POLL_INTERVAL_SECS,
};
use crate::settings::EmailConfigView;
use crate::text::{decimal, query_for};
use vstd::prelude::*;

verus! {

/// How many of the messages have a body.
pub open spec fn replyable(messages: Seq<MessageView>) -> nat
    decreases messages.len(),
{
    if messages.len() == 0 {
        0
    } else if messages[0].body is Some {
        1 + replyable(messages.drop_first())
    } else {
        replyable(messages.drop_first())
    }
}

/// How many messages with a body the answers brought.
pub open spec fn arrived(events: Seq<EventView>) -> nat
    decreases events.len(),
{
    if events.len() == 0 {
        0
    } else {
        arrived(events.drop_last()) + match events.last() {
            EventView::Fetched(messages) => replyable(messages),
            _ => 0,
        }
    }
}

/// How many of the requests hand a reply to the submission server.
pub open spec fn submissions(actions: Seq<ActionView>) -> nat
    decreases actions.len(),
{
    if actions.len() == 0 {
        0
    } else if actions.last() is Submit {
        submissions(actions.drop_last()) + 1
    } else {
        submissions(actions.drop_last())
    }
}

/// How many replies the relay still has to hand over for the messages it
/// holds: one for each queued message with a body, and one for the message
/// whose text is being processed.
pub open spec fn owed(state: RelayView) -> nat {
    if state.phase == Phase::Processing {
        replyable(state.messages) + 1
    } else {
        replyable(state.messages)
    }
}

/// Whether a request belongs to the poll loop rather than to the start.
pub open spec fn polls(action: ActionView) -> bool {
    !(action is Connect || action is Login || action is PrepareTransport || action is Halt)
}

/// Whether an error is one that only the start gives: the loop never ends
/// with it.
pub open spec fn startup_error(error: RelayError) -> bool {
    error == RelayError::ConfigError || error == RelayError::ConnectError || error
        == RelayError::AuthError || error == RelayError::TransportSetupError
}

/// Whether the relay has not entered the poll loop: it is still starting, or
/// it stopped with an error of the start.
pub open spec fn starting(phase: Phase) -> bool {
    match phase {
        Phase::Connecting | Phase::Authenticating | Phase::PreparingTransport => true,
        Phase::Stopped(error) => startup_error(error),
        _ => false,
    }
}

/// Whether none of the requests belongs to the poll loop.
pub open spec fn no_polling(actions: Seq<ActionView>) -> bool {
    forall|i: int| 0 <= i < actions.len() ==> !polls(#[trigger] actions[i])
}

proof fn lemma_advance(state: RelayView)
    ensures
        advance(state).0.wf(),
        advance(state).0.config == state.config,
        !(advance(state).1 is Submit),
        advance(state).0.phase is Stopped ==> advance(state).1 is Halt,
        !starting(advance(state).0.phase),
        !(advance(state).0.phase is Stopped) ==> owed(advance(state).0) == replyable(
            state.messages,
        ),
    decreases state.messages.len(),
{
    if state.messages.len() > 0 && state.messages[0].body is None {
        lemma_advance(RelayView { messages: state.messages.drop_first(), ..state });
    }
}

/// Every step keeps the state well formed.
pub proof fn lemma_next_wf(state: RelayView, event: EventView)
    requires
        state.wf(),
    ensures
        next(state, event).0.wf(),
        next(state, event).0.config == state.config,
{
    if state.phase == Phase::Searching {
        if let EventView::Found(ids) = event {
            lemma_advance(RelayView { ids, messages: Seq::empty(), ..state });
        }
    } else if state.phase == Phase::Fetching {
        if let EventView::Fetched(messages) = event {
            lemma_advance(RelayView { messages, ..state });
        }
    } else if state.phase == Phase::Submitting {
        lemma_advance(state);
    }
}

/// Every run from a well-formed state ends in one, and makes one request for
/// each answer.
pub proof fn lemma_run_wf(state: RelayView, events: Seq<EventView>)
    requires
        state.wf(),
    ensures
        run(state, events).0.wf(),
        run(state, events).0.config == state.config,
        run(state, events).1.len() == events.len(),
    decreases events.len(),
{
    if events.len() > 0 {
        lemma_run_wf(state, events.drop_last());
        lemma_next_wf(run(state, events.drop_last()).0, events.last());
    }
}

/// The relay is well formed whatever happens after its start.
pub proof fn lemma_reachable_wf(config: EmailConfigView, events: Seq<EventView>)
    ensures
        initial(config).0.wf(),
        run(initial(config).0, events).0.wf(),
{
    lemma_run_wf(initial(config).0, events);
}

/// A relay that has stopped stays stopped: whatever answers still come, its
/// state does not change and it asks for nothing but to be halted with the
/// error it stopped on.
pub proof fn lemma_stopped_is_final(state: RelayView, events: Seq<EventView>)
    requires
        state.phase is Stopped,
    ensures
        run(state, events).0 == state,
        run(state, events).1.len() == events.len(),
        forall|i: int|
            0 <= i < events.len() ==> run(state, events).1[i] == (ActionView::Halt {
                error: state.phase->Stopped_0,
            }),
        submissions(run(state, events).1) == 0,
    decreases events.len(),
{
    if events.len() > 0 {
        lemma_stopped_is_final(state, events.drop_last());
        assert(run(state, events).1.drop_last() =~= run(state, events.drop_last()).1);
    }
}

/// One step keeps the count of replies: if the relay has not stopped, then
/// what it owed before, and what the answer brought, it has either asked to
/// submit in this step or owes still.
pub proof fn lemma_next_accounts(state: RelayView, event: EventView)
    requires
        state.wf(),
        !(next(state, event).0.phase is Stopped),
    ensures
        submissions(seq![next(state, event).1]) + owed(next(state, event).0) == owed(state)
            + arrived(seq![event]),
{
    let one = seq![event];
    assert(one.drop_last() =~= Seq::<EventView>::empty());
    assert(arrived(one.drop_last()) == 0);
    let made = seq![next(state, event).1];
    assert(made.drop_last() =~= Seq::<ActionView>::empty());
    assert(submissions(made.drop_last()) == 0);
    assert(replyable(Seq::<MessageView>::empty()) == 0);
    if state.phase == Phase::Searching {
        if let EventView::Found(ids) = event {
            lemma_advance(RelayView { ids, messages: Seq::empty(), ..state });
        }
    } else if state.phase == Phase::Fetching {
        if let EventView::Fetched(messages) = event {
            lemma_advance(RelayView { messages, ..state });
        }
    } else if state.phase == Phase::Submitting {
        lemma_advance(state);
    }
}

/// Between any two moments of a run at which the relay has not stopped, it
/// asks to submit exactly one reply for each message with a body: the
/// replies owed at the first moment and the messages that arrived since are
/// the submissions asked for since and the replies owed at the second.
pub proof fn lemma_one_submission_per_message(state: RelayView, events: Seq<EventView>)
    requires
        state.wf(),
        !(run(state, events).0.phase is Stopped),
    ensures
        submissions(run(state, events).1) + owed(run(state, events).0) == owed(state) + arrived(
            events,
        ),
    decreases events.len(),
{
    if events.len() > 0 {
        let before = run(state, events.drop_last()).0;
        let event = events.last();
        lemma_run_wf(state, events.drop_last());
        if before.phase is Stopped {
            assert(next(before, event).0 == before);
        }
        lemma_one_submission_per_message(state, events.drop_last());
        lemma_next_accounts(before, event);
        let one = seq![event];
        assert(one.drop_last() =~= Seq::<EventView>::empty());
        assert(arrived(one.drop_last()) == 0);
        let made = seq![next(before, event).1];
        assert(made.drop_last() =~= Seq::<ActionView>::empty());
        assert(submissions(made.drop_last()) == 0);
        assert(run(state, events).1.drop_last() =~= run(state, events.drop_last()).1);
    }
}

/// In every poll cycle the relay asks to submit as many replies as messages
/// with a body were fetched: a message without a body counts for none, every
/// other for exactly one. A cycle runs from the selection of the inbox to
/// the pause; the law holds as well of several cycles on end.
pub proof fn lemma_cycle_submissions(state: RelayView, events: Seq<EventView>)
    requires
        state.wf(),
        state.phase == Phase::Selecting,
        run(state, events).0.phase == Phase::Sleeping,
    ensures
        submissions(run(state, events).1) == arrived(events),
{
    lemma_run_wf(state, events);
    lemma_one_submission_per_message(state, events);
    assert(state.messages =~= Seq::empty());
    assert(run(state, events).0.messages =~= Seq::empty());
}

proof fn lemma_next_starting(state: RelayView, event: EventView)
    requires
        starting(next(state, event).0.phase),
    ensures
        starting(state.phase),
        !polls(next(state, event).1),
{
    if state.phase == Phase::Searching {
        if let EventView::Found(ids) = event {
            lemma_advance(RelayView { ids, messages: Seq::empty(), ..state });
        }
    } else if state.phase == Phase::Fetching {
        if let EventView::Fetched(messages) = event {
            lemma_advance(RelayView { messages, ..state });
        }
    } else if state.phase == Phase::Submitting {
        lemma_advance(state);
    }
}

/// A relay that is still starting, or that stopped with an error of the
/// start, has never asked for anything of the poll loop.
pub proof fn lemma_startup_precedes_polling(config: EmailConfigView, events: Seq<EventView>)
    requires
        starting(run(initial(config).0, events).0.phase),
    ensures
        !polls(initial(config).1),
        no_polling(run(initial(config).0, events).1),
    decreases events.len(),
{
    if events.len() > 0 {
        let before = run(initial(config).0, events.drop_last());
        lemma_next_starting(before.0, events.last());
        lemma_startup_precedes_polling(config, events.drop_last());
    }
}

/// Where the mailbox server rejects the login, the relay stops with
/// `AuthError`, and up to then it has asked for nothing of the poll loop.
pub proof fn lemma_auth_failure_precedes_polling(config: EmailConfigView, events: Seq<EventView>)
    requires
        run(initial(config).0, events).0.phase == Phase::Authenticating,
    ensures
        run(initial(config).0, events.push(EventView::Failed)).0.phase == Phase::Stopped(
            RelayError::AuthError,
        ),
        run(initial(config).0, events.push(EventView::Failed)).1.last() == (ActionView::Halt {
            error: RelayError::AuthError,
        }),
        no_polling(run(initial(config).0, events.push(EventView::Failed)).1),
{
    let failed = events.push(EventView::Failed);
    assert(failed.drop_last() =~= events);
    lemma_startup_precedes_polling(config, failed);
}

/// Where the submission server does not take a reply, the relay stops with
/// `SubmissionError`; after that it asks for no submission and for nothing
/// else either, in this cycle or in a later one.
pub proof fn lemma_failed_submission_ends_run(state: RelayView, events: Seq<EventView>)
    requires
        state.phase == Phase::Submitting,
    ensures
        next(state, EventView::Failed).0.phase == Phase::Stopped(RelayError::SubmissionError),
        next(state, EventView::Failed).1 == (ActionView::Halt {
            error: RelayError::SubmissionError,
        }),
        submissions(run(next(state, EventView::Failed).0, events).1) == 0,
        forall|i: int|
            0 <= i < events.len() ==> run(next(state, EventView::Failed).0, events).1[i] == (
            ActionView::Halt { error: RelayError::SubmissionError }),
{
    lemma_stopped_is_final(next(state, EventView::Failed).0, events);
}

/// The relay never asks to submit more replies than messages with a body
/// have come to it, whether the run goes on or has stopped.
pub proof fn lemma_no_reply_without_message(state: RelayView, events: Seq<EventView>)
    requires
        state.wf(),
    ensures
        submissions(run(state, events).1) + owed(run(state, events).0) <= owed(state) + arrived(
            events,
        ),
    decreases events.len(),
{
    if events.len() > 0 {
        let before = run(state, events.drop_last()).0;
        let event = events.last();
        lemma_run_wf(state, events.drop_last());
        lemma_no_reply_without_message(state, events.drop_last());
        assert(run(state, events).1.drop_last() =~= run(state, events.drop_last()).1);
        if next(before, event).0.phase is Stopped {
            lemma_next_wf(before, event);
            assert(replyable(next(before, event).0.messages) == 0);
            lemma_halting_step(before, event);
        } else {
            lemma_next_accounts(before, event);
            let one = seq![event];
            assert(one.drop_last() =~= Seq::<EventView>::empty());
            assert(arrived(one.drop_last()) == 0);
            let made = seq![next(before, event).1];
            assert(made.drop_last() =~= Seq::<ActionView>::empty());
            assert(submissions(made.drop_last()) == 0);
        }
    }
}

proof fn lemma_halting_step(state: RelayView, event: EventView)
    requires
        next(state, event).0.phase is Stopped,
    ensures
        next(state, event).1 is Halt,
{
    if state.phase == Phase::Searching {
        if let EventView::Found(ids) = event {
            lemma_advance(RelayView { ids, messages: Seq::empty(), ..state });
        }
    } else if state.phase == Phase::Fetching {
        if let EventView::Fetched(messages) = event {
            lemma_advance(RelayView { messages, ..state });
        }
    } else if state.phase == Phase::Submitting {
        lemma_advance(state);
    }
}

/// A cycle in which the search finds nothing: the relay searches once, then
/// pauses for the poll interval, then selects the inbox again, and is back
/// where it was. So it goes on for as long as nothing is found.
pub proof fn lemma_idle_cycle(state: RelayView)
    requires
        state.wf(),
        state.phase == Phase::Selecting,
    ensures
        run(
            state,
            seq![EventView::Completed, EventView::Found(Seq::empty()), EventView::Completed],
        ) == (
            state,
            seq![
                ActionView::Search { query: query_for(state.config.sender_email) },
                ActionView::Sleep { seconds: POLL_INTERVAL_SECS },
                select_inbox(),
            ],
        ),
{
    let found = EventView::Found(Seq::empty());
    let three = seq![EventView::Completed, found, EventView::Completed];
    let two = seq![EventView::Completed, found];
    let one = seq![EventView::Completed];
    assert(three.drop_last() =~= two);
    assert(two.drop_last() =~= one);
    assert(one.drop_last() =~= Seq::<EventView>::empty());
    let none = Seq::<EventView>::empty();
    assert(run(state, none) == (state, Seq::<ActionView>::empty()));
    let searching = state.entering(Phase::Searching);
    assert(run(state, one).0 == searching);
    let emptied = RelayView { ids: Seq::empty(), messages: Seq::empty(), ..searching };
    assert(advance(emptied).0 == searching.entering(Phase::Sleeping)) by {
        assert(state.ids =~= Seq::empty());
        assert(state.messages =~= Seq::empty());
    }
    assert(run(state, two).0 == state.entering(Phase::Sleeping));
    assert(run(state, three).0 == state);
    assert(run(state, three).1 =~= seq![
        ActionView::Search { query: query_for(state.config.sender_email) },
        ActionView::Sleep { seconds: POLL_INTERVAL_SECS },
        select_inbox(),
    ]);
}

/// Whether an answer is a search result that holds `id`.
pub open spec fn finds(event: EventView, id: u32) -> bool {
    match event {
        EventView::Found(ids) => ids.contains(id),
        _ => false,
    }
}

/// Whether one of the answers is a search result that holds `id`.
pub open spec fn found(events: Seq<EventView>, id: u32) -> bool {
    exists|j: int| 0 <= j < events.len() && finds(#[trigger] events[j], id)
}

/// The request to fetch the messages under `id`.
pub open spec fn fetch_of(id: u32) -> ActionView {
    ActionView::Fetch { sequence_set: decimal(id as nat), query: "BODY.PEEK[]"@ }
}

proof fn lemma_advance_ids(state: RelayView)
    ensures
        forall|id: u32| #[trigger]
            advance(state).0.ids.contains(id) ==> state.ids.contains(id),
        advance(state).1 is Fetch ==> state.ids.len() > 0 && advance(state).1 == fetch_of(
            state.ids[0],
        ),
    decreases state.messages.len(),
{
    if state.messages.len() > 0 {
        if state.messages[0].body is None {
            lemma_advance_ids(RelayView { messages: state.messages.drop_first(), ..state });
        }
    } else if state.ids.len() > 0 {
        assert forall|id: u32| #[trigger] state.ids.drop_first().contains(id) implies state.ids.contains(
            id,
        ) by {
            let k = choose|k: int|
                0 <= k < state.ids.drop_first().len() && state.ids.drop_first()[k] == id;
            assert(state.ids[k + 1] == id);
        }
    }
}

proof fn lemma_next_ids(state: RelayView, event: EventView)
    ensures
        forall|id: u32| #[trigger]
            next(state, event).0.ids.contains(id) ==> state.ids.contains(id) || finds(event, id),
        next(state, event).1 is Fetch ==> exists|id: u32|
            (state.ids.contains(id) || finds(event, id)) && next(state, event).1 == #[trigger] fetch_of(
                id,
            ),
{
    if state.phase == Phase::Searching {
        if let EventView::Found(ids) = event {
            let searched = RelayView { ids, messages: Seq::empty(), ..state };
            lemma_advance_ids(searched);
            if next(state, event).1 is Fetch {
                assert(ids.contains(ids[0]));
                assert(next(state, event).1 == fetch_of(ids[0]));
            }
        }
    } else if state.phase == Phase::Fetching {
        if let EventView::Fetched(messages) = event {
            lemma_advance_ids(RelayView { messages, ..state });
            if next(state, event).1 is Fetch {
                assert(state.ids.contains(state.ids[0]));
                assert(next(state, event).1 == fetch_of(state.ids[0]));
            }
        }
    } else if state.phase == Phase::Submitting {
        lemma_advance_ids(state);
        if next(state, event).1 is Fetch {
            assert(state.ids.contains(state.ids[0]));
            assert(next(state, event).1 == fetch_of(state.ids[0]));
        }
    }
}

proof fn lemma_run_ids(state: RelayView, events: Seq<EventView>)
    ensures
        forall|id: u32| #[trigger]
            run(state, events).0.ids.contains(id) ==> state.ids.contains(id) || found(events, id),
    decreases events.len(),
{
    if events.len() > 0 {
        let earlier = events.drop_last();
        let before = run(state, earlier).0;
        lemma_run_ids(state, earlier);
        lemma_next_ids(before, events.last());
        assert forall|id: u32| #[trigger]
            run(state, events).0.ids.contains(id) implies state.ids.contains(id) || found(
            events,
            id,
        ) by {
            if finds(events.last(), id) {
                assert(finds(events[events.len() - 1], id));
            } else if !state.ids.contains(id) {
                assert(found(earlier, id));
                let j = choose|j: int| 0 <= j < earlier.len() && finds(#[trigger] earlier[j], id);
                assert(finds(events[j], id));
            }
        }
    }
}

/// Nothing is fetched that was not found: every identifier that the relay
/// asks to fetch is one that it held at the start of the run, or one that a
/// search has found by then. What a search for the watched sender does not
/// return is therefore never fetched, and never answered.
pub proof fn lemma_fetches_follow_search(state: RelayView, events: Seq<EventView>, i: int)
    requires
        0 <= i < events.len(),
        run(state, events).1[i] is Fetch,
    ensures
        exists|id: u32|
            (state.ids.contains(id) || found(events.take(i + 1), id)) && run(state, events).1[i]
                == #[trigger] fetch_of(id),
    decreases events.len(),
{
    let earlier = events.drop_last();
    let before = run(state, earlier).0;
    lemma_run_length(state, earlier);
    if i == events.len() - 1 {
        assert(events.take(i + 1) =~= events);
        lemma_next_ids(before, events.last());
        lemma_run_ids(state, earlier);
        let id = choose|id: u32|
            (before.ids.contains(id) || finds(events.last(), id)) && next(before, events.last()).1
                == #[trigger] fetch_of(id);
        if finds(events.last(), id) {
            assert(finds(events[events.len() - 1], id));
        } else if !state.ids.contains(id) {
            let j = choose|j: int| 0 <= j < earlier.len() && finds(#[trigger] earlier[j], id);
            assert(finds(events[j], id));
        }
        assert((state.ids.contains(id) || found(events, id)) && run(state, events).1[i] == fetch_of(
            id,
        ));
    } else {
        assert(run(state, events).1[i] == run(state, earlier).1[i]);
        assert(earlier.take(i + 1) =~= events.take(i + 1));
        lemma_fetches_follow_search(state, earlier, i);
    }
}

/// A run makes one request for each answer.
pub proof fn lemma_run_length(state: RelayView, events: Seq<EventView>)
    ensures
        run(state, events).1.len() == events.len(),
    decreases events.len(),
{
    if events.len() > 0 {
        lemma_run_length(state, events.drop_last());
    }
}

} // verus!
