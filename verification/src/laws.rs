//! What holds of every run of the poller.

use crate::config::{delay_setting, loaded, DEFAULT_DELAY, DELAY_KEY, TARGETS_KEY};
use crate::consumer::{ActionView, ConsumerView, EventView, Phase};
use crate::decimal::seconds_of;
use crate::error::StartupErrorView;
use crate::outcome::{
    kind_of_status, outcome_of_failure, outcome_of_status, OutcomeKind, OutcomeView,
};
use vstd::arithmetic::div_mod::{
    lemma_fundamental_div_mod, lemma_fundamental_div_mod_converse, lemma_small_mod,
};
use vstd::prelude::*;

verus! {

/// The state that a poller reaches from `state` when the driver reports
/// `events` one after the other, and the actions that it asks for on the
/// way. An event that the poller refuses changes nothing and asks for
/// nothing.
pub open spec fn run(state: ConsumerView, events: Seq<EventView>) -> (
    ConsumerView,
    Seq<ActionView>,
)
    decreases events.len(),
{
    if events.len() == 0 {
        (state, Seq::empty())
    } else {
        let (before, actions) = run(state, events.drop_last());
        match before.transition(events.last()) {
            Some((next, action)) => (next, actions.push(action)),
            None => (before, actions),
        }
    }
}

/// Whether an event is the answer to a request.
pub open spec fn is_response(event: EventView) -> bool {
    event is Responded || event is TransportFailed
}

/// The outcome that the answer to a request stands for.
pub open spec fn outcome_of(event: EventView) -> OutcomeView
    recommends
        is_response(event),
{
    match event {
        EventView::Responded { status } => outcome_of_status(status),
        EventView::TransportFailed { detail } => outcome_of_failure(detail),
        _ => arbitrary(),
    }
}

/// What the driver reports while it polls: for each answer in turn the
/// answer itself, then the end of the pause.
pub open spec fn rounds(responses: Seq<EventView>) -> Seq<EventView>
    decreases responses.len(),
{
    if responses.len() == 0 {
        Seq::empty()
    } else {
        rounds(responses.drop_last()).push(responses.last()).push(EventView::Done)
    }
}

/// Whether one of the actions is a request.
pub open spec fn has_request(actions: Seq<ActionView>) -> bool {
    exists|i: int| 0 <= i < actions.len() && (#[trigger] actions[i]) is Request
}

/// The run over one event is one step, where the poller takes the event.
pub proof fn lemma_run_one(state: ConsumerView, event: EventView)
    ensures
        run(state, seq![event]) == match state.transition(event) {
            Some((next, action)) => (next, seq![action]),
            None => (state, Seq::<ActionView>::empty()),
        },
{
    assert(seq![event].drop_last() =~= Seq::<EventView>::empty());
    assert(run(state, Seq::<EventView>::empty()) == (state, Seq::<ActionView>::empty()));
}

/// A run over two stretches of events is the run over the first, followed
/// from where it ends by the run over the second.
pub proof fn lemma_run_splits(state: ConsumerView, first: Seq<EventView>, second: Seq<EventView>)
    ensures
        run(state, first + second).0 == run(run(state, first).0, second).0,
        run(state, first + second).1 == run(state, first).1 + run(run(state, first).0, second).1,
    decreases second.len(),
{
    if second.len() > 0 {
        assert((first + second).drop_last() =~= first + second.drop_last());
        lemma_run_splits(state, first, second.drop_last());
        let (middle, begun) = run(state, first);
        let (before, continued) = run(middle, second.drop_last());
        if before.transition(second.last()) is Some {
            let action = before.transition(second.last())->Some_0.1;
            assert(begun + continued.push(action) =~= (begun + continued).push(action));
        }
    }
}

/// A poller that was just made is well formed.
pub proof fn lemma_created_is_well_formed(dirname: Seq<char>, filename: Seq<char>)
    ensures
        ConsumerView::created(dirname, filename).well_formed(),
{
}

/// Starting a poller leaves it well formed, whatever it was before.
pub proof fn lemma_start_keeps_well_formed(state: ConsumerView)
    ensures
        state.started().0.well_formed(),
{
}

/// Every step leaves a well-formed poller well formed.
pub proof fn lemma_step_keeps_well_formed(state: ConsumerView, event: EventView)
    requires
        state.well_formed(),
        state.transition(event) is Some,
    ensures
        state.transition(event)->Some_0.0.well_formed(),
{
}

/// Every run leaves a well-formed poller well formed.
pub proof fn lemma_run_keeps_well_formed(state: ConsumerView, events: Seq<EventView>)
    requires
        state.well_formed(),
    ensures
        run(state, events).0.well_formed(),
    decreases events.len(),
{
    if events.len() > 0 {
        lemma_run_keeps_well_formed(state, events.drop_last());
        let before = run(state, events.drop_last()).0;
        if before.transition(events.last()) is Some {
            lemma_step_keeps_well_formed(before, events.last());
        }
    }
}

/// Once startup has failed, the poller refuses every event.
pub proof fn lemma_failed_is_final(state: ConsumerView, events: Seq<EventView>)
    requires
        state.phase == Phase::Failed,
    ensures
        run(state, events) == (state, Seq::<ActionView>::empty()),
    decreases events.len(),
{
    if events.len() > 0 {
        lemma_failed_is_final(state, events.drop_last());
    }
}

/// A configuration without a `delay` key ends startup: the poller answers
/// the file's content with the order to stop, and whatever the driver
/// reports after that, it asks for nothing more, so for no request.
pub proof fn lemma_missing_delay_stops(
    state: ConsumerView,
    content: Option<Seq<char>>,
    later: Seq<EventView>,
)
    requires
        state.phase == Phase::Loading,
        loaded(content) is Ok,
        !loaded(content)->Ok_0.contains_key(DELAY_KEY@),
    ensures
        run(state, seq![EventView::FileRead { content }] + later).0.phase == Phase::Failed,
        run(state, seq![EventView::FileRead { content }] + later).1 == seq![
            ActionView::Stop { error: StartupErrorView::MissingDelay },
        ],
{
    let first = EventView::FileRead { content };
    let stopped = state.transition(first)->Some_0.0;
    lemma_run_splits(state, seq![first], later);
    lemma_run_one(state, first);
    lemma_failed_is_final(stopped, later);
}

/// No request is asked for under a configuration without a `delay` key.
pub proof fn lemma_request_needs_delay(state: ConsumerView, event: EventView)
    requires
        state.well_formed(),
        state.transition(event) is Some,
        state.transition(event)->Some_0.1 is Request,
    ensures
        state.transition(event)->Some_0.0.config.contains_key(DELAY_KEY@),
{
}

/// In no run is a request made under a configuration without a `delay` key:
/// once a well-formed poller has asked for a request, it polls, and its
/// configuration has the key.
pub proof fn lemma_no_request_without_delay(state: ConsumerView, events: Seq<EventView>)
    requires
        state.well_formed(),
    ensures
        has_request(run(state, events).1) ==> run(state, events).0.is_polling() && run(
            state,
            events,
        ).0.config.contains_key(DELAY_KEY@),
    decreases events.len(),
{
    if events.len() > 0 {
        lemma_no_request_without_delay(state, events.drop_last());
        lemma_run_keeps_well_formed(state, events.drop_last());
        let (before, earlier) = run(state, events.drop_last());
        match before.transition(events.last()) {
            Some((next, action)) => {
                lemma_step_keeps_well_formed(before, events.last());
                let actions = earlier.push(action);
                if has_request(actions) {
                    let i = choose|i: int|
                        0 <= i < actions.len() && (#[trigger] actions[i]) is Request;
                    assert(i < earlier.len() ==> earlier[i] is Request);
                }
            },
            None => {},
        }
    }
}

/// A `delay` key that gives no number does not end startup: the poller
/// takes the default delay of one second and announces what it found.
pub proof fn lemma_unreadable_delay_defaults(state: ConsumerView, content: Option<Seq<char>>)
    requires
        state.phase == Phase::Loading,
        loaded(content) is Ok,
        loaded(content)->Ok_0.contains_key(DELAY_KEY@),
        loaded(content)->Ok_0[DELAY_KEY@].len() == 0 || seconds_of(
            loaded(content)->Ok_0[DELAY_KEY@][0],
        ) is None,
    ensures
        state.transition(EventView::FileRead { content }) == Some(
            (
                ConsumerView {
                    phase: Phase::Announcing,
                    config: loaded(content)->Ok_0,
                    delay: DEFAULT_DELAY,
                    ..state
                },
                ActionView::Announce { delay: delay_setting(loaded(content)->Ok_0) },
            ),
        ),
        delay_setting(loaded(content)->Ok_0) is Empty || delay_setting(
            loaded(content)->Ok_0,
        ) is Unreadable,
{
}

/// With a `delay` key that gives no number and with addresses to poll, the
/// poller polls, and pauses one second after each request.
pub proof fn lemma_default_delay_paces_polling(
    state: ConsumerView,
    content: Option<Seq<char>>,
    responses: Seq<EventView>,
)
    requires
        state.phase == Phase::Loading,
        loaded(content) is Ok,
        loaded(content)->Ok_0.contains_key(DELAY_KEY@),
        loaded(content)->Ok_0[DELAY_KEY@].len() == 0 || seconds_of(
            loaded(content)->Ok_0[DELAY_KEY@][0],
        ) is None,
        loaded(content)->Ok_0.contains_key(TARGETS_KEY@),
        loaded(content)->Ok_0[TARGETS_KEY@].len() > 0,
        forall|k: int| 0 <= k < responses.len() ==> is_response(#[trigger] responses[k]),
    ensures
        ({
            let events = seq![EventView::FileRead { content }, EventView::Done] + rounds(responses);
            let (end, actions) = run(state, events);
            &&& end.phase == Phase::Requesting
            &&& end.delay == DEFAULT_DELAY
            &&& actions.len() == 2 + 2 * responses.len()
            &&& forall|k: int|
                0 <= k < responses.len() ==> (#[trigger] actions[2 + 2 * k]) is Report
                    && actions[2 + 2 * k]->pause == DEFAULT_DELAY
        }),
{
    let read = EventView::FileRead { content };
    let (announcing, announce) = state.transition(read)->Some_0;
    let rest = seq![EventView::Done] + rounds(responses);
    assert(seq![read, EventView::Done] + rounds(responses) =~= seq![read] + rest);
    lemma_run_one(state, read);
    lemma_run_splits(state, seq![read], rest);
    lemma_polling_from_announcement(announcing, responses);
    let later = run(announcing, rest).1;
    let actions = seq![announce] + later;
    assert forall|k: int| 0 <= k < responses.len() implies (#[trigger] actions[2 + 2 * k]) is Report
        && actions[2 + 2 * k]->pause == DEFAULT_DELAY by {
        assert(actions[2 + 2 * k] == later[1 + 2 * k]);
    }
}

/// Counting round and round over `n` positions: one step on from the
/// remainder of a count is the remainder of the count plus one.
pub proof fn lemma_next_in_round(count: nat, n: nat)
    requires
        n > 0,
    ensures
        (count + 1) % n == if count % n + 1 < n {
            count % n + 1
        } else {
            0
        },
{
    let q = (count as int) / (n as int);
    let r = (count as int) % (n as int);
    lemma_fundamental_div_mod(count as int, n as int);
    assert(count == q * n + r) by (nonlinear_arith)
        requires
            count == n * q + r,
    ;
    if r + 1 < n {
        lemma_fundamental_div_mod_converse((count + 1) as int, n as int, q, r + 1);
    } else {
        assert(count + 1 == (q + 1) * n + 0) by (nonlinear_arith)
            requires
                count == q * n + r,
                r + 1 == n,
        ;
        lemma_fundamental_div_mod_converse((count + 1) as int, n as int, q + 1, 0);
    }
}

/// While it polls, the poller goes round the configured addresses in their
/// order. From a poller that waits for the answer to its request, and for
/// any answers that the driver may bring, the poller reports on the address
/// that the cursor stood at, then asks for the one after it, and so on: the
/// request number `k` goes to the address number `(cursor + k) % n` of the
/// `n` configured ones. The outcome that it reports is that of the answer,
/// the pause is the configured delay, and the poller never stops.
pub proof fn lemma_round_robin(state: ConsumerView, responses: Seq<EventView>)
    requires
        state.phase == Phase::Requesting,
        state.current_target() is Some,
        forall|k: int| 0 <= k < responses.len() ==> is_response(#[trigger] responses[k]),
    ensures
        ({
            let (end, actions) = run(state, rounds(responses));
            let n = state.targets().len();
            &&& end == ConsumerView {
                cursor: (state.cursor + responses.len()) % n,
                ..state
            }
            &&& actions.len() == 2 * responses.len()
            &&& forall|k: int|
                0 <= k < responses.len() ==> #[trigger] actions[2 * k] == (ActionView::Report {
                    url: state.targets()[(state.cursor + k) % (n as int)],
                    outcome: outcome_of(responses[k]),
                    pause: state.delay,
                })
            &&& forall|k: int|
                0 <= k < responses.len() ==> #[trigger] actions[2 * k + 1] == (ActionView::Request {
                    url: state.targets()[(state.cursor + k + 1) % (n as int)],
                })
        }),
    decreases responses.len(),
{
    let n = state.targets().len();
    if responses.len() == 0 {
        lemma_small_mod(state.cursor, n);
    } else {
        let earlier = responses.drop_last();
        lemma_round_robin(state, earlier);
        // The last round: the answer is reported, then the pause ends.
        let events = rounds(responses);
        assert(events.drop_last().drop_last() =~= rounds(earlier));
        let (before, done) = run(state, rounds(earlier));
        let (reporting, report) = before.transition(responses.last())->Some_0;
        assert(run(state, events.drop_last()) == (reporting, done.push(report)));
        lemma_next_in_round(state.cursor + earlier.len(), n);
    }
}

/// From the announcement on, the poller asks for the first address, and
/// then goes round the addresses in their order for as long as the driver
/// brings answers: the report number `k` is on the address number `k % n`
/// of the `n` configured ones, and carries the outcome of the answer number
/// `k` and the delay that startup fixed.
pub proof fn lemma_polling_from_announcement(state: ConsumerView, responses: Seq<EventView>)
    requires
        state.phase == Phase::Announcing,
        state.targets().len() > 0,
        forall|k: int| 0 <= k < responses.len() ==> is_response(#[trigger] responses[k]),
    ensures
        ({
            let (end, actions) = run(state, seq![EventView::Done] + rounds(responses));
            let n = state.targets().len() as int;
            &&& end == ConsumerView {
                phase: Phase::Requesting,
                cursor: (responses.len() % state.targets().len()) as nat,
                ..state
            }
            &&& actions.len() == 1 + 2 * responses.len()
            &&& actions[0] == (ActionView::Request { url: state.targets()[0] })
            &&& forall|k: int|
                0 <= k < responses.len() ==> #[trigger] actions[1 + 2 * k] == (ActionView::Report {
                    url: state.targets()[k % n],
                    outcome: outcome_of(responses[k]),
                    pause: state.delay,
                })
            &&& forall|k: int|
                0 <= k < responses.len() ==> #[trigger] actions[2 + 2 * k] == (ActionView::Request {
                    url: state.targets()[(k + 1) % n],
                })
        }),
{
    let (first, request) = state.transition(EventView::Done)->Some_0;
    lemma_run_one(state, EventView::Done);
    lemma_run_splits(state, seq![EventView::Done], rounds(responses));
    lemma_round_robin(first, responses);
    let later = run(first, rounds(responses)).1;
    let actions = seq![request] + later;
    assert forall|k: int| 0 <= k < responses.len() implies #[trigger] actions[2 + 2 * k] == (
    ActionView::Request { url: state.targets()[(k + 1) % (state.targets().len() as int)] }) by {
        assert(actions[2 + 2 * k] == later[2 * k + 1]);
    }
    assert forall|k: int| 0 <= k < responses.len() implies #[trigger] actions[1 + 2 * k]
        == later[2 * k] by {}
}

/// In every full round the poller visits every address once, in the
/// configured order: whatever the answers, the report number `i` of the
/// round number `round` is on the address number `i`.
pub proof fn lemma_round_visits_each_once(
    state: ConsumerView,
    responses: Seq<EventView>,
    round: nat,
    i: nat,
)
    requires
        state.phase == Phase::Announcing,
        i < state.targets().len(),
        round * state.targets().len() + i < responses.len(),
        forall|k: int| 0 <= k < responses.len() ==> is_response(#[trigger] responses[k]),
    ensures
        ({
            let actions = run(state, seq![EventView::Done] + rounds(responses)).1;
            let k = (round * state.targets().len() + i) as int;
            actions[1 + 2 * k] == (ActionView::Report {
                url: state.targets()[i as int],
                outcome: outcome_of(responses[k]),
                pause: state.delay,
            })
        }),
{
    let n = state.targets().len();
    let k = round * n + i;
    lemma_polling_from_announcement(state, responses);
    lemma_fundamental_div_mod_converse(k as int, n as int, round as int, i as int);
}

/// A request that brings no response is reported as a network failure with
/// the transport's description, and polling goes on.
pub proof fn lemma_failure_is_reported(state: ConsumerView, detail: Seq<char>)
    requires
        state.phase == Phase::Requesting,
        state.current_target() is Some,
    ensures
        state.transition(EventView::TransportFailed { detail }) == Some(
            (
                ConsumerView { phase: Phase::Reporting, ..state },
                ActionView::Report {
                    url: state.current_target()->Some_0,
                    outcome: OutcomeView::NetworkFailure { detail },
                    pause: state.delay,
                },
            ),
        ),
{
}

/// A poller that polls goes on polling: whatever the driver reports, and
/// whatever the requests come to, it never orders the run to stop.
pub proof fn lemma_polling_never_stops(state: ConsumerView, events: Seq<EventView>)
    requires
        state.is_polling(),
        state.current_target() is Some,
    ensures
        run(state, events).0.is_polling(),
        run(state, events).0.current_target() is Some,
        forall|i: int|
            0 <= i < run(state, events).1.len() ==> !((#[trigger] run(state, events).1[i]) is Stop),
    decreases events.len(),
{
    if events.len() > 0 {
        lemma_polling_never_stops(state, events.drop_last());
    }
}

/// The outcome that the poller reports for an answer depends on the answer
/// alone: not on the address, not on the state of the poller, not on what
/// came before.
pub proof fn lemma_outcome_ignores_state(
    first: ConsumerView,
    second: ConsumerView,
    answer: EventView,
)
    requires
        first.phase == Phase::Requesting,
        second.phase == Phase::Requesting,
        first.current_target() is Some,
        second.current_target() is Some,
        is_response(answer),
    ensures
        first.transition(answer) is Some,
        second.transition(answer) is Some,
        first.transition(answer)->Some_0.1 is Report,
        second.transition(answer)->Some_0.1 is Report,
        first.transition(answer)->Some_0.1->outcome == outcome_of(answer),
        second.transition(answer)->Some_0.1->outcome == outcome_of(answer),
{
}

/// Polling an address again and again, with the same answer each time,
/// reports the same outcome each time.
pub proof fn lemma_same_answer_same_outcome(
    state: ConsumerView,
    responses: Seq<EventView>,
    j: int,
    k: int,
)
    requires
        state.phase == Phase::Requesting,
        state.current_target() is Some,
        forall|i: int| 0 <= i < responses.len() ==> is_response(#[trigger] responses[i]),
        0 <= j < responses.len(),
        0 <= k < responses.len(),
        responses[j] == responses[k],
    ensures
        run(state, rounds(responses)).1[2 * j] is Report,
        run(state, rounds(responses)).1[2 * k] is Report,
        run(state, rounds(responses)).1[2 * j]->outcome == run(
            state,
            rounds(responses),
        ).1[2 * k]->outcome,
{
    lemma_round_robin(state, responses);
}

/// The class of a response follows from its status code alone, whatever
/// reason phrase comes with it.
pub proof fn lemma_kind_follows_status(status: u16)
    ensures
        outcome_of_status(status).kind() == kind_of_status(status),
        outcome_of_status(status).status() == Some(status),
        500 <= status <= 599 <==> outcome_of_status(status).kind() == OutcomeKind::ServerError,
        400 <= status <= 499 <==> outcome_of_status(status).kind() == OutcomeKind::ClientError,
{
}

} // verus!
