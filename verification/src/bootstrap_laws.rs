//! What holds of every run of the worker process.

use crate::bootstrap::{
    awaiting, connection_name, ended_well, reply_success, shutdown_text, split_commas, starting,
    ConfigView, ProcessActionView, ProcessEvent, ProcessStateView,
};
use crate::consumer::LoopFailure;
use crate::file_processors::Format;
use crate::supervisor::QueueSetupFailure;
use vstd::prelude::*;

verus! {

/// The pieces put together again, with a comma between each two.
pub open spec fn join_commas(pieces: Seq<Seq<char>>) -> Seq<char>
    decreases pieces.len(),
{
    if pieces.len() == 0 {
        Seq::empty()
    } else if pieces.len() == 1 {
        pieces[0]
    } else {
        join_commas(pieces.drop_last()) + seq![','] + pieces.last()
    }
}

/// A list is cut at its commas and nowhere else: there is at least one piece,
/// no piece holds a comma, and the pieces with commas between them are the
/// list again.
pub proof fn lemma_split_commas_cuts_at_commas(text: Seq<char>)
    ensures
        split_commas(text).len() >= 1,
        join_commas(split_commas(text)) == text,
        forall|i: int, j: int|
            0 <= i < split_commas(text).len() && 0 <= j < split_commas(text)[i].len()
                ==> #[trigger] split_commas(text)[i][j] != ',',
    decreases text.len(),
{
    if text.len() > 0 {
        let pieces = split_commas(text);
        let shorter = text.drop_last();
        let before = split_commas(shorter);
        lemma_split_commas_cuts_at_commas(shorter);
        assert(text =~= shorter.push(text.last()));
        if text.last() == ',' {
            assert(pieces.drop_last() =~= before);
        } else if before.len() > 1 {
            assert(pieces.drop_last() =~= before.drop_last());
        }
    }
}

/// Where the process stands after `events`, and the actions it asked for on
/// the way, one for each event.
pub open spec fn run(state: ProcessStateView, events: Seq<ProcessEvent>) -> (
    ProcessStateView,
    Seq<ProcessActionView>,
)
    decreases events.len(),
{
    if events.len() == 0 {
        (state, Seq::empty())
    } else {
        let (before, actions) = run(state, events.drop_last());
        let (last, action) = before.step(events.last());
        (last, actions.push(action))
    }
}

/// The events of `count` consumers that start one after the other.
pub open spec fn all_start(count: nat) -> Seq<ProcessEvent> {
    Seq::new(count, |i: int| ProcessEvent::ConsumerStarted)
}

/// The events of consumers that end, one after the other, with `outcomes`.
pub open spec fn all_end(outcomes: Seq<Result<Result<(), LoopFailure>, QueueSetupFailure>>) -> Seq<
    ProcessEvent,
> {
    outcomes.map_values(
        |outcome: Result<Result<(), LoopFailure>, QueueSetupFailure>|
            ProcessEvent::ConsumerEnded { outcome },
    )
}

/// Whether one of the outcomes is a failure.
pub open spec fn any_failed(outcomes: Seq<Result<Result<(), LoopFailure>, QueueSetupFailure>>) -> bool {
    exists|i: int| 0 <= i < outcomes.len() && !ended_well(#[trigger] outcomes[i])
}

proof fn lemma_run_append(state: ProcessStateView, events: Seq<ProcessEvent>, more: Seq<ProcessEvent>)
    ensures
        run(state, events + more) == (
            run(run(state, events).0, more).0,
            run(state, events).1 + run(run(state, events).0, more).1,
        ),
    decreases more.len(),
{
    if more.len() > 0 {
        assert((events + more).drop_last() =~= events + more.drop_last());
        lemma_run_append(state, events, more.drop_last());
    }
}

proof fn lemma_run_single(state: ProcessStateView, event: ProcessEvent)
    ensures
        run(state, seq![event]) == (state.step(event).0, seq![state.step(event).1]),
{
    assert(run(state, seq![event].drop_last()) == (state, Seq::<ProcessActionView>::empty()));
}

/// A process that has ended stays as it is: every further event is answered
/// with the status it ended with.
pub proof fn lemma_ended_process_stays_ended(status: i32, events: Seq<ProcessEvent>)
    ensures
        run(ProcessStateView::Exited { status }, events).0 == (ProcessStateView::Exited { status }),
        run(ProcessStateView::Exited { status }, events).1.len() == events.len(),
        forall|i: int|
            0 <= i < events.len() ==> #[trigger] run(
                ProcessStateView::Exited { status },
                events,
            ).1[i] == (ProcessActionView::Exit { status }),
    decreases events.len(),
{
    if events.len() > 0 {
        lemma_ended_process_stays_ended(status, events.drop_last());
    }
}

/// A broker that cannot be reached ends the process with status 1 before
/// anything else is done: the process asks for the connection, and every
/// answer but that the connection stands makes it exit. No consumer is ever
/// started.
pub proof fn lemma_unreachable_broker_ends_the_process(
    config: ConfigView,
    answer: ProcessEvent,
    later: Seq<ProcessEvent>,
)
    requires
        answer != ProcessEvent::Connected,
    ensures
        ProcessStateView::start(config).1 == (ProcessActionView::Connect {
            address: config.address,
            connection_name: connection_name(),
        }),
        run(ProcessStateView::start(config).0, seq![answer] + later).0 == (
        ProcessStateView::Exited { status: 1 }),
        run(ProcessStateView::start(config).0, seq![answer] + later).1.len() == later.len() + 1,
        forall|i: int|
            0 <= i <= later.len() ==> #[trigger] run(
                ProcessStateView::start(config).0,
                seq![answer] + later,
            ).1[i] == (ProcessActionView::Exit { status: 1 }),
{
    let begun = ProcessStateView::start(config).0;
    lemma_run_single(begun, answer);
    lemma_run_append(begun, seq![answer], later);
    lemma_ended_process_stays_ended(1, later);
}

/// With `count` consumers started and none failed to start, the process
/// has asked to start each of them in the order of the configuration, on the
/// queue of its format, and goes on with the next.
proof fn lemma_starts_in_order(formats: Seq<Format>, count: nat)
    requires
        count <= formats.len(),
    ensures
        run(starting(formats, 0).0, all_start(count)).0 == starting(formats, count).0,
        run(starting(formats, 0).0, all_start(count)).1.len() == count,
        forall|i: int|
            0 <= i < count ==> #[trigger] run(starting(formats, 0).0, all_start(count)).1[i]
                == starting(formats, (i + 1) as nat).1,
    decreases count,
{
    if count > 0 {
        let before = (count - 1) as nat;
        assert(all_start(count).drop_last() =~= all_start(before));
        lemma_starts_in_order(formats, before);
    }
}

/// Once the connection stands, the process starts one consumer for each
/// format of its configuration, in order and on the queue of the format, and
/// then waits for the first of them to end; with no format it closes the
/// connection at once.
pub proof fn lemma_starts_a_consumer_for_each_format(config: ConfigView)
    ensures
        ({
            let events = seq![ProcessEvent::Connected] + all_start(config.formats.len());
            let (last, actions) = run(ProcessStateView::start(config).0, events);
            &&& actions.len() == config.formats.len() + 1
            &&& forall|i: int|
                0 <= i < config.formats.len() ==> #[trigger] actions[i] == (
                ProcessActionView::StartConsumer {
                    format: config.formats[i],
                    queue: config.formats[i].queue_text(),
                })
            &&& (last, actions.last()) == awaiting(config.formats.len(), 0, false)
        }),
{
    let begun = ProcessStateView::start(config).0;
    let count = config.formats.len();
    lemma_run_single(begun, ProcessEvent::Connected);
    lemma_run_append(begun, seq![ProcessEvent::Connected], all_start(count));
    lemma_starts_in_order(config.formats, count);
}

/// With `outcomes.len()` consumers seen to their end, the process waits for
/// the next, or closes the connection if there is none; it remembers whether
/// one of them failed.
proof fn lemma_waits_in_order(
    consumers: nat,
    outcomes: Seq<Result<Result<(), LoopFailure>, QueueSetupFailure>>,
)
    requires
        0 < consumers,
        outcomes.len() <= consumers,
    ensures
        run(awaiting(consumers, 0, false).0, all_end(outcomes)).0 == awaiting(
            consumers,
            outcomes.len(),
            any_failed(outcomes),
        ).0,
        run(awaiting(consumers, 0, false).0, all_end(outcomes)).1.len() == outcomes.len(),
        outcomes.len() > 0 ==> run(awaiting(consumers, 0, false).0, all_end(outcomes)).1.last()
            == awaiting(consumers, outcomes.len(), any_failed(outcomes)).1,
    decreases outcomes.len(),
{
    if outcomes.len() > 0 {
        let before = outcomes.drop_last();
        assert(all_end(outcomes).drop_last() =~= all_end(before));
        lemma_waits_in_order(consumers, before);
        if any_failed(outcomes) {
            let i = choose|i: int| 0 <= i < outcomes.len() && !ended_well(#[trigger] outcomes[i]);
            if i < before.len() {
                assert(!ended_well(before[i]));
            }
        }
    }
}

/// A process whose consumers have all started and all ended closes the
/// connection in the orderly way and exits, whatever the answer to the close
/// is. The status is 0 if every consumer was set up and ran until its stream
/// of messages ended, and 1 if any of them failed.
pub proof fn lemma_exit_status_tells_of_failures(
    config: ConfigView,
    outcomes: Seq<Result<Result<(), LoopFailure>, QueueSetupFailure>>,
    closed: ProcessEvent,
)
    requires
        outcomes.len() == config.formats.len(),
    ensures
        ({
            let events = seq![ProcessEvent::Connected] + all_start(config.formats.len()) + all_end(
                outcomes,
            ) + seq![closed];
            let status = if any_failed(outcomes) {
                1i32
            } else {
                0i32
            };
            let (last, actions) = run(ProcessStateView::start(config).0, events);
            &&& last == (ProcessStateView::Exited { status })
            &&& actions.len() == 2 * config.formats.len() + 2
            &&& actions[actions.len() - 2] == (ProcessActionView::Close {
                reply_code: reply_success(),
                reply_text: shutdown_text(),
            })
            &&& actions.last() == (ProcessActionView::Exit { status })
        }),
{
    let begun = ProcessStateView::start(config).0;
    let count = config.formats.len();
    let started = seq![ProcessEvent::Connected] + all_start(count);
    lemma_starts_a_consumer_for_each_format(config);
    lemma_run_append(begun, started, all_end(outcomes));
    let waiting = run(begun, started).0;
    if count > 0 {
        lemma_waits_in_order(count, outcomes);
    }
    let closing = run(waiting, all_end(outcomes)).0;
    lemma_run_append(begun, started + all_end(outcomes), seq![closed]);
    lemma_run_single(closing, closed);
}

} // verus!
