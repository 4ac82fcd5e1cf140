//! What holds of every supervisor, whatever the outside world answers.

use crate::consumer::{ConsumerActionView, ConsumerEventView, ConsumerStateView, LoopFailure};
use crate::consumer_laws;
use crate::file_processors::FileProcessor;
use crate::supervisor::{
    ChannelRole, QueueSetupFailure, SupervisorActionView, SupervisorEventView, SupervisorStateView,
};
use crate::task::response_queue;
use vstd::prelude::*;

verus! {

/// Where a supervisor stands after `events`, and the actions it asked for on
/// the way, one for each event.
pub open spec fn run<P: FileProcessor>(
    processor: P,
    scratch_dir: Seq<char>,
    state: SupervisorStateView,
    events: Seq<SupervisorEventView>,
) -> (SupervisorStateView, Seq<SupervisorActionView>)
    decreases events.len(),
{
    if events.len() == 0 {
        (state, Seq::empty())
    } else {
        let (next, action) = state.step(processor, scratch_dir, events.first());
        let (last, actions) = run(processor, scratch_dir, next, events.drop_first());
        (last, seq![action] + actions)
    }
}

/// The events of a setup in which the broker takes both queues and the
/// subscription.
pub open spec fn set_up() -> Seq<SupervisorEventView> {
    seq![
        SupervisorEventView::QueueDeclared,
        SupervisorEventView::QueueDeclared,
        SupervisorEventView::Subscribed,
    ]
}

/// The events of a consumer loop as the supervisor is told them.
pub open spec fn told(events: Seq<ConsumerEventView>) -> Seq<SupervisorEventView> {
    events.map_values(|event: ConsumerEventView| SupervisorEventView::Consumer { event })
}

/// The actions of a consumer loop as the supervisor passes them on.
pub open spec fn passed_on(actions: Seq<ConsumerActionView>) -> Seq<SupervisorActionView> {
    actions.map_values(|action: ConsumerActionView| SupervisorActionView::Consumer { action })
}

/// A supervisor that has ended stays as it is: every further event is
/// answered with the outcome it ended with.
pub proof fn lemma_ended_supervisor_stays_ended<P: FileProcessor>(
    processor: P,
    scratch_dir: Seq<char>,
    outcome: Result<Result<(), LoopFailure>, QueueSetupFailure>,
    events: Seq<SupervisorEventView>,
)
    ensures
        run(processor, scratch_dir, SupervisorStateView::Finished { outcome }, events).0 == (
        SupervisorStateView::Finished { outcome }),
        run(processor, scratch_dir, SupervisorStateView::Finished { outcome }, events).1.len()
            == events.len(),
        forall|i: int|
            0 <= i < events.len() ==> #[trigger] run(
                processor,
                scratch_dir,
                SupervisorStateView::Finished { outcome },
                events,
            ).1[i] == (SupervisorActionView::Finish { outcome }),
    decreases events.len(),
{
    if events.len() > 0 {
        lemma_ended_supervisor_stays_ended(processor, scratch_dir, outcome, events.drop_first());
    }
}

proof fn lemma_run_len<P: FileProcessor>(
    processor: P,
    scratch_dir: Seq<char>,
    state: SupervisorStateView,
    events: Seq<SupervisorEventView>,
)
    ensures
        run(processor, scratch_dir, state, events).1.len() == events.len(),
    decreases events.len(),
{
    if events.len() > 0 {
        lemma_run_len(
            processor,
            scratch_dir,
            state.step(processor, scratch_dir, events.first()).0,
            events.drop_first(),
        );
    }
}

proof fn lemma_run_one<P: FileProcessor>(
    processor: P,
    scratch_dir: Seq<char>,
    state: SupervisorStateView,
    events: Seq<SupervisorEventView>,
)
    requires
        events.len() > 0,
    ensures
        run(processor, scratch_dir, state, events) == (
            run(
                processor,
                scratch_dir,
                state.step(processor, scratch_dir, events[0]).0,
                events.drop_first(),
            ).0,
            seq![state.step(processor, scratch_dir, events[0]).1] + run(
                processor,
                scratch_dir,
                state.step(processor, scratch_dir, events[0]).0,
                events.drop_first(),
            ).1,
        ),
{
}

/// A setup that the broker takes goes in this order: the queue of the format
/// is declared on the consuming channel, the response queue on the publishing
/// channel, both durable; then the supervisor subscribes to its queue under
/// its tag, and its loop fetches the first message.
pub proof fn lemma_setup_goes_in_order<P: FileProcessor>(
    processor: P,
    scratch_dir: Seq<char>,
    queue: Seq<char>,
    consumer_tag: Seq<char>,
)
    ensures
        SupervisorStateView::start(queue, consumer_tag).1 == (SupervisorActionView::DeclareQueue {
            channel: ChannelRole::Consuming,
            queue,
            durable: true,
        }),
        run(processor, scratch_dir, SupervisorStateView::start(queue, consumer_tag).0, set_up())
            == (
            SupervisorStateView::Running { consumer: ConsumerStateView::Fetching },
            seq![
                SupervisorActionView::DeclareQueue {
                    channel: ChannelRole::Publishing,
                    queue: response_queue(),
                    durable: true,
                },
                SupervisorActionView::Subscribe { queue, consumer_tag },
                SupervisorActionView::Consumer { action: ConsumerActionView::Fetch },
            ],
        ),
{
    let e0 = set_up();
    let e1 = e0.drop_first();
    let e2 = e1.drop_first();
    let s0 = SupervisorStateView::start(queue, consumer_tag).0;
    let (s1, a1) = s0.step(processor, scratch_dir, e0[0]);
    let (s2, a2) = s1.step(processor, scratch_dir, e1[0]);
    let (s3, a3) = s2.step(processor, scratch_dir, e2[0]);
    assert(run(processor, scratch_dir, s3, e2.drop_first()).1 =~= Seq::<
        SupervisorActionView,
    >::empty());
    assert(run(processor, scratch_dir, s2, e2).1 =~= seq![a3]);
    assert(run(processor, scratch_dir, s1, e1).1 =~= seq![a2, a3]);
    assert(run(processor, scratch_dir, s0, e0).1 =~= seq![a1, a2, a3]);
}

/// A supervisor starts its loop only after a setup that the broker took: an
/// action of the consumer loop is never among the first two, and is never
/// asked for unless the first three events are those of such a setup. After
/// three events of any other kind the supervisor has ended with the failure
/// of the setup.
pub proof fn lemma_loop_starts_only_after_setup<P: FileProcessor>(
    processor: P,
    scratch_dir: Seq<char>,
    queue: Seq<char>,
    consumer_tag: Seq<char>,
    events: Seq<SupervisorEventView>,
)
    ensures
        forall|i: int|
            0 <= i < events.len() && #[trigger] run(
                processor,
                scratch_dir,
                SupervisorStateView::start(queue, consumer_tag).0,
                events,
            ).1[i] is Consumer ==> i >= 2 && events.take(3) == set_up(),
        events.len() >= 3 && events.take(3) != set_up() ==> run(
            processor,
            scratch_dir,
            SupervisorStateView::start(queue, consumer_tag).0,
            events,
        ).0 == (SupervisorStateView::Finished { outcome: Err(QueueSetupFailure {  }) }),
{
    let failure = Err(QueueSetupFailure {  });
    let e1 = events.drop_first();
    let e2 = e1.drop_first();
    let e3 = e2.drop_first();
    let s0 = SupervisorStateView::start(queue, consumer_tag).0;
    let s1 = s0.step(processor, scratch_dir, events[0]).0;
    let s2 = s1.step(processor, scratch_dir, e1[0]).0;
    let s3 = s2.step(processor, scratch_dir, e2[0]).0;
    let actions = run(processor, scratch_dir, s0, events).1;
    let after_one = run(processor, scratch_dir, s1, e1).1;
    let after_two = run(processor, scratch_dir, s2, e2).1;
    let after_three = run(processor, scratch_dir, s3, e3).1;
    if events.len() >= 1 {
        lemma_run_one(processor, scratch_dir, s0, events);
        lemma_run_len(processor, scratch_dir, s1, e1);
    }
    if events.len() >= 2 {
        lemma_run_one(processor, scratch_dir, s1, e1);
        lemma_run_len(processor, scratch_dir, s2, e2);
    }
    if events.len() >= 3 {
        lemma_run_one(processor, scratch_dir, s2, e2);
        lemma_run_len(processor, scratch_dir, s3, e3);
        assert(events.take(3) =~= seq![events[0], e1[0], e2[0]]);
        lemma_ended_supervisor_stays_ended(processor, scratch_dir, failure, e1);
        lemma_ended_supervisor_stays_ended(processor, scratch_dir, failure, e2);
        lemma_ended_supervisor_stays_ended(processor, scratch_dir, failure, e3);
    }
    assert forall|i: int| 0 <= i < events.len() && #[trigger] actions[i] is Consumer implies i >= 2
        && events.take(3) == set_up() by {
        if i >= 1 {
            assert(actions[i] == after_one[i - 1]);
        }
        if i >= 2 {
            assert(after_one[i - 1] == after_two[i - 2]);
        }
        if i >= 3 {
            assert(after_two[i - 2] == after_three[i - 3]);
        }
    }
}

/// While its loop runs, a supervisor does what the loop asks for and nothing
/// else.
pub proof fn lemma_supervisor_follows_loop<P: FileProcessor>(
    processor: P,
    scratch_dir: Seq<char>,
    consumer: ConsumerStateView,
    events: Seq<ConsumerEventView>,
)
    requires
        !(consumer_laws::run(processor, scratch_dir, consumer, events).0 is Stopped),
    ensures
        run(processor, scratch_dir, SupervisorStateView::Running { consumer }, told(events)) == (
            SupervisorStateView::Running {
                consumer: consumer_laws::run(processor, scratch_dir, consumer, events).0,
            },
            passed_on(consumer_laws::run(processor, scratch_dir, consumer, events).1),
        ),
    decreases events.len(),
{
    if events.len() > 0 {
        let next = consumer.step(processor, scratch_dir, events.first()).0;
        let rest = events.drop_first();
        if let ConsumerStateView::Stopped { result } = next {
            consumer_laws::lemma_stopped_loop_stays_stopped(processor, scratch_dir, result, rest);
        }
        lemma_supervisor_follows_loop(processor, scratch_dir, next, rest);
        assert(told(events).drop_first() =~= told(rest));
    }
}

/// When an event stops the loop, the supervisor ends with the loop's result.
pub proof fn lemma_stopped_loop_ends_supervisor<P: FileProcessor>(
    processor: P,
    scratch_dir: Seq<char>,
    consumer: ConsumerStateView,
    event: ConsumerEventView,
    result: Result<(), LoopFailure>,
)
    requires
        consumer.step(processor, scratch_dir, event).0 == (ConsumerStateView::Stopped { result }),
    ensures
        (SupervisorStateView::Running { consumer }).step(
            processor,
            scratch_dir,
            SupervisorEventView::Consumer { event },
        ) == (
            SupervisorStateView::Finished { outcome: Ok(result) },
            SupervisorActionView::Finish { outcome: Ok(result) },
        ),
{
}

} // verus!
