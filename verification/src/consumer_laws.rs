//! What holds of every consumer loop, whatever the outside world answers.

use crate::consumer::{
    ConsumerActionView, ConsumerEventView, ConsumerStateView, LoopFailure,
};
use crate::file_processors::FileProcessor;
use crate::json_messages::{MalformedMessage, TaskRequest, TaskRequestView};
use crate::task::{
    scratch_input, scratch_output, TaskActionView, TaskEventView, TaskFailure, TaskStateView,
};
use crate::task_laws;
use vstd::prelude::*;

verus! {

/// Where a loop stands after `events`, and the actions it asked for on the
/// way, one for each event.
pub open spec fn run<P: FileProcessor>(
    processor: P,
    scratch_dir: Seq<char>,
    state: ConsumerStateView,
    events: Seq<ConsumerEventView>,
) -> (ConsumerStateView, Seq<ConsumerActionView>)
    decreases events.len(),
{
    if events.len() == 0 {
        (state, Seq::empty())
    } else {
        let (next, action) = state.step(processor, scratch_dir, events.first());
        let (last, actions) = run(processor, scratch_dir, next, events.drop_first());
        (last, seq![action] + actions)
    }
}

/// How many messages the loop takes up in a run: the deliveries that reach it
/// while it waits for one.
pub open spec fn taken<P: FileProcessor>(
    processor: P,
    scratch_dir: Seq<char>,
    state: ConsumerStateView,
    events: Seq<ConsumerEventView>,
) -> nat
    decreases events.len(),
{
    if events.len() == 0 {
        0
    } else {
        taken(
            processor,
            scratch_dir,
            state.step(processor, scratch_dir, events.first()).0,
            events.drop_first(),
        ) + if state is Fetching && events.first() is Delivered {
            1nat
        } else {
            0nat
        }
    }
}

/// How many of the actions acknowledge a message.
pub open spec fn acknowledgments(actions: Seq<ConsumerActionView>) -> nat
    decreases actions.len(),
{
    if actions.len() == 0 {
        0
    } else {
        acknowledgments(actions.drop_first()) + if actions.first() is Acknowledge {
            1nat
        } else {
            0nat
        }
    }
}

/// The number of messages in hand: one while a job is under way.
pub open spec fn in_hand(state: ConsumerStateView) -> nat {
    if state is Handling {
        1
    } else {
        0
    }
}

/// The events of a job as the loop is told them.
pub open spec fn told(events: Seq<TaskEventView>) -> Seq<ConsumerEventView> {
    events.map_values(|event: TaskEventView| ConsumerEventView::Task { event })
}

/// The actions of a job as the loop passes them on.
pub open spec fn passed_on(actions: Seq<TaskActionView>) -> Seq<ConsumerActionView> {
    actions.map_values(|action: TaskActionView| ConsumerActionView::Task { action })
}

/// The events of a message whose job `last` ends: the delivery, the events of
/// the job, and the acknowledgment.
pub open spec fn handled(raw: Seq<u8>, events: Seq<TaskEventView>, last: TaskEventView) -> Seq<
    ConsumerEventView,
> {
    seq![ConsumerEventView::Delivered { payload: raw }] + told(events) + seq![
        ConsumerEventView::Task { event: last },
        ConsumerEventView::Acknowledged,
    ]
}

proof fn lemma_acknowledgments_first(first: ConsumerActionView, rest: Seq<ConsumerActionView>)
    ensures
        acknowledgments(seq![first] + rest) == acknowledgments(rest) + if first is Acknowledge {
            1nat
        } else {
            0nat
        },
{
    assert((seq![first] + rest).drop_first() =~= rest);
}

/// From any state on, the messages taken up and the one in hand at the start
/// are the messages acknowledged and the one in hand at the end.
proof fn lemma_acknowledged_from<P: FileProcessor>(
    processor: P,
    scratch_dir: Seq<char>,
    state: ConsumerStateView,
    events: Seq<ConsumerEventView>,
)
    ensures
        taken(processor, scratch_dir, state, events) + in_hand(state) == acknowledgments(
            run(processor, scratch_dir, state, events).1,
        ) + in_hand(run(processor, scratch_dir, state, events).0),
    decreases events.len(),
{
    if events.len() > 0 {
        let (next, action) = state.step(processor, scratch_dir, events.first());
        let rest = events.drop_first();
        lemma_acknowledged_from(processor, scratch_dir, next, rest);
        lemma_acknowledgments_first(action, run(processor, scratch_dir, next, rest).1);
    }
}

/// Every message that a loop takes up is acknowledged, however its job ends:
/// at any moment the loop has asked for as many acknowledgments as it has
/// taken up messages, but for the one whose job is still under way.
pub proof fn lemma_every_message_is_acknowledged<P: FileProcessor>(
    processor: P,
    scratch_dir: Seq<char>,
    events: Seq<ConsumerEventView>,
)
    ensures
        taken(processor, scratch_dir, ConsumerStateView::Fetching, events) == acknowledgments(
            run(processor, scratch_dir, ConsumerStateView::Fetching, events).1,
        ) + in_hand(run(processor, scratch_dir, ConsumerStateView::Fetching, events).0),
{
    lemma_acknowledged_from(processor, scratch_dir, ConsumerStateView::Fetching, events);
}

/// A loop that has stopped stays stopped: every further event is answered
/// with the result it stopped with.
pub proof fn lemma_stopped_loop_stays_stopped<P: FileProcessor>(
    processor: P,
    scratch_dir: Seq<char>,
    result: Result<(), LoopFailure>,
    events: Seq<ConsumerEventView>,
)
    ensures
        run(processor, scratch_dir, ConsumerStateView::Stopped { result }, events).0 == (
        ConsumerStateView::Stopped { result }),
        run(processor, scratch_dir, ConsumerStateView::Stopped { result }, events).1.len()
            == events.len(),
        forall|i: int|
            0 <= i < events.len() ==> #[trigger] run(
                processor,
                scratch_dir,
                ConsumerStateView::Stopped { result },
                events,
            ).1[i] == (ConsumerActionView::Stop { result }),
    decreases events.len(),
{
    if events.len() > 0 {
        lemma_stopped_loop_stays_stopped(processor, scratch_dir, result, events.drop_first());
    }
}

/// While a job is under way the loop does what the job asks for and nothing
/// else.
proof fn lemma_loop_follows_task<P: FileProcessor>(
    processor: P,
    scratch_dir: Seq<char>,
    task: TaskStateView,
    events: Seq<TaskEventView>,
)
    requires
        !(task_laws::run(task, events).0 is Finished),
    ensures
        run(processor, scratch_dir, ConsumerStateView::Handling { task }, told(events)) == (
            ConsumerStateView::Handling { task: task_laws::run(task, events).0 },
            passed_on(task_laws::run(task, events).1),
        ),
    decreases events.len(),
{
    if events.len() > 0 {
        let next = task.step(events.first()).0;
        let rest = events.drop_first();
        if let TaskStateView::Finished { result } = next {
            task_laws::lemma_ended_job_stays_ended(result, rest);
        }
        lemma_loop_follows_task(processor, scratch_dir, next, rest);
        assert(told(events).drop_first() =~= told(rest));
    }
}

proof fn lemma_run_append<P: FileProcessor>(
    processor: P,
    scratch_dir: Seq<char>,
    state: ConsumerStateView,
    events: Seq<ConsumerEventView>,
    more: Seq<ConsumerEventView>,
)
    ensures
        run(processor, scratch_dir, state, events + more) == (
            run(
                processor,
                scratch_dir,
                run(processor, scratch_dir, state, events).0,
                more,
            ).0,
            run(processor, scratch_dir, state, events).1 + run(
                processor,
                scratch_dir,
                run(processor, scratch_dir, state, events).0,
                more,
            ).1,
        ),
    decreases events.len(),
{
    if events.len() > 0 {
        let next = state.step(processor, scratch_dir, events.first()).0;
        assert((events + more).drop_first() =~= events.drop_first() + more);
        lemma_run_append(processor, scratch_dir, next, events.drop_first(), more);
    }
}

/// A message whose job is still under way after `events` has had the loop do,
/// in order, what the job asked for, and nothing else.
pub proof fn lemma_loop_follows_job<P: FileProcessor>(
    processor: P,
    scratch_dir: Seq<char>,
    raw: Seq<u8>,
    events: Seq<TaskEventView>,
)
    requires
        !(task_laws::job(processor, scratch_dir, raw, events).0 is Finished),
    ensures
        run(
            processor,
            scratch_dir,
            ConsumerStateView::Fetching,
            seq![ConsumerEventView::Delivered { payload: raw }] + told(events),
        ) == (
            ConsumerStateView::Handling {
                task: task_laws::job(processor, scratch_dir, raw, events).0,
            },
            passed_on(task_laws::job(processor, scratch_dir, raw, events).1),
        ),
{
    let delivery = seq![ConsumerEventView::Delivered { payload: raw }];
    let begun = TaskStateView::start(processor, scratch_dir, raw).0;
    if let TaskStateView::Finished { result } = begun {
        task_laws::lemma_ended_job_stays_ended(result, events);
    }
    lemma_loop_follows_task(processor, scratch_dir, begun, events);
    lemma_run_append(processor, scratch_dir, ConsumerStateView::Fetching, delivery, told(events));
    let handling = ConsumerStateView::Handling { task: begun };
    assert(run(processor, scratch_dir, handling, delivery.drop_first()) == (
        handling,
        Seq::<ConsumerActionView>::empty(),
    ));
}

/// When the event `last` ends the job of a message, the loop has done what
/// the job asked for up to then, asks for the acknowledgment of the message
/// with the job's result, whatever that is, and fetches the next message once
/// the acknowledgment is through.
pub proof fn lemma_ended_job_is_acknowledged<P: FileProcessor>(
    processor: P,
    scratch_dir: Seq<char>,
    raw: Seq<u8>,
    events: Seq<TaskEventView>,
    last: TaskEventView,
    result: Result<(), TaskFailure>,
)
    requires
        !(task_laws::job(processor, scratch_dir, raw, events).0 is Finished),
        task_laws::job(processor, scratch_dir, raw, events).0.step(last).0 == (
        TaskStateView::Finished { result }),
    ensures
        run(processor, scratch_dir, ConsumerStateView::Fetching, handled(raw, events, last)) == (
            ConsumerStateView::Fetching,
            passed_on(task_laws::job(processor, scratch_dir, raw, events).1) + seq![
                ConsumerActionView::Acknowledge { outcome: result },
                ConsumerActionView::Fetch,
            ],
        ),
{
    let before = seq![ConsumerEventView::Delivered { payload: raw }] + told(events);
    let after = seq![
        ConsumerEventView::Task { event: last },
        ConsumerEventView::Acknowledged,
    ];
    lemma_loop_follows_job(processor, scratch_dir, raw, events);
    lemma_run_append(processor, scratch_dir, ConsumerStateView::Fetching, before, after);
    let rest = after.drop_first();
    assert(run(processor, scratch_dir, ConsumerStateView::Fetching, rest.drop_first()) == (
        ConsumerStateView::Fetching,
        Seq::<ConsumerActionView>::empty(),
    ));
    assert(run(processor, scratch_dir, ConsumerStateView::Acknowledging, rest) == (
        ConsumerStateView::Fetching,
        seq![ConsumerActionView::Fetch] + Seq::<ConsumerActionView>::empty(),
    ));
}

/// Two messages in a row are handled one after the other: the loop does what
/// the first job asks for, acknowledges it, fetches, and only then does what
/// the second job asks for. If their requests carry different identifiers, no
/// scratch file that the first job touches is touched by the second.
pub proof fn lemma_jobs_in_a_row_do_not_interfere<P: FileProcessor>(
    processor: P,
    scratch_dir: Seq<char>,
    one: (Seq<u8>, TaskRequestView, Seq<TaskEventView>),
    last: TaskEventView,
    result: Result<(), TaskFailure>,
    other: (Seq<u8>, TaskRequestView, Seq<TaskEventView>),
)
    requires
        TaskRequest::decoding(one.0) == Ok::<TaskRequestView, MalformedMessage>(one.1),
        TaskRequest::decoding(other.0) == Ok::<TaskRequestView, MalformedMessage>(other.1),
        one.1.variant_id != other.1.variant_id,
        !(task_laws::job(processor, scratch_dir, one.0, one.2).0 is Finished),
        task_laws::job(processor, scratch_dir, one.0, one.2).0.step(last).0 == (
        TaskStateView::Finished { result }),
        !(task_laws::job(processor, scratch_dir, other.0, other.2).0 is Finished),
    ensures
        run(
            processor,
            scratch_dir,
            ConsumerStateView::Fetching,
            handled(one.0, one.2, last) + (seq![ConsumerEventView::Delivered { payload: other.0 }]
                + told(other.2)),
        ) == (
            ConsumerStateView::Handling {
                task: task_laws::job(processor, scratch_dir, other.0, other.2).0,
            },
            passed_on(task_laws::job(processor, scratch_dir, one.0, one.2).1) + seq![
                ConsumerActionView::Acknowledge { outcome: result },
                ConsumerActionView::Fetch,
            ] + passed_on(task_laws::job(processor, scratch_dir, other.0, other.2).1),
        ),
        forall|i: int, j: int|
            #![trigger
                task_laws::job(processor, scratch_dir, one.0, one.2).1[i],
                task_laws::job(processor, scratch_dir, other.0, other.2).1[j]
            ]
            0 <= i <= one.2.len() && 0 <= j <= other.2.len() && task_laws::touched(
                task_laws::job(processor, scratch_dir, one.0, one.2).1[i],
            ) is Some ==> task_laws::touched(
                task_laws::job(processor, scratch_dir, one.0, one.2).1[i],
            ) != task_laws::touched(task_laws::job(processor, scratch_dir, other.0, other.2).1[j]),
{
    lemma_ended_job_is_acknowledged(processor, scratch_dir, one.0, one.2, last, result);
    lemma_loop_follows_job(processor, scratch_dir, other.0, other.2);
    lemma_run_append(
        processor,
        scratch_dir,
        ConsumerStateView::Fetching,
        handled(one.0, one.2, last),
        seq![ConsumerEventView::Delivered { payload: other.0 }] + told(other.2),
    );
    task_laws::lemma_jobs_do_not_interfere(
        scratch_dir,
        (processor, one.0, one.1, one.2),
        (processor, other.0, other.1, other.2),
    );
}

/// A job whose encoder does not exit with status 0 has its message
/// acknowledged all the same: the loop stages the file, runs the encoder,
/// reports the failure with the encoder's status and acknowledges. Nothing is
/// published.
pub proof fn lemma_failed_encoding_is_acknowledged<P: FileProcessor>(
    processor: P,
    scratch_dir: Seq<char>,
    raw: Seq<u8>,
    request: TaskRequestView,
    code: Option<i32>,
)
    requires
        TaskRequest::decoding(raw) == Ok::<TaskRequestView, MalformedMessage>(request),
        code != Some(0i32),
    ensures
        run(
            processor,
            scratch_dir,
            ConsumerStateView::Fetching,
            seq![
                ConsumerEventView::Delivered { payload: raw },
                ConsumerEventView::Task { event: TaskEventView::ScratchWritten },
                ConsumerEventView::Task { event: TaskEventView::EncoderExited { code } },
                ConsumerEventView::Acknowledged,
            ],
        ) == (
            ConsumerStateView::Fetching,
            seq![
                ConsumerActionView::Task {
                    action: TaskActionView::WriteScratch {
                        path: scratch_input(scratch_dir, request.variant_id),
                        contents: request.original_file,
                    },
                },
                ConsumerActionView::Task {
                    action: TaskActionView::RunEncoder {
                        invocation: processor.command_line(
                            scratch_input(scratch_dir, request.variant_id),
                            scratch_output(scratch_dir, request.variant_id),
                        ),
                    },
                },
                ConsumerActionView::Acknowledge {
                    outcome: Err(TaskFailure::EncodeFailure { status: code }),
                },
                ConsumerActionView::Fetch,
            ],
        ),
{
    let events = seq![
        ConsumerEventView::Delivered { payload: raw },
        ConsumerEventView::Task { event: TaskEventView::ScratchWritten },
        ConsumerEventView::Task { event: TaskEventView::EncoderExited { code } },
        ConsumerEventView::Acknowledged,
    ];
    let s0 = ConsumerStateView::Fetching;
    let e1 = events.drop_first();
    let e2 = e1.drop_first();
    let e3 = e2.drop_first();
    let (s1, a1) = s0.step(processor, scratch_dir, events[0]);
    let (s2, a2) = s1.step(processor, scratch_dir, e1[0]);
    let (s3, a3) = s2.step(processor, scratch_dir, e2[0]);
    let (s4, a4) = s3.step(processor, scratch_dir, e3[0]);
    assert(run(processor, scratch_dir, s4, e3.drop_first()).1 =~= Seq::<
        ConsumerActionView,
    >::empty());
    assert(run(processor, scratch_dir, s3, e3).1 =~= seq![a4]);
    assert(run(processor, scratch_dir, s2, e2).1 =~= seq![a3, a4]);
    assert(run(processor, scratch_dir, s1, e1).1 =~= seq![a2, a3, a4]);
    assert(run(processor, scratch_dir, s0, events).1 =~= seq![a1, a2, a3, a4]);
}

} // verus!
