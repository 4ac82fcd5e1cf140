//! What holds of every job, whatever the outside world answers.
//!
//! The laws speak of runs: a job is begun on a message and fed a sequence of
//! events, and the actions it answers with are collected in order.

use crate::file_processors::FileProcessor;
use crate::json_messages::{MalformedMessage, TaskRequest, TaskRequestView, TaskResponse, TaskResponseView};
use crate::task::{
    response_exchange, response_queue, scratch_input, scratch_output, JobView, TaskActionView,
    TaskEventView, TaskFailure, TaskStateView,
};
use vstd::prelude::*;

verus! {

/// Where a job stands after `events`, and the actions it asked for on the
/// way, one for each event.
pub open spec fn run(state: TaskStateView, events: Seq<TaskEventView>) -> (
    TaskStateView,
    Seq<TaskActionView>,
)
    decreases events.len(),
{
    if events.len() == 0 {
        (state, Seq::empty())
    } else {
        let (next, action) = state.step(events.first());
        let (last, actions) = run(next, events.drop_first());
        (last, seq![action] + actions)
    }
}

/// A job from its message on: where it stands after `events`, and every
/// action it asked for, the first one included.
pub open spec fn job<P: FileProcessor>(
    processor: P,
    scratch_dir: Seq<char>,
    raw: Seq<u8>,
    events: Seq<TaskEventView>,
) -> (TaskStateView, Seq<TaskActionView>) {
    let (begun, first) = TaskStateView::start(processor, scratch_dir, raw);
    let (last, actions) = run(begun, events);
    (last, seq![first] + actions)
}

/// How many of the actions publish.
pub open spec fn publishes(actions: Seq<TaskActionView>) -> nat
    decreases actions.len(),
{
    if actions.len() == 0 {
        0
    } else {
        publishes(actions.drop_first()) + if actions.first() is Publish {
            1nat
        } else {
            0nat
        }
    }
}

/// The path that an action names, if it touches a scratch file.
pub open spec fn touched(action: TaskActionView) -> Option<Seq<char>> {
    match action {
        TaskActionView::WriteScratch { path, .. } => Some(path),
        TaskActionView::ReadScratch { path } => Some(path),
        TaskActionView::RemoveScratch { path } => Some(path),
        _ => None,
    }
}

/// The events of a job in which every step succeeds and the encoder leaves
/// `variant_file` behind.
pub open spec fn all_goes_well(variant_file: Seq<u8>) -> Seq<TaskEventView> {
    seq![
        TaskEventView::ScratchWritten,
        TaskEventView::EncoderExited { code: Some(0i32) },
        TaskEventView::ScratchRead { contents: variant_file },
        TaskEventView::ScratchRemoved,
        TaskEventView::ScratchRemoved,
        TaskEventView::Published,
    ]
}

/// What a job that is under way holds of its request.
pub open spec fn held_job(state: TaskStateView) -> Option<JobView> {
    match state {
        TaskStateView::WritingInput { job, .. } => Some(job),
        TaskStateView::Encoding { job } => Some(job),
        TaskStateView::ReadingOutput { job } => Some(job),
        TaskStateView::RemovingInput { job, .. } => Some(job),
        TaskStateView::RemovingOutput { job, .. } => Some(job),
        TaskStateView::Publishing => None,
        TaskStateView::Finished { .. } => None,
    }
}

/// Whether an action is one that the handling of `job` may ask for: it
/// touches no scratch file but the job's own, and publishes nothing but a
/// response under the job's identifier, to the response queue.
pub open spec fn serves(action: TaskActionView, job: JobView) -> bool {
    match action {
        TaskActionView::WriteScratch { path, .. } => path == job.input_path,
        TaskActionView::RunEncoder { .. } => true,
        TaskActionView::ReadScratch { path } => path == job.output_path,
        TaskActionView::RemoveScratch { path } => path == job.input_path || path == job.output_path,
        TaskActionView::Publish { exchange, routing_key, payload } => {
            &&& exchange == response_exchange()
            &&& routing_key == response_queue()
            &&& exists|variant_file: Seq<u8>| #[trigger]
                response_of(variant_file, job.variant_id) == Some(payload)
        },
        TaskActionView::Finish { .. } => true,
    }
}

/// The envelope of the response that carries `variant_file` under
/// `variant_id`.
pub open spec fn response_of(variant_file: Seq<u8>, variant_id: Seq<char>) -> Option<Seq<u8>> {
    TaskResponse::encoding(TaskResponseView { variant_file, variant_id })
}

/// The job that the request `request` becomes, with its scratch files in
/// `scratch_dir`.
pub open spec fn job_of(scratch_dir: Seq<char>, request: TaskRequestView) -> JobView {
    JobView {
        variant_id: request.variant_id,
        input_path: scratch_input(scratch_dir, request.variant_id),
        output_path: scratch_output(scratch_dir, request.variant_id),
    }
}

proof fn lemma_run_one(state: TaskStateView, events: Seq<TaskEventView>)
    requires
        events.len() > 0,
    ensures
        run(state, events) == (
            run(state.step(events[0]).0, events.drop_first()).0,
            seq![state.step(events[0]).1] + run(state.step(events[0]).0, events.drop_first()).1,
        ),
{
}

proof fn lemma_run_len(state: TaskStateView, events: Seq<TaskEventView>)
    ensures
        run(state, events).1.len() == events.len(),
    decreases events.len(),
{
    if events.len() > 0 {
        lemma_run_len(state.step(events.first()).0, events.drop_first());
    }
}

proof fn lemma_publishes_first(first: TaskActionView, rest: Seq<TaskActionView>)
    ensures
        publishes(seq![first] + rest) == publishes(rest) + if first is Publish {
            1nat
        } else {
            0nat
        },
{
    assert((seq![first] + rest).drop_first() =~= rest);
}

/// A job that has ended stays as it is: every further event is answered with
/// the result it ended with.
pub proof fn lemma_ended_job_stays_ended(
    result: Result<(), TaskFailure>,
    events: Seq<TaskEventView>,
)
    ensures
        run(TaskStateView::Finished { result }, events).0 == (TaskStateView::Finished { result }),
        run(TaskStateView::Finished { result }, events).1.len() == events.len(),
        forall|i: int|
            0 <= i < events.len() ==> #[trigger] run(
                TaskStateView::Finished { result },
                events,
            ).1[i] == (TaskActionView::Finish { result }),
        publishes(run(TaskStateView::Finished { result }, events).1) == 0,
    decreases events.len(),
{
    let ended = TaskStateView::Finished { result };
    if events.len() > 0 {
        lemma_ended_job_stays_ended(result, events.drop_first());
        lemma_publishes_first(TaskActionView::Finish { result }, run(ended, events.drop_first()).1);
    }
}

/// Once the response is on its way, nothing more is published, and the job
/// cannot fail for any reason but the publishing.
proof fn lemma_after_publish(events: Seq<TaskEventView>)
    ensures
        publishes(run(TaskStateView::Publishing, events).1) == 0,
        run(TaskStateView::Publishing, events).0 matches TaskStateView::Finished { result: Err(failure) }
            ==> failure == TaskFailure::PublishFailure,
{
    if events.len() > 0 {
        let (next, action) = TaskStateView::Publishing.step(events.first());
        let result = next->Finished_result;
        lemma_ended_job_stays_ended(result, events.drop_first());
        lemma_publishes_first(action, run(next, events.drop_first()).1);
    }
}

/// From a state in which the response is not yet on its way: at most one
/// action publishes; exactly one if the job ends well, none if it fails for
/// another reason than the publishing.
proof fn lemma_publishes_once(state: TaskStateView, events: Seq<TaskEventView>)
    requires
        held_job(state) is Some,
    ensures
        publishes(run(state, events).1) <= 1,
        run(state, events).0 == (TaskStateView::Finished { result: Ok(()) }) ==> publishes(
            run(state, events).1,
        ) == 1,
        run(state, events).0 matches TaskStateView::Finished { result: Err(failure) } && failure
            != TaskFailure::PublishFailure ==> publishes(run(state, events).1) == 0,
    decreases events.len(),
{
    if events.len() > 0 {
        let (next, action) = state.step(events.first());
        let rest = events.drop_first();
        lemma_publishes_first(action, run(next, rest).1);
        match next {
            TaskStateView::Publishing => {
                lemma_after_publish(rest);
            },
            TaskStateView::Finished { result } => {
                lemma_ended_job_stays_ended(result, rest);
            },
            _ => {
                lemma_publishes_once(next, rest);
            },
        }
    }
}

/// While a job is under way it holds on to what it was begun with, and every
/// action serves that job.
proof fn lemma_run_serves(state: TaskStateView, job: JobView, events: Seq<TaskEventView>)
    requires
        held_job(state) matches Some(held) ==> held == job,
    ensures
        forall|i: int| 0 <= i < events.len() ==> serves(#[trigger] run(state, events).1[i], job),
    decreases events.len(),
{
    if events.len() > 0 {
        let (next, action) = state.step(events.first());
        let rest = events.drop_first();
        lemma_run_serves(next, job, rest);
        lemma_run_len(next, rest);
        if let TaskActionView::Publish { payload, .. } = action {
            let variant_file = state->RemovingOutput_variant_file;
            assert(response_of(variant_file, job.variant_id) == Some(payload));
        }
    }
}

/// A message that is a task request, handled where every step succeeds, has
/// its file staged, encoded and read back, both scratch files removed, and
/// one response published that carries the encoder's output under the
/// request's identifier. Then the job ends well.
pub proof fn lemma_job_succeeds<P: FileProcessor>(
    processor: P,
    scratch_dir: Seq<char>,
    raw: Seq<u8>,
    request: TaskRequestView,
    variant_file: Seq<u8>,
    payload: Seq<u8>,
)
    requires
        TaskRequest::decoding(raw) == Ok::<TaskRequestView, MalformedMessage>(request),
        response_of(variant_file, request.variant_id) == Some(payload),
    ensures
        job(processor, scratch_dir, raw, all_goes_well(variant_file)) == (
            TaskStateView::Finished { result: Ok(()) },
            seq![
                TaskActionView::WriteScratch {
                    path: scratch_input(scratch_dir, request.variant_id),
                    contents: request.original_file,
                },
                TaskActionView::RunEncoder {
                    invocation: processor.command_line(
                        scratch_input(scratch_dir, request.variant_id),
                        scratch_output(scratch_dir, request.variant_id),
                    ),
                },
                TaskActionView::ReadScratch { path: scratch_output(scratch_dir, request.variant_id) },
                TaskActionView::RemoveScratch {
                    path: scratch_input(scratch_dir, request.variant_id),
                },
                TaskActionView::RemoveScratch {
                    path: scratch_output(scratch_dir, request.variant_id),
                },
                TaskActionView::Publish {
                    exchange: response_exchange(),
                    routing_key: response_queue(),
                    payload,
                },
                TaskActionView::Finish { result: Ok(()) },
            ],
        ),
{
    let e0 = all_goes_well(variant_file);
    let e1 = e0.drop_first();
    let e2 = e1.drop_first();
    let e3 = e2.drop_first();
    let e4 = e3.drop_first();
    let e5 = e4.drop_first();
    let s0 = TaskStateView::start(processor, scratch_dir, raw).0;
    let s1 = s0.step(e0[0]).0;
    let s2 = s1.step(e1[0]).0;
    let s3 = s2.step(e2[0]).0;
    let s4 = s3.step(e3[0]).0;
    let s5 = s4.step(e4[0]).0;
    lemma_run_one(s0, e0);
    lemma_run_one(s1, e1);
    lemma_run_one(s2, e2);
    lemma_run_one(s3, e3);
    lemma_run_one(s4, e4);
    lemma_run_one(s5, e5);
}

/// A job publishes at most once: exactly once if it ends well, and not at all
/// if it fails for any reason but the publishing itself.
pub proof fn lemma_job_publishes_once<P: FileProcessor>(
    processor: P,
    scratch_dir: Seq<char>,
    raw: Seq<u8>,
    events: Seq<TaskEventView>,
)
    ensures
        publishes(job(processor, scratch_dir, raw, events).1) <= 1,
        job(processor, scratch_dir, raw, events).0 == (TaskStateView::Finished { result: Ok(()) })
            ==> publishes(job(processor, scratch_dir, raw, events).1) == 1,
        job(processor, scratch_dir, raw, events).0 matches TaskStateView::Finished {
            result: Err(failure),
        } && failure != TaskFailure::PublishFailure ==> publishes(
            job(processor, scratch_dir, raw, events).1,
        ) == 0,
{
    let (begun, first) = TaskStateView::start(processor, scratch_dir, raw);
    lemma_publishes_first(first, run(begun, events).1);
    match begun {
        TaskStateView::Finished { result } => {
            lemma_ended_job_stays_ended(result, events);
        },
        _ => {
            lemma_publishes_once(begun, events);
        },
    }
}

/// A message that is no task request is refused before anything is done for
/// it: the job has ended when it begins, and no action ever touches a scratch
/// file or the broker.
pub proof fn lemma_malformed_message_is_dropped<P: FileProcessor>(
    processor: P,
    scratch_dir: Seq<char>,
    raw: Seq<u8>,
    reason: MalformedMessage,
    events: Seq<TaskEventView>,
)
    requires
        TaskRequest::decoding(raw) == Err::<TaskRequestView, MalformedMessage>(reason),
    ensures
        job(processor, scratch_dir, raw, events).0 == (TaskStateView::Finished {
            result: Err(TaskFailure::MalformedMessage(reason)),
        }),
        job(processor, scratch_dir, raw, events).1.len() == events.len() + 1,
        forall|i: int|
            0 <= i <= events.len() ==> #[trigger] job(processor, scratch_dir, raw, events).1[i] == (
            TaskActionView::Finish { result: Err(TaskFailure::MalformedMessage(reason)) }),
{
    lemma_ended_job_stays_ended(Err(TaskFailure::MalformedMessage(reason)), events);
}

/// An encoder that does not exit with status 0 fails the job with its status.
/// The file has been staged by then and is left where it is; nothing is read,
/// removed or published, then or later.
pub proof fn lemma_failed_encoding_ends_the_job<P: FileProcessor>(
    processor: P,
    scratch_dir: Seq<char>,
    raw: Seq<u8>,
    request: TaskRequestView,
    code: Option<i32>,
    later: Seq<TaskEventView>,
)
    requires
        TaskRequest::decoding(raw) == Ok::<TaskRequestView, MalformedMessage>(request),
        code != Some(0i32),
    ensures
        ({
            let events = seq![
                TaskEventView::ScratchWritten,
                TaskEventView::EncoderExited { code },
            ] + later;
            let failure = TaskFailure::EncodeFailure { status: code };
            let (last, actions) = job(processor, scratch_dir, raw, events);
            &&& last == (TaskStateView::Finished { result: Err(failure) })
            &&& actions.len() == later.len() + 3
            &&& actions[0] == (TaskActionView::WriteScratch {
                path: scratch_input(scratch_dir, request.variant_id),
                contents: request.original_file,
            })
            &&& actions[1] == (TaskActionView::RunEncoder {
                invocation: processor.command_line(
                    scratch_input(scratch_dir, request.variant_id),
                    scratch_output(scratch_dir, request.variant_id),
                ),
            })
            &&& forall|i: int|
                2 <= i < actions.len() ==> #[trigger] actions[i] == (TaskActionView::Finish {
                    result: Err(failure),
                })
        }),
{
    let e0 = seq![TaskEventView::ScratchWritten, TaskEventView::EncoderExited { code }] + later;
    let e1 = e0.drop_first();
    let s0 = TaskStateView::start(processor, scratch_dir, raw).0;
    let s1 = s0.step(e0[0]).0;
    lemma_run_one(s0, e0);
    lemma_run_one(s1, e1);
    assert(e1.drop_first() =~= later);
    lemma_ended_job_stays_ended(Err(TaskFailure::EncodeFailure { status: code }), later);
}

/// Whatever happens to a job, it touches no scratch file but its own two, and
/// what it publishes is a response under the identifier of its request, sent
/// to the response queue.
pub proof fn lemma_job_serves_its_request<P: FileProcessor>(
    processor: P,
    scratch_dir: Seq<char>,
    raw: Seq<u8>,
    request: TaskRequestView,
    events: Seq<TaskEventView>,
)
    requires
        TaskRequest::decoding(raw) == Ok::<TaskRequestView, MalformedMessage>(request),
    ensures
        job(processor, scratch_dir, raw, events).1.len() == events.len() + 1,
        forall|i: int|
            0 <= i <= events.len() ==> serves(
                #[trigger] job(processor, scratch_dir, raw, events).1[i],
                job_of(scratch_dir, request),
            ),
{
    let begun = TaskStateView::start(processor, scratch_dir, raw).0;
    lemma_run_serves(begun, job_of(scratch_dir, request), events);
    lemma_run_len(begun, events);
}

/// The scratch files of two jobs with different identifiers are four
/// different files, and so are the two files of one job.
pub proof fn lemma_scratch_files_differ(scratch_dir: Seq<char>, one: Seq<char>, other: Seq<char>)
    ensures
        scratch_input(scratch_dir, one) != scratch_output(scratch_dir, other),
        one != other ==> scratch_input(scratch_dir, one) != scratch_input(scratch_dir, other),
        one != other ==> scratch_output(scratch_dir, one) != scratch_output(scratch_dir, other),
{
    reveal_strlit("/");
    reveal_strlit("_input");
    reveal_strlit("_output");
    let head = scratch_dir + "/"@;
    let input_one = scratch_input(scratch_dir, one);
    let input_other = scratch_input(scratch_dir, other);
    let output_one = scratch_output(scratch_dir, one);
    let output_other = scratch_output(scratch_dir, other);
    assert(input_one.len() == head.len() + one.len() + 6);
    assert(output_other.len() == head.len() + other.len() + 7);
    if input_one == output_other {
        assert(input_one[input_one.len() - 5] == 'i');
        assert(output_other[output_other.len() - 5] == 'u');
    }
    if input_one == input_other {
        assert forall|i: int| 0 <= i < one.len() implies one[i] == other[i] by {
            assert(input_one[head.len() + i] == one[i]);
            assert(input_other[head.len() + i] == other[i]);
        }
        assert(one =~= other);
    }
    if output_one == output_other {
        assert forall|i: int| 0 <= i < one.len() implies one[i] == other[i] by {
            assert(output_one[head.len() + i] == one[i]);
            assert(output_other[head.len() + i] == other[i]);
        }
        assert(one =~= other);
    }
}

/// Two jobs whose requests carry different identifiers never touch the same
/// scratch file, whatever happens to either.
pub proof fn lemma_jobs_do_not_interfere<P: FileProcessor, Q: FileProcessor>(
    scratch_dir: Seq<char>,
    one: (P, Seq<u8>, TaskRequestView, Seq<TaskEventView>),
    other: (Q, Seq<u8>, TaskRequestView, Seq<TaskEventView>),
)
    requires
        TaskRequest::decoding(one.1) == Ok::<TaskRequestView, MalformedMessage>(one.2),
        TaskRequest::decoding(other.1) == Ok::<TaskRequestView, MalformedMessage>(other.2),
        one.2.variant_id != other.2.variant_id,
    ensures
        forall|i: int, j: int|
            #![trigger
                job(one.0, scratch_dir, one.1, one.3).1[i],
                job(other.0, scratch_dir, other.1, other.3).1[j]
            ]
            0 <= i <= one.3.len() && 0 <= j <= other.3.len() && touched(
                job(one.0, scratch_dir, one.1, one.3).1[i],
            ) is Some ==> touched(job(one.0, scratch_dir, one.1, one.3).1[i]) != touched(
                job(other.0, scratch_dir, other.1, other.3).1[j],
            ),
{
    lemma_job_serves_its_request(one.0, scratch_dir, one.1, one.2, one.3);
    lemma_job_serves_its_request(other.0, scratch_dir, other.1, other.2, other.3);
    lemma_scratch_files_differ(scratch_dir, one.2.variant_id, other.2.variant_id);
    lemma_scratch_files_differ(scratch_dir, other.2.variant_id, one.2.variant_id);
}

} // verus!
