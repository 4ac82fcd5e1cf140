//! The handling of one job, as a state machine.
//!
//! A job is a chain of outside work: stage the file, run the encoder, read
//! what it wrote, clean up, publish. The machine holds the decisions between
//! those steps. [`TaskState::start`] and [`TaskState::step`] each answer with
//! the next [`TaskAction`]; the caller carries it out and reports the outcome
//! as a [`TaskEvent`]. Anything but the awaited success ends the job with the
//! failure of the step that was pending.

use crate::file_processors::{FileProcessor, Invocation, InvocationView};
use crate::json_messages::{MalformedMessage, TaskRequest, TaskResponse, TaskResponseView};
use vstd::prelude::*;
use vstd::string::*;

verus! {

/// Why a job failed.
#[derive(Clone, Copy, Debug, PartialEq, Eq)]
pub enum TaskFailure {
    /// The message is no task request.
    MalformedMessage(MalformedMessage),
    /// The file could not be staged for the encoder.
    ScratchWriteFailure,
    /// The encoder could not be started.
    LaunchFailure,
    /// The encoder ran and did not exit with status 0. `status` is its exit
    /// status, if it had one.
    EncodeFailure { status: Option<i32> },
    /// The encoder's output could not be read.
    ScratchReadFailure,
    /// A scratch file could not be removed.
    ScratchCleanupFailure,
    /// The JSON serializer refused the response.
    UnrepresentableResponse,
    /// The broker did not take the response.
    PublishFailure,
}

/// What a job keeps from its request while it is under way.
#[derive(Clone, Debug, PartialEq, Eq)]
pub struct Job {
    pub variant_id: String,
    pub input_path: String,
    pub output_path: String,
}

/// A [`Job`] as plain text.
pub struct JobView {
    pub variant_id: Seq<char>,
    pub input_path: Seq<char>,
    pub output_path: Seq<char>,
}

impl View for Job {
    type V = JobView;

    open spec fn view(&self) -> JobView {
        JobView {
            variant_id: self.variant_id@,
            input_path: self.input_path@,
            output_path: self.output_path@,
        }
    }
}

/// The outcome of the action that the machine asked for last.
#[derive(Clone, Debug, PartialEq, Eq)]
pub enum TaskEvent {
    /// The action could not be carried out.
    Failed,
    /// The scratch file was written in full.
    ScratchWritten,
    /// The encoder ran and ended. `code` is its exit status; `None` where it
    /// was ended by a signal.
    EncoderExited { code: Option<i32> },
    /// The scratch file was read in full.
    ScratchRead { contents: Vec<u8> },
    /// The scratch file is gone.
    ScratchRemoved,
    /// The broker took the message.
    Published,
}

/// A [`TaskEvent`] as plain values.
pub enum TaskEventView {
    Failed,
    ScratchWritten,
    EncoderExited { code: Option<i32> },
    ScratchRead { contents: Seq<u8> },
    ScratchRemoved,
    Published,
}

impl View for TaskEvent {
    type V = TaskEventView;

    open spec fn view(&self) -> TaskEventView {
        match *self {
            TaskEvent::Failed => TaskEventView::Failed,
            TaskEvent::ScratchWritten => TaskEventView::ScratchWritten,
            TaskEvent::EncoderExited { code } => TaskEventView::EncoderExited { code },
            TaskEvent::ScratchRead { contents } => TaskEventView::ScratchRead { contents: contents@ },
            TaskEvent::ScratchRemoved => TaskEventView::ScratchRemoved,
            TaskEvent::Published => TaskEventView::Published,
        }
    }
}

/// What the caller is to do next.
#[derive(Debug, PartialEq, Eq)]
pub enum TaskAction {
    /// Create the file at `path` and write `contents` to it.
    WriteScratch { path: String, contents: Vec<u8> },
    /// Run the encoder and wait for it to end.
    RunEncoder { invocation: Invocation },
    /// Read the whole file at `path`.
    ReadScratch { path: String },
    /// Remove the file at `path`.
    RemoveScratch { path: String },
    /// Publish `payload` to `exchange` with `routing_key`.
    Publish { exchange: String, routing_key: String, payload: Vec<u8> },
    /// Nothing is left to do: the job ended with `result`.
    Finish { result: Result<(), TaskFailure> },
}

/// A [`TaskAction`] as plain values.
pub enum TaskActionView {
    WriteScratch { path: Seq<char>, contents: Seq<u8> },
    RunEncoder { invocation: InvocationView },
    ReadScratch { path: Seq<char> },
    RemoveScratch { path: Seq<char> },
    Publish { exchange: Seq<char>, routing_key: Seq<char>, payload: Seq<u8> },
    Finish { result: Result<(), TaskFailure> },
}

impl View for TaskAction {
    type V = TaskActionView;

    open spec fn view(&self) -> TaskActionView {
        match *self {
            TaskAction::WriteScratch { path, contents } => TaskActionView::WriteScratch {
                path: path@,
                contents: contents@,
            },
            TaskAction::RunEncoder { invocation } => TaskActionView::RunEncoder {
                invocation: invocation@,
            },
            TaskAction::ReadScratch { path } => TaskActionView::ReadScratch { path: path@ },
            TaskAction::RemoveScratch { path } => TaskActionView::RemoveScratch { path: path@ },
            TaskAction::Publish { exchange, routing_key, payload } => TaskActionView::Publish {
                exchange: exchange@,
                routing_key: routing_key@,
                payload: payload@,
            },
            TaskAction::Finish { result } => TaskActionView::Finish { result },
        }
    }
}

/// Where a job stands: the step whose outcome is awaited.
#[derive(Debug, PartialEq, Eq)]
pub enum TaskState {
    /// The request's file is being written to the scratch input.
    WritingInput { job: Job, encoder: Invocation },
    /// The encoder is running.
    Encoding { job: Job },
    /// The scratch output is being read.
    ReadingOutput { job: Job },
    /// The scratch input is being removed.
    RemovingInput { job: Job, variant_file: Vec<u8> },
    /// The scratch output is being removed.
    RemovingOutput { job: Job, variant_file: Vec<u8> },
    /// The response is on its way to the broker.
    Publishing,
    /// The job has ended.
    Finished { result: Result<(), TaskFailure> },
}

/// A [`TaskState`] as plain values.
pub enum TaskStateView {
    WritingInput { job: JobView, encoder: InvocationView },
    Encoding { job: JobView },
    ReadingOutput { job: JobView },
    RemovingInput { job: JobView, variant_file: Seq<u8> },
    RemovingOutput { job: JobView, variant_file: Seq<u8> },
    Publishing,
    Finished { result: Result<(), TaskFailure> },
}

impl View for TaskState {
    type V = TaskStateView;

    open spec fn view(&self) -> TaskStateView {
        match *self {
            TaskState::WritingInput { job, encoder } => TaskStateView::WritingInput {
                job: job@,
                encoder: encoder@,
            },
            TaskState::Encoding { job } => TaskStateView::Encoding { job: job@ },
            TaskState::ReadingOutput { job } => TaskStateView::ReadingOutput { job: job@ },
            TaskState::RemovingInput { job, variant_file } => TaskStateView::RemovingInput {
                job: job@,
                variant_file: variant_file@,
            },
            TaskState::RemovingOutput { job, variant_file } => TaskStateView::RemovingOutput {
                job: job@,
                variant_file: variant_file@,
            },
            TaskState::Publishing => TaskStateView::Publishing,
            TaskState::Finished { result } => TaskStateView::Finished { result },
        }
    }
}

/// The exchange that responses go to: the broker's default exchange.
pub open spec fn response_exchange() -> Seq<char> {
    ""@
}

/// The queue that takes the responses of every format.
pub open spec fn response_queue() -> Seq<char> {
    "process_variant"@
}

/// The scratch file that holds a job's input.
pub open spec fn scratch_input(scratch_dir: Seq<char>, variant_id: Seq<char>) -> Seq<char> {
    scratch_dir + "/"@ + variant_id + "_input"@
}

/// The scratch file that the encoder writes a job's output to.
pub open spec fn scratch_output(scratch_dir: Seq<char>, variant_id: Seq<char>) -> Seq<char> {
    scratch_dir + "/"@ + variant_id + "_output"@
}

/// The end of a job in failure.
pub open spec fn failed(failure: TaskFailure) -> (TaskStateView, TaskActionView) {
    (
        TaskStateView::Finished { result: Err(failure) },
        TaskActionView::Finish { result: Err(failure) },
    )
}

impl TaskStateView {
    /// How a job begins: a message that is a task request has its file
    /// staged; any other ends the job at once.
    pub open spec fn start<P: FileProcessor>(processor: P, scratch_dir: Seq<char>, raw: Seq<u8>) -> (
        TaskStateView,
        TaskActionView,
    ) {
        match TaskRequest::decoding(raw) {
            Err(reason) => failed(TaskFailure::MalformedMessage(reason)),
            Ok(request) => {
                let job = JobView {
                    variant_id: request.variant_id,
                    input_path: scratch_input(scratch_dir, request.variant_id),
                    output_path: scratch_output(scratch_dir, request.variant_id),
                };
                (
                    TaskStateView::WritingInput {
                        job,
                        encoder: processor.command_line(job.input_path, job.output_path),
                    },
                    TaskActionView::WriteScratch {
                        path: job.input_path,
                        contents: request.original_file,
                    },
                )
            },
        }
    }

    /// How a job goes on when the outcome of its pending action is known.
    pub open spec fn step(self, event: TaskEventView) -> (TaskStateView, TaskActionView) {
        match self {
            TaskStateView::WritingInput { job, encoder } => match event {
                TaskEventView::ScratchWritten => (
                    TaskStateView::Encoding { job },
                    TaskActionView::RunEncoder { invocation: encoder },
                ),
                _ => failed(TaskFailure::ScratchWriteFailure),
            },
            TaskStateView::Encoding { job } => match event {
                TaskEventView::EncoderExited { code } => if code == Some(0i32) {
                    (
                        TaskStateView::ReadingOutput { job },
                        TaskActionView::ReadScratch { path: job.output_path },
                    )
                } else {
                    failed(TaskFailure::EncodeFailure { status: code })
                },
                _ => failed(TaskFailure::LaunchFailure),
            },
            TaskStateView::ReadingOutput { job } => match event {
                TaskEventView::ScratchRead { contents } => (
                    TaskStateView::RemovingInput { job, variant_file: contents },
                    TaskActionView::RemoveScratch { path: job.input_path },
                ),
                _ => failed(TaskFailure::ScratchReadFailure),
            },
            TaskStateView::RemovingInput { job, variant_file } => match event {
                TaskEventView::ScratchRemoved => (
                    TaskStateView::RemovingOutput { job, variant_file },
                    TaskActionView::RemoveScratch { path: job.output_path },
                ),
                _ => failed(TaskFailure::ScratchCleanupFailure),
            },
            TaskStateView::RemovingOutput { job, variant_file } => match event {
                TaskEventView::ScratchRemoved => match TaskResponse::encoding(
                    TaskResponseView { variant_file, variant_id: job.variant_id },
                ) {
                    Some(payload) => (
                        TaskStateView::Publishing,
                        TaskActionView::Publish {
                            exchange: response_exchange(),
                            routing_key: response_queue(),
                            payload,
                        },
                    ),
                    None => failed(TaskFailure::UnrepresentableResponse),
                },
                _ => failed(TaskFailure::ScratchCleanupFailure),
            },
            TaskStateView::Publishing => match event {
                TaskEventView::Published => (
                    TaskStateView::Finished { result: Ok(()) },
                    TaskActionView::Finish { result: Ok(()) },
                ),
                _ => failed(TaskFailure::PublishFailure),
            },
            TaskStateView::Finished { result } => (self, TaskActionView::Finish { result }),
        }
    }
}

/// Joins a scratch directory, an identifier and a suffix into a path.
fn scratch_path(scratch_dir: &str, variant_id: &str, suffix: &str) -> (path: String)
    ensures
        path@ == scratch_dir@ + "/"@ + variant_id@ + suffix@,
{
    let mut path = scratch_dir.to_owned();
    path.append("/");
    path.append(variant_id);
    path.append(suffix);
    path
}

fn fail(failure: TaskFailure) -> (ended: (TaskState, TaskAction))
    ensures
        (ended.0@, ended.1@) == failed(failure),
{
    (TaskState::Finished { result: Err(failure) }, TaskAction::Finish { result: Err(failure) })
}

impl TaskState {
    /// Takes up the job that the message `raw` asks for. The encoder is that
    /// of `processor`; the scratch files lie in `scratch_dir`.
    pub fn start<P: FileProcessor>(processor: &P, scratch_dir: &str, raw: &[u8]) -> (begun: (
        TaskState,
        TaskAction,
    ))
        ensures
            (begun.0@, begun.1@) == TaskStateView::start(*processor, scratch_dir@, raw@),
    {
        match TaskRequest::from_slice(raw) {
            Err(reason) => fail(TaskFailure::MalformedMessage(reason)),
            Ok(request) => {
                let input_path = scratch_path(scratch_dir, request.variant_id.as_str(), "_input");
                let output_path = scratch_path(scratch_dir, request.variant_id.as_str(), "_output");
                let encoder = processor.process(input_path.as_str(), output_path.as_str());
                let action = TaskAction::WriteScratch {
                    path: input_path.clone(),
                    contents: request.original_file,
                };
                let job = Job { variant_id: request.variant_id, input_path, output_path };
                (TaskState::WritingInput { job, encoder }, action)
            },
        }
    }

    /// Takes the outcome of the pending action and answers with the next one.
    pub fn step(self, event: TaskEvent) -> (next: (TaskState, TaskAction))
        ensures
            (next.0@, next.1@) == self@.step(event@),
            next.1 matches TaskAction::Publish { payload, .. } ==> self matches TaskState::RemovingOutput {
                job,
                variant_file,
            } && TaskResponse::decoding(payload@) == Ok::<TaskResponseView, MalformedMessage>(
                TaskResponseView { variant_file: variant_file@, variant_id: job.variant_id@ },
            ),
    {
        match self {
            TaskState::WritingInput { job, encoder } => match event {
                TaskEvent::ScratchWritten => (
                    TaskState::Encoding { job },
                    TaskAction::RunEncoder { invocation: encoder },
                ),
                _ => fail(TaskFailure::ScratchWriteFailure),
            },
            TaskState::Encoding { job } => match event {
                TaskEvent::EncoderExited { code } => {
                    let success = match code {
                        Some(status) => status == 0,
                        None => false,
                    };
                    if success {
                        let path = job.output_path.clone();
                        (TaskState::ReadingOutput { job }, TaskAction::ReadScratch { path })
                    } else {
                        fail(TaskFailure::EncodeFailure { status: code })
                    }
                },
                _ => fail(TaskFailure::LaunchFailure),
            },
            TaskState::ReadingOutput { job } => match event {
                TaskEvent::ScratchRead { contents } => {
                    let path = job.input_path.clone();
                    (
                        TaskState::RemovingInput { job, variant_file: contents },
                        TaskAction::RemoveScratch { path },
                    )
                },
                _ => fail(TaskFailure::ScratchReadFailure),
            },
            TaskState::RemovingInput { job, variant_file } => match event {
                TaskEvent::ScratchRemoved => {
                    let path = job.output_path.clone();
                    (
                        TaskState::RemovingOutput { job, variant_file },
                        TaskAction::RemoveScratch { path },
                    )
                },
                _ => fail(TaskFailure::ScratchCleanupFailure),
            },
            TaskState::RemovingOutput { job, variant_file } => match event {
                TaskEvent::ScratchRemoved => {
                    let response = TaskResponse { variant_file, variant_id: job.variant_id };
                    match response.to_vec() {
                        Ok(payload) => (
                            TaskState::Publishing,
                            TaskAction::Publish {
                                exchange: "".to_owned(),
                                routing_key: "process_variant".to_owned(),
                                payload,
                            },
                        ),
                        Err(_) => fail(TaskFailure::UnrepresentableResponse),
                    }
                },
                _ => fail(TaskFailure::ScratchCleanupFailure),
            },
            TaskState::Publishing => match event {
                TaskEvent::Published => (
                    TaskState::Finished { result: Ok(()) },
                    TaskAction::Finish { result: Ok(()) },
                ),
                _ => fail(TaskFailure::PublishFailure),
            },
            TaskState::Finished { result } => (
                TaskState::Finished { result },
                TaskAction::Finish { result },
            ),
        }
    }
}

} // verus!
