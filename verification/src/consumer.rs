//! The consumer loop of one queue, as a state machine.
//!
//! The loop takes one message at a time, sees the job through with the steps
//! of [`crate::task`], and acknowledges the message however the job ended. A
//! failed job is reported and lost: it is neither retried nor put back. The
//! loop stops when the stream of messages ends or breaks, or when the broker
//! does not take an acknowledgment.

use crate::file_processors::FileProcessor;
use crate::task::{TaskAction, TaskActionView, TaskEvent, TaskEventView, TaskFailure, TaskState, TaskStateView};
use vstd::prelude::*;

verus! {

/// Why a consumer loop stopped before its stream ended.
#[derive(Clone, Copy, Debug, PartialEq, Eq)]
pub enum LoopFailure {
    /// The stream of messages broke.
    StreamFailure,
    /// The broker did not take an acknowledgment.
    AcknowledgeFailure,
}

/// The outcome of the action that the loop asked for last.
#[derive(Clone, Debug, PartialEq, Eq)]
pub enum ConsumerEvent {
    /// The action could not be carried out.
    Failed,
    /// The stream gave its next message.
    Delivered { payload: Vec<u8> },
    /// The stream has ended.
    StreamEnded,
    /// The outcome of an action of the job in hand.
    Task { event: TaskEvent },
    /// The broker took the acknowledgment.
    Acknowledged,
}

/// A [`ConsumerEvent`] as plain values.
pub enum ConsumerEventView {
    Failed,
    Delivered { payload: Seq<u8> },
    StreamEnded,
    Task { event: TaskEventView },
    Acknowledged,
}

impl View for ConsumerEvent {
    type V = ConsumerEventView;

    open spec fn view(&self) -> ConsumerEventView {
        match *self {
            ConsumerEvent::Failed => ConsumerEventView::Failed,
            ConsumerEvent::Delivered { payload } => ConsumerEventView::Delivered {
                payload: payload@,
            },
            ConsumerEvent::StreamEnded => ConsumerEventView::StreamEnded,
            ConsumerEvent::Task { event } => ConsumerEventView::Task { event: event@ },
            ConsumerEvent::Acknowledged => ConsumerEventView::Acknowledged,
        }
    }
}

/// What the caller is to do next.
#[derive(Debug, PartialEq, Eq)]
pub enum ConsumerAction {
    /// Wait for the next message of the stream.
    Fetch,
    /// Carry out an action of the job in hand.
    Task { action: TaskAction },
    /// The job in hand ended with `outcome`: report a failure, then
    /// acknowledge the message.
    Acknowledge { outcome: Result<(), TaskFailure> },
    /// Nothing is left to do: the loop ended with `result`.
    Stop { result: Result<(), LoopFailure> },
}

/// A [`ConsumerAction`] as plain values.
pub enum ConsumerActionView {
    Fetch,
    Task { action: TaskActionView },
    Acknowledge { outcome: Result<(), TaskFailure> },
    Stop { result: Result<(), LoopFailure> },
}

impl View for ConsumerAction {
    type V = ConsumerActionView;

    open spec fn view(&self) -> ConsumerActionView {
        match *self {
            ConsumerAction::Fetch => ConsumerActionView::Fetch,
            ConsumerAction::Task { action } => ConsumerActionView::Task { action: action@ },
            ConsumerAction::Acknowledge { outcome } => ConsumerActionView::Acknowledge { outcome },
            ConsumerAction::Stop { result } => ConsumerActionView::Stop { result },
        }
    }
}

/// Where a consumer loop stands.
#[derive(Debug, PartialEq, Eq)]
pub enum ConsumerState {
    /// The next message is awaited.
    Fetching,
    /// A message is in hand and its job under way.
    Handling { task: TaskState },
    /// The job has ended and the acknowledgment of its message is awaited.
    Acknowledging,
    /// The loop has ended.
    Stopped { result: Result<(), LoopFailure> },
}

/// A [`ConsumerState`] as plain values.
pub enum ConsumerStateView {
    Fetching,
    Handling { task: TaskStateView },
    Acknowledging,
    Stopped { result: Result<(), LoopFailure> },
}

impl View for ConsumerState {
    type V = ConsumerStateView;

    open spec fn view(&self) -> ConsumerStateView {
        match *self {
            ConsumerState::Fetching => ConsumerStateView::Fetching,
            ConsumerState::Handling { task } => ConsumerStateView::Handling { task: task@ },
            ConsumerState::Acknowledging => ConsumerStateView::Acknowledging,
            ConsumerState::Stopped { result } => ConsumerStateView::Stopped { result },
        }
    }
}

/// The end of a loop.
pub open spec fn stopped(result: Result<(), LoopFailure>) -> (ConsumerStateView, ConsumerActionView) {
    (ConsumerStateView::Stopped { result }, ConsumerActionView::Stop { result })
}

/// The loop with a job that has just been begun or moved on: a job that has
/// ended has its message acknowledged, any other goes on.
pub open spec fn carried_on(job: (TaskStateView, TaskActionView)) -> (
    ConsumerStateView,
    ConsumerActionView,
) {
    match job.0 {
        TaskStateView::Finished { result } => (
            ConsumerStateView::Acknowledging,
            ConsumerActionView::Acknowledge { outcome: result },
        ),
        _ => (ConsumerStateView::Handling { task: job.0 }, ConsumerActionView::Task { action: job.1 }),
    }
}

/// What an event tells the job in hand: its own events as they are, any other
/// as the failure of what it was waiting for.
pub open spec fn task_event(event: ConsumerEventView) -> TaskEventView {
    match event {
        ConsumerEventView::Task { event } => event,
        _ => TaskEventView::Failed,
    }
}

impl ConsumerStateView {
    /// How a loop begins: it waits for its first message.
    pub open spec fn start() -> (ConsumerStateView, ConsumerActionView) {
        (ConsumerStateView::Fetching, ConsumerActionView::Fetch)
    }

    /// How a loop goes on when the outcome of its pending action is known.
    /// Jobs are encoded by `processor`, with their scratch files in
    /// `scratch_dir`.
    pub open spec fn step<P: FileProcessor>(
        self,
        processor: P,
        scratch_dir: Seq<char>,
        event: ConsumerEventView,
    ) -> (ConsumerStateView, ConsumerActionView) {
        match self {
            ConsumerStateView::Fetching => match event {
                ConsumerEventView::Delivered { payload } => carried_on(
                    TaskStateView::start(processor, scratch_dir, payload),
                ),
                ConsumerEventView::StreamEnded => stopped(Ok(())),
                _ => stopped(Err(LoopFailure::StreamFailure)),
            },
            ConsumerStateView::Handling { task } => carried_on(task.step(task_event(event))),
            ConsumerStateView::Acknowledging => match event {
                ConsumerEventView::Acknowledged => Self::start(),
                _ => stopped(Err(LoopFailure::AcknowledgeFailure)),
            },
            ConsumerStateView::Stopped { result } => (self, ConsumerActionView::Stop { result }),
        }
    }
}

fn stop(result: Result<(), LoopFailure>) -> (ended: (ConsumerState, ConsumerAction))
    ensures
        (ended.0@, ended.1@) == stopped(result),
{
    (ConsumerState::Stopped { result }, ConsumerAction::Stop { result })
}

fn carry_on(job: (TaskState, TaskAction)) -> (next: (ConsumerState, ConsumerAction))
    ensures
        (next.0@, next.1@) == carried_on((job.0@, job.1@)),
{
    match job.0 {
        TaskState::Finished { result } => (
            ConsumerState::Acknowledging,
            ConsumerAction::Acknowledge { outcome: result },
        ),
        task => (ConsumerState::Handling { task }, ConsumerAction::Task { action: job.1 }),
    }
}

impl ConsumerState {
    /// Begins a loop.
    pub fn start() -> (begun: (ConsumerState, ConsumerAction))
        ensures
            (begun.0@, begun.1@) == ConsumerStateView::start(),
    {
        (ConsumerState::Fetching, ConsumerAction::Fetch)
    }

    /// Takes the outcome of the pending action and answers with the next one.
    /// Jobs are encoded by `processor`, with their scratch files in
    /// `scratch_dir`.
    pub fn step<P: FileProcessor>(self, processor: &P, scratch_dir: &str, event: ConsumerEvent) -> (next:
        (ConsumerState, ConsumerAction))
        ensures
            (next.0@, next.1@) == self@.step(*processor, scratch_dir@, event@),
    {
        match self {
            ConsumerState::Fetching => match event {
                ConsumerEvent::Delivered { payload } => carry_on(
                    TaskState::start(processor, scratch_dir, payload.as_slice()),
                ),
                ConsumerEvent::StreamEnded => stop(Ok(())),
                _ => stop(Err(LoopFailure::StreamFailure)),
            },
            ConsumerState::Handling { task } => {
                let told = match event {
                    ConsumerEvent::Task { event } => event,
                    _ => TaskEvent::Failed,
                };
                carry_on(task.step(told))
            },
            ConsumerState::Acknowledging => match event {
                ConsumerEvent::Acknowledged => Self::start(),
                _ => stop(Err(LoopFailure::AcknowledgeFailure)),
            },
            ConsumerState::Stopped { result } => (
                ConsumerState::Stopped { result },
                ConsumerAction::Stop { result },
            ),
        }
    }
}

} // verus!
