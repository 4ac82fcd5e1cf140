//! The supervision of one format's consumer, as a state machine.
//!
//! A supervisor sets its consumer up on the broker: it has the format's queue
//! and the response queue declared, both durable, subscribes to the format's
//! queue under a tag of its own, and then runs the loop of
//! [`crate::consumer`]. A failure while setting up ends it before any message
//! is fetched.

use crate::consumer::{
    ConsumerAction, ConsumerActionView, ConsumerEvent, ConsumerEventView, ConsumerState,
    ConsumerStateView, LoopFailure,
};
use crate::file_processors::FileProcessor;
use crate::task::response_queue;
use vstd::prelude::*;
use vstd::string::*;

verus! {

/// The decimal digit for a value below ten.
pub open spec fn digit(value: nat) -> char {
    if value == 0 {
        '0'
    } else if value == 1 {
        '1'
    } else if value == 2 {
        '2'
    } else if value == 3 {
        '3'
    } else if value == 4 {
        '4'
    } else if value == 5 {
        '5'
    } else if value == 6 {
        '6'
    } else if value == 7 {
        '7'
    } else if value == 8 {
        '8'
    } else {
        '9'
    }
}

/// A number in decimal digits, without leading zeros.
pub open spec fn decimal(value: nat) -> Seq<char>
    decreases value,
{
    if value < 10 {
        seq![digit(value)]
    } else {
        decimal(value / 10).push(digit(value % 10))
    }
}

/// Whether a character is a hexadecimal digit in lower case.
pub open spec fn is_lower_hex(c: char) -> bool {
    ('0' <= c && c <= '9') || ('a' <= c && c <= 'f')
}

/// Whether a text has the form of a UUID: 32 hexadecimal digits in lower
/// case, in groups of 8, 4, 4, 4 and 12 with a hyphen between them.
pub open spec fn is_uuid_text(text: Seq<char>) -> bool {
    &&& text.len() == 36
    &&& forall|i: int|
        0 <= i < 36 ==> if i == 8 || i == 13 || i == 18 || i == 23 {
            #[trigger] text[i] == '-'
        } else {
            is_lower_hex(text[i])
        }
}

/// The tag of the consumer on channel `channel_id` that `unique` tells apart
/// from every other.
pub open spec fn consumer_tag_text(channel_id: u16, unique: Seq<char>) -> Seq<char> {
    "ctag"@ + decimal(channel_id as nat) + "."@ + unique
}

/// Calls `Uuid::new_v4` of the `uuid` crate and writes the result out with
/// the crate's `Display`.
///
/// Trusted: whatever the random number is, the text has the hyphenated
/// lower-case form of a UUID. The call panics where the operating system
/// gives no random bytes.
#[verifier::external_body]
fn random_uuid() -> (text: String)
    ensures
        is_uuid_text(text@),
{
    uuid::Uuid::new_v4().to_string()
}

fn digit_text(value: u16) -> (text: &'static str)
    requires
        value < 10,
    ensures
        text@ == seq![digit(value as nat)],
{
    proof {
        reveal_strlit("0");
        reveal_strlit("1");
        reveal_strlit("2");
        reveal_strlit("3");
        reveal_strlit("4");
        reveal_strlit("5");
        reveal_strlit("6");
        reveal_strlit("7");
        reveal_strlit("8");
        reveal_strlit("9");
    }
    if value == 0 {
        "0"
    } else if value == 1 {
        "1"
    } else if value == 2 {
        "2"
    } else if value == 3 {
        "3"
    } else if value == 4 {
        "4"
    } else if value == 5 {
        "5"
    } else if value == 6 {
        "6"
    } else if value == 7 {
        "7"
    } else if value == 8 {
        "8"
    } else {
        "9"
    }
}

fn decimal_text(value: u16) -> (text: String)
    ensures
        text@ == decimal(value as nat),
    decreases value,
{
    if value < 10 {
        digit_text(value).to_owned()
    } else {
        let mut text = decimal_text(value / 10);
        text.append(digit_text(value % 10));
        text
    }
}

/// The tag of the consumer on channel `channel_id` that `unique` tells apart
/// from every other: `ctag`, the channel's number, a dot, and `unique`.
pub fn consumer_tag(channel_id: u16, unique: &str) -> (tag: String)
    ensures
        tag@ == consumer_tag_text(channel_id, unique@),
{
    let mut tag = "ctag".to_owned();
    let number = decimal_text(channel_id);
    tag.append(number.as_str());
    tag.append(".");
    tag.append(unique);
    tag
}

/// Makes a tag for a new consumer on channel `channel_id`, with a random UUID
/// to tell it apart.
pub fn generate_consumer_tag(channel_id: u16) -> (tag: String)
    ensures
        exists|unique: Seq<char>|
            is_uuid_text(unique) && tag@ == #[trigger] consumer_tag_text(channel_id, unique),
{
    let unique = random_uuid();
    consumer_tag(channel_id, unique.as_str())
}

/// The queues of a consumer could not be set up.
#[derive(Clone, Copy, Debug, PartialEq, Eq)]
pub struct QueueSetupFailure {}

/// The two channels of a consumer.
#[derive(Clone, Copy, Debug, PartialEq, Eq)]
pub enum ChannelRole {
    /// The channel that the jobs come in on.
    Consuming,
    /// The channel that the responses go out on.
    Publishing,
}

/// The outcome of the action that the supervisor asked for last.
#[derive(Clone, Debug, PartialEq, Eq)]
pub enum SupervisorEvent {
    /// The action could not be carried out.
    Failed,
    /// The broker has the queue.
    QueueDeclared,
    /// The broker has the subscription.
    Subscribed,
    /// The outcome of an action of the consumer loop.
    Consumer { event: ConsumerEvent },
}

/// A [`SupervisorEvent`] as plain values.
pub enum SupervisorEventView {
    Failed,
    QueueDeclared,
    Subscribed,
    Consumer { event: ConsumerEventView },
}

impl View for SupervisorEvent {
    type V = SupervisorEventView;

    open spec fn view(&self) -> SupervisorEventView {
        match *self {
            SupervisorEvent::Failed => SupervisorEventView::Failed,
            SupervisorEvent::QueueDeclared => SupervisorEventView::QueueDeclared,
            SupervisorEvent::Subscribed => SupervisorEventView::Subscribed,
            SupervisorEvent::Consumer { event } => SupervisorEventView::Consumer { event: event@ },
        }
    }
}

/// What the caller is to do next.
#[derive(Debug, PartialEq, Eq)]
pub enum SupervisorAction {
    /// Declare `queue` on the given channel; as a durable queue if `durable`.
    DeclareQueue { channel: ChannelRole, queue: String, durable: bool },
    /// Subscribe to `queue` on the consuming channel, under `consumer_tag`.
    Subscribe { queue: String, consumer_tag: String },
    /// Carry out an action of the consumer loop.
    Consumer { action: ConsumerAction },
    /// Nothing is left to do. `outcome` is the result of the consumer loop,
    /// or the failure that kept it from starting.
    Finish { outcome: Result<Result<(), LoopFailure>, QueueSetupFailure> },
}

/// A [`SupervisorAction`] as plain values.
pub enum SupervisorActionView {
    DeclareQueue { channel: ChannelRole, queue: Seq<char>, durable: bool },
    Subscribe { queue: Seq<char>, consumer_tag: Seq<char> },
    Consumer { action: ConsumerActionView },
    Finish { outcome: Result<Result<(), LoopFailure>, QueueSetupFailure> },
}

impl View for SupervisorAction {
    type V = SupervisorActionView;

    open spec fn view(&self) -> SupervisorActionView {
        match *self {
            SupervisorAction::DeclareQueue { channel, queue, durable } => {
                SupervisorActionView::DeclareQueue { channel, queue: queue@, durable }
            },
            SupervisorAction::Subscribe { queue, consumer_tag } => SupervisorActionView::Subscribe {
                queue: queue@,
                consumer_tag: consumer_tag@,
            },
            SupervisorAction::Consumer { action } => SupervisorActionView::Consumer {
                action: action@,
            },
            SupervisorAction::Finish { outcome } => SupervisorActionView::Finish { outcome },
        }
    }
}

/// Where a supervisor stands.
#[derive(Debug, PartialEq, Eq)]
pub enum SupervisorState {
    /// The format's queue is being declared.
    DeclaringInbound { queue: String, consumer_tag: String },
    /// The response queue is being declared.
    DeclaringOutbound { queue: String, consumer_tag: String },
    /// The subscription is being registered.
    Subscribing,
    /// The consumer loop is running.
    Running { consumer: ConsumerState },
    /// The supervisor has ended.
    Finished { outcome: Result<Result<(), LoopFailure>, QueueSetupFailure> },
}

/// A [`SupervisorState`] as plain values.
pub enum SupervisorStateView {
    DeclaringInbound { queue: Seq<char>, consumer_tag: Seq<char> },
    DeclaringOutbound { queue: Seq<char>, consumer_tag: Seq<char> },
    Subscribing,
    Running { consumer: ConsumerStateView },
    Finished { outcome: Result<Result<(), LoopFailure>, QueueSetupFailure> },
}

impl View for SupervisorState {
    type V = SupervisorStateView;

    open spec fn view(&self) -> SupervisorStateView {
        match *self {
            SupervisorState::DeclaringInbound { queue, consumer_tag } => {
                SupervisorStateView::DeclaringInbound { queue: queue@, consumer_tag: consumer_tag@ }
            },
            SupervisorState::DeclaringOutbound { queue, consumer_tag } => {
                SupervisorStateView::DeclaringOutbound { queue: queue@, consumer_tag: consumer_tag@ }
            },
            SupervisorState::Subscribing => SupervisorStateView::Subscribing,
            SupervisorState::Running { consumer } => SupervisorStateView::Running {
                consumer: consumer@,
            },
            SupervisorState::Finished { outcome } => SupervisorStateView::Finished { outcome },
        }
    }
}

/// The end of a supervisor.
pub open spec fn finished(outcome: Result<Result<(), LoopFailure>, QueueSetupFailure>) -> (
    SupervisorStateView,
    SupervisorActionView,
) {
    (SupervisorStateView::Finished { outcome }, SupervisorActionView::Finish { outcome })
}

/// The supervisor with a loop that has just been begun or moved on: a loop
/// that has stopped ends the supervisor with the loop's result, any other
/// goes on.
pub open spec fn supervised(consumer: (ConsumerStateView, ConsumerActionView)) -> (
    SupervisorStateView,
    SupervisorActionView,
) {
    match consumer.0 {
        ConsumerStateView::Stopped { result } => finished(Ok(result)),
        _ => (
            SupervisorStateView::Running { consumer: consumer.0 },
            SupervisorActionView::Consumer { action: consumer.1 },
        ),
    }
}

/// What an event tells the consumer loop: its own events as they are, any
/// other as the failure of what it was waiting for.
pub open spec fn consumer_event(event: SupervisorEventView) -> ConsumerEventView {
    match event {
        SupervisorEventView::Consumer { event } => event,
        _ => ConsumerEventView::Failed,
    }
}

impl SupervisorStateView {
    /// How a supervisor begins: it has the queue of its format declared.
    pub open spec fn start(queue: Seq<char>, consumer_tag: Seq<char>) -> (
        SupervisorStateView,
        SupervisorActionView,
    ) {
        (
            SupervisorStateView::DeclaringInbound { queue, consumer_tag },
            SupervisorActionView::DeclareQueue {
                channel: ChannelRole::Consuming,
                queue,
                durable: true,
            },
        )
    }

    /// How a supervisor goes on when the outcome of its pending action is
    /// known. Jobs are encoded by `processor`, with their scratch files in
    /// `scratch_dir`.
    pub open spec fn step<P: FileProcessor>(
        self,
        processor: P,
        scratch_dir: Seq<char>,
        event: SupervisorEventView,
    ) -> (SupervisorStateView, SupervisorActionView) {
        match self {
            SupervisorStateView::DeclaringInbound { queue, consumer_tag } => match event {
                SupervisorEventView::QueueDeclared => (
                    SupervisorStateView::DeclaringOutbound { queue, consumer_tag },
                    SupervisorActionView::DeclareQueue {
                        channel: ChannelRole::Publishing,
                        queue: response_queue(),
                        durable: true,
                    },
                ),
                _ => finished(Err(QueueSetupFailure {  })),
            },
            SupervisorStateView::DeclaringOutbound { queue, consumer_tag } => match event {
                SupervisorEventView::QueueDeclared => (
                    SupervisorStateView::Subscribing,
                    SupervisorActionView::Subscribe { queue, consumer_tag },
                ),
                _ => finished(Err(QueueSetupFailure {  })),
            },
            SupervisorStateView::Subscribing => match event {
                SupervisorEventView::Subscribed => supervised(ConsumerStateView::start()),
                _ => finished(Err(QueueSetupFailure {  })),
            },
            SupervisorStateView::Running { consumer } => supervised(
                consumer.step(processor, scratch_dir, consumer_event(event)),
            ),
            SupervisorStateView::Finished { outcome } => (
                self,
                SupervisorActionView::Finish { outcome },
            ),
        }
    }
}

fn finish(outcome: Result<Result<(), LoopFailure>, QueueSetupFailure>) -> (ended: (
    SupervisorState,
    SupervisorAction,
))
    ensures
        (ended.0@, ended.1@) == finished(outcome),
{
    (SupervisorState::Finished { outcome }, SupervisorAction::Finish { outcome })
}

fn supervise(consumer: (ConsumerState, ConsumerAction)) -> (next: (SupervisorState, SupervisorAction))
    ensures
        (next.0@, next.1@) == supervised((consumer.0@, consumer.1@)),
{
    match consumer.0 {
        ConsumerState::Stopped { result } => finish(Ok(result)),
        state => (
            SupervisorState::Running { consumer: state },
            SupervisorAction::Consumer { action: consumer.1 },
        ),
    }
}

impl SupervisorState {
    /// Begins the supervision of the consumer of `queue`, which subscribes
    /// under `consumer_tag`.
    pub fn start(queue: &str, consumer_tag: String) -> (begun: (SupervisorState, SupervisorAction))
        ensures
            (begun.0@, begun.1@) == SupervisorStateView::start(queue@, consumer_tag@),
    {
        (
            SupervisorState::DeclaringInbound { queue: queue.to_owned(), consumer_tag },
            SupervisorAction::DeclareQueue {
                channel: ChannelRole::Consuming,
                queue: queue.to_owned(),
                durable: true,
            },
        )
    }

    /// Takes the outcome of the pending action and answers with the next one.
    /// Jobs are encoded by `processor`, with their scratch files in
    /// `scratch_dir`.
    pub fn step<P: FileProcessor>(self, processor: &P, scratch_dir: &str, event: SupervisorEvent) -> (next:
        (SupervisorState, SupervisorAction))
        ensures
            (next.0@, next.1@) == self@.step(*processor, scratch_dir@, event@),
    {
        match self {
            SupervisorState::DeclaringInbound { queue, consumer_tag } => match event {
                SupervisorEvent::QueueDeclared => (
                    SupervisorState::DeclaringOutbound { queue, consumer_tag },
                    SupervisorAction::DeclareQueue {
                        channel: ChannelRole::Publishing,
                        queue: "process_variant".to_owned(),
                        durable: true,
                    },
                ),
                _ => finish(Err(QueueSetupFailure {  })),
            },
            SupervisorState::DeclaringOutbound { queue, consumer_tag } => match event {
                SupervisorEvent::QueueDeclared => (
                    SupervisorState::Subscribing,
                    SupervisorAction::Subscribe { queue, consumer_tag },
                ),
                _ => finish(Err(QueueSetupFailure {  })),
            },
            SupervisorState::Subscribing => match event {
                SupervisorEvent::Subscribed => supervise(ConsumerState::start()),
                _ => finish(Err(QueueSetupFailure {  })),
            },
            SupervisorState::Running { consumer } => {
                let told = match event {
                    SupervisorEvent::Consumer { event } => event,
                    _ => ConsumerEvent::Failed,
                };
                supervise(consumer.step(processor, scratch_dir, told))
            },
            SupervisorState::Finished { outcome } => (
                SupervisorState::Finished { outcome },
                SupervisorAction::Finish { outcome },
            ),
        }
    }
}

} // verus!
