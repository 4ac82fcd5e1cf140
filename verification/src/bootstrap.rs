//! The life of the worker process, as a state machine, and the configuration
//! it starts from.
//!
//! The process connects to the broker, starts one consumer for each enabled
//! format, waits until every one of them has ended, closes the connection and
//! exits. A failure before all consumers are started ends it at once.

use crate::consumer::LoopFailure;
use crate::file_processors::Format;
use crate::supervisor::QueueSetupFailure;
use vstd::prelude::*;
use vstd::string::*;

verus! {

/// The text that `str::to_lowercase` gives for `text`.
pub uninterp spec fn lowercase(text: Seq<char>) -> Seq<char>;

/// Calls `str::to_lowercase` of the standard library.
///
/// Trusted: the result depends on the text alone.
#[verifier::external_body]
fn to_lowercase(text: &str) -> (lower: String)
    ensures
        lower@ == lowercase(text@),
{
    text.to_lowercase()
}

/// The pieces of a text between its commas, in order. A text without a comma
/// is one piece, and so is the empty text.
pub open spec fn split_commas(text: Seq<char>) -> Seq<Seq<char>>
    decreases text.len(),
{
    if text.len() == 0 {
        seq![Seq::empty()]
    } else {
        let before = split_commas(text.drop_last());
        if text.last() == ',' {
            before.push(Seq::empty())
        } else {
            before.drop_last().push(before.last().push(text.last()))
        }
    }
}

/// The formats that the names name, in order. Names that name no format are
/// passed over.
pub open spec fn formats_named(names: Seq<Seq<char>>) -> Seq<Format>
    decreases names.len(),
{
    if names.len() == 0 {
        Seq::empty()
    } else {
        let before = formats_named(names.drop_last());
        match Format::named(names.last()) {
            Some(format) => before.push(format),
            None => before,
        }
    }
}

fn push_named(formats: &mut Vec<Format>, name: &str, Ghost(names): Ghost<Seq<Seq<char>>>)
    requires
        old(formats)@ == formats_named(names),
    ensures
        final(formats)@ == formats_named(names.push(name@)),
{
    assert(names.push(name@).drop_last() =~= names);
    match Format::from_name(name) {
        Some(format) => {
            formats.push(format);
        },
        None => {},
    }
}

/// The formats that a list of names enables: the list is cut at its commas,
/// and every piece that is `avif` or `webp` enables that format. Other pieces
/// are passed over; a format named twice is enabled twice.
pub fn formats_in(names: &str) -> (formats: Vec<Format>)
    ensures
        formats@ == formats_named(split_commas(names@)),
{
    let length = names.unicode_len();
    let mut formats: Vec<Format> = Vec::new();
    let mut start: usize = 0;
    let mut at: usize = 0;
    let ghost mut done: Seq<Seq<char>> = Seq::empty();
    assert(names@.subrange(0, 0) =~= Seq::<char>::empty());
    while at < length
        invariant
            start <= at <= length,
            length == names@.len(),
            split_commas(names@.take(at as int)) == done.push(
                names@.subrange(start as int, at as int),
            ),
            formats@ == formats_named(done),
        decreases length - at,
    {
        let ghost piece = names@.subrange(start as int, at as int);
        assert(names@.take(at + 1).drop_last() =~= names@.take(at as int));
        if names.get_char(at) == ',' {
            push_named(&mut formats, names.substring_char(start, at), Ghost(done));
            proof {
                done = done.push(piece);
                assert(names@.subrange(at + 1, at + 1) =~= Seq::<char>::empty());
            }
            start = at + 1;
        } else {
            assert(piece.push(names@[at as int]) =~= names@.subrange(start as int, at + 1));
        }
        at = at + 1;
    }
    assert(names@.take(length as int) =~= names@);
    push_named(&mut formats, names.substring_char(start, length), Ghost(done));
    formats
}

/// The formats that the setting `names` enables, read without regard to
/// case.
pub fn enabled_formats(names: &str) -> (formats: Vec<Format>)
    ensures
        formats@ == formats_named(split_commas(lowercase(names@))),
{
    let lower = to_lowercase(names);
    formats_in(lower.as_str())
}

/// What the worker is started with.
#[derive(Clone, Debug, PartialEq, Eq)]
pub struct Config {
    /// The address of the broker.
    pub address: String,
    /// The formats to start a consumer for, in order.
    pub formats: Vec<Format>,
}

/// A [`Config`] as plain values.
pub struct ConfigView {
    pub address: Seq<char>,
    pub formats: Seq<Format>,
}

impl View for Config {
    type V = ConfigView;

    open spec fn view(&self) -> ConfigView {
        ConfigView { address: self.address@, formats: self.formats@ }
    }
}

/// The address of a broker on this machine, used where none is set.
pub open spec fn default_address() -> Seq<char> {
    "amqp://127.0.0.1:5672/%2f"@
}

/// Every known format, enabled where no list is set.
pub open spec fn default_formats() -> Seq<Format> {
    seq![Format::Avif, Format::WebP]
}

/// The name under which the worker connects to the broker.
pub open spec fn connection_name() -> Seq<char> {
    "kakigoori-worker"@
}

/// The reply code of an orderly close.
pub open spec fn reply_success() -> u16 {
    200
}

/// The reply text of an orderly close.
pub open spec fn shutdown_text() -> Seq<char> {
    "Normal shutdown"@
}

impl ConfigView {
    /// The configuration that the two settings give; a setting that is not
    /// there has its default.
    pub open spec fn from_environment(
        address: Option<Seq<char>>,
        file_types: Option<Seq<char>>,
    ) -> ConfigView {
        ConfigView {
            address: match address {
                Some(address) => address,
                None => default_address(),
            },
            formats: match file_types {
                Some(names) => formats_named(split_commas(lowercase(names))),
                None => default_formats(),
            },
        }
    }
}

impl Config {
    /// Reads the configuration from the two settings of the environment: the
    /// broker's address and the list of enabled formats. A setting that is
    /// not there has its default: a broker on this machine, and every known
    /// format.
    pub fn from_environment(address: Option<String>, file_types: Option<String>) -> (config: Config)
        ensures
            config@ == ConfigView::from_environment(
                match address {
                    Some(address) => Some(address@),
                    None => None,
                },
                match file_types {
                    Some(names) => Some(names@),
                    None => None,
                },
            ),
    {
        let address = match address {
            Some(address) => address,
            None => "amqp://127.0.0.1:5672/%2f".to_owned(),
        };
        let formats = match file_types {
            Some(names) => enabled_formats(names.as_str()),
            None => {
                let mut formats: Vec<Format> = Vec::new();
                formats.push(Format::Avif);
                formats.push(Format::WebP);
                assert(formats@ =~= default_formats());
                formats
            },
        };
        Config { address, formats }
    }
}

/// The outcome of the action that the process asked for last.
#[derive(Clone, Copy, Debug, PartialEq, Eq)]
pub enum ProcessEvent {
    /// The action could not be carried out.
    Failed,
    /// The connection to the broker stands.
    Connected,
    /// The consumer has its two channels and is running.
    ConsumerStarted,
    /// The consumer has ended. `outcome` is the result of its loop, or the
    /// failure that kept the loop from starting.
    ConsumerEnded { outcome: Result<Result<(), LoopFailure>, QueueSetupFailure> },
    /// The connection is closed.
    Closed,
}

/// What the caller is to do next.
#[derive(Debug, PartialEq, Eq)]
pub enum ProcessAction {
    /// Connect to the broker at `address`, under `connection_name`.
    Connect { address: String, connection_name: String },
    /// Open two channels on the connection and start the consumer of `format`
    /// on them, for the jobs of `queue`. The consumer runs beside the others.
    StartConsumer { format: Format, queue: String },
    /// Wait until the consumer that was started as number `index`, counted
    /// from 0, has ended.
    AwaitConsumer { index: usize },
    /// Close the connection to the broker.
    Close { reply_code: u16, reply_text: String },
    /// End the process with `status`.
    Exit { status: i32 },
}

/// A [`ProcessAction`] as plain values.
pub enum ProcessActionView {
    Connect { address: Seq<char>, connection_name: Seq<char> },
    StartConsumer { format: Format, queue: Seq<char> },
    AwaitConsumer { index: nat },
    Close { reply_code: u16, reply_text: Seq<char> },
    Exit { status: i32 },
}

impl View for ProcessAction {
    type V = ProcessActionView;

    open spec fn view(&self) -> ProcessActionView {
        match *self {
            ProcessAction::Connect { address, connection_name } => ProcessActionView::Connect {
                address: address@,
                connection_name: connection_name@,
            },
            ProcessAction::StartConsumer { format, queue } => ProcessActionView::StartConsumer {
                format,
                queue: queue@,
            },
            ProcessAction::AwaitConsumer { index } => ProcessActionView::AwaitConsumer {
                index: index as nat,
            },
            ProcessAction::Close { reply_code, reply_text } => ProcessActionView::Close {
                reply_code,
                reply_text: reply_text@,
            },
            ProcessAction::Exit { status } => ProcessActionView::Exit { status },
        }
    }
}

/// Where the process stands.
#[derive(Debug, PartialEq, Eq)]
pub enum ProcessState {
    /// The connection to the broker is being made.
    Connecting { formats: Vec<Format> },
    /// The consumer of `formats[started]` is being started; those before it
    /// are running.
    Starting { formats: Vec<Format>, started: usize },
    /// All `consumers` consumers were started, and number `ended` is being
    /// waited for. `failed` tells whether one of those before it failed.
    Awaiting { consumers: usize, ended: usize, failed: bool },
    /// The connection is being closed. `failed` tells whether a consumer
    /// failed.
    Closing { failed: bool },
    /// The process has ended.
    Exited { status: i32 },
}

/// A [`ProcessState`] as plain values.
pub enum ProcessStateView {
    Connecting { formats: Seq<Format> },
    Starting { formats: Seq<Format>, started: nat },
    Awaiting { consumers: nat, ended: nat, failed: bool },
    Closing { failed: bool },
    Exited { status: i32 },
}

impl View for ProcessState {
    type V = ProcessStateView;

    open spec fn view(&self) -> ProcessStateView {
        match *self {
            ProcessState::Connecting { formats } => ProcessStateView::Connecting {
                formats: formats@,
            },
            ProcessState::Starting { formats, started } => ProcessStateView::Starting {
                formats: formats@,
                started: started as nat,
            },
            ProcessState::Awaiting { consumers, ended, failed } => ProcessStateView::Awaiting {
                consumers: consumers as nat,
                ended: ended as nat,
                failed,
            },
            ProcessState::Closing { failed } => ProcessStateView::Closing { failed },
            ProcessState::Exited { status } => ProcessStateView::Exited { status },
        }
    }
}

/// Whether a consumer ended without a failure: it was set up, and its loop
/// ran until the stream of messages ended.
pub open spec fn ended_well(outcome: Result<Result<(), LoopFailure>, QueueSetupFailure>) -> bool {
    match outcome {
        Ok(Ok(_)) => true,
        _ => false,
    }
}

/// The end of the process.
pub open spec fn exited(status: i32) -> (ProcessStateView, ProcessActionView) {
    (ProcessStateView::Exited { status }, ProcessActionView::Exit { status })
}

/// The process with `ended` of its `consumers` consumers seen to their end:
/// it waits for the next, and closes the connection when none is left.
pub open spec fn awaiting(consumers: nat, ended: nat, failed: bool) -> (
    ProcessStateView,
    ProcessActionView,
) {
    if ended < consumers {
        (
            ProcessStateView::Awaiting { consumers, ended, failed },
            ProcessActionView::AwaitConsumer { index: ended },
        )
    } else {
        (
            ProcessStateView::Closing { failed },
            ProcessActionView::Close { reply_code: reply_success(), reply_text: shutdown_text() },
        )
    }
}

/// The process with `started` of its consumers running: it starts the next,
/// and waits for them to end when none is left to start.
pub open spec fn starting(formats: Seq<Format>, started: nat) -> (
    ProcessStateView,
    ProcessActionView,
) {
    if started < formats.len() {
        (
            ProcessStateView::Starting { formats, started },
            ProcessActionView::StartConsumer {
                format: formats[started as int],
                queue: formats[started as int].queue_text(),
            },
        )
    } else {
        awaiting(formats.len(), 0, false)
    }
}

impl ProcessStateView {
    /// How the process begins: it connects to the broker.
    pub open spec fn start(config: ConfigView) -> (ProcessStateView, ProcessActionView) {
        (
            ProcessStateView::Connecting { formats: config.formats },
            ProcessActionView::Connect {
                address: config.address,
                connection_name: connection_name(),
            },
        )
    }

    /// How the process goes on when the outcome of its pending action is
    /// known.
    pub open spec fn step(self, event: ProcessEvent) -> (ProcessStateView, ProcessActionView) {
        match self {
            ProcessStateView::Connecting { formats } => match event {
                ProcessEvent::Connected => starting(formats, 0),
                _ => exited(1),
            },
            ProcessStateView::Starting { formats, started } => match event {
                ProcessEvent::ConsumerStarted => starting(formats, started + 1),
                _ => exited(1),
            },
            ProcessStateView::Awaiting { consumers, ended, failed } => match event {
                ProcessEvent::ConsumerEnded { outcome } => awaiting(
                    consumers,
                    ended + 1,
                    failed || !ended_well(outcome),
                ),
                _ => exited(1),
            },
            ProcessStateView::Closing { failed } => exited(
                if failed {
                    1
                } else {
                    0
                },
            ),
            ProcessStateView::Exited { status } => (self, ProcessActionView::Exit { status }),
        }
    }
}

fn exit(status: i32) -> (ended: (ProcessState, ProcessAction))
    ensures
        (ended.0@, ended.1@) == exited(status),
{
    (ProcessState::Exited { status }, ProcessAction::Exit { status })
}

fn await_next(consumers: usize, ended: usize, failed: bool) -> (next: (ProcessState, ProcessAction))
    ensures
        (next.0@, next.1@) == awaiting(consumers as nat, ended as nat, failed),
{
    if ended < consumers {
        (
            ProcessState::Awaiting { consumers, ended, failed },
            ProcessAction::AwaitConsumer { index: ended },
        )
    } else {
        (
            ProcessState::Closing { failed },
            ProcessAction::Close { reply_code: 200, reply_text: "Normal shutdown".to_owned() },
        )
    }
}

fn start_next(formats: Vec<Format>, started: usize) -> (next: (ProcessState, ProcessAction))
    ensures
        (next.0@, next.1@) == starting(formats@, started as nat),
{
    if started < formats.len() {
        let format = formats[started];
        let queue = format.queue();
        (ProcessState::Starting { formats, started }, ProcessAction::StartConsumer { format, queue })
    } else {
        await_next(formats.len(), 0, false)
    }
}

impl ProcessState {
    /// Begins the process with its configuration.
    pub fn start(config: Config) -> (begun: (ProcessState, ProcessAction))
        ensures
            (begun.0@, begun.1@) == ProcessStateView::start(config@),
    {
        (
            ProcessState::Connecting { formats: config.formats },
            ProcessAction::Connect {
                address: config.address,
                connection_name: "kakigoori-worker".to_owned(),
            },
        )
    }

    /// Takes the outcome of the pending action and answers with the next one.
    pub fn step(self, event: ProcessEvent) -> (next: (ProcessState, ProcessAction))
        ensures
            (next.0@, next.1@) == self@.step(event),
    {
        match self {
            ProcessState::Connecting { formats } => match event {
                ProcessEvent::Connected => start_next(formats, 0),
                _ => exit(1),
            },
            ProcessState::Starting { formats, started } => match event {
                ProcessEvent::ConsumerStarted => {
                    if started < formats.len() {
                        start_next(formats, started + 1)
                    } else {
                        await_next(formats.len(), 0, false)
                    }
                },
                _ => exit(1),
            },
            ProcessState::Awaiting { consumers, ended, failed } => match event {
                ProcessEvent::ConsumerEnded { outcome } => {
                    let well = match outcome {
                        Ok(Ok(_)) => true,
                        _ => false,
                    };
                    if ended < consumers {
                        await_next(consumers, ended + 1, failed || !well)
                    } else {
                        await_next(consumers, consumers, failed || !well)
                    }
                },
                _ => exit(1),
            },
            ProcessState::Closing { failed } => exit(
                if failed {
                    1
                } else {
                    0
                },
            ),
            ProcessState::Exited { status } => (
                ProcessState::Exited { status },
                ProcessAction::Exit { status },
            ),
        }
    }
}

} // verus!
