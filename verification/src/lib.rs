//! The decision logic of an image-transcoding worker.
//!
//! A worker drains one broker queue per image format, hands each job to an
//! external encoder and publishes the encoded file. Everything here is pure:
//! the modules say what has to be done next and how each outcome is judged,
//! and leave the doing (broker traffic, scratch files, encoder processes) to
//! the caller.
//!
//! The work is laid out as four state machines, each run inside the one
//! before it:
//!
//! - [`bootstrap`]: the process, from its configuration to its exit status;
//! - [`supervisor`]: the consumer of one format, from the setup of its queues
//!   to the end of its loop;
//! - [`consumer`]: the loop that takes one message after the other and
//!   acknowledges each;
//! - [`task`]: one job, from the message to the published response.
//!
//! Each machine has a `start` and a `step`. Both answer with the next state
//! and an action; the caller carries the action out and hands the outcome to
//! `step` as an event. [`json_messages`] holds the wire format of requests
//! and responses, [`file_processors`] the encoders and their arguments. The
//! modules whose names end in `_laws` state and prove what holds of every run
//! of a machine.

pub mod bootstrap;
pub mod bootstrap_laws;
pub mod consumer;
pub mod consumer_laws;
pub mod file_processors;
pub mod json_messages;
pub mod supervisor;
pub mod supervisor_laws;
pub mod task;
pub mod task_laws;
