use kakigoori_worker::file_processors::{Avif, FileProcessor, WebP};
use kakigoori_worker::json_messages::{MalformedMessage, TaskRequest, TaskResponse};
use kakigoori_worker::task::{Job, TaskAction, TaskEvent, TaskFailure, TaskState};

const SEVENTEEN: [u8; 17] = [137, 80, 78, 71, 13, 10, 26, 10, 0, 0, 0, 13, 73, 72, 68, 82, 255];

fn message(file: &[u8], id: &str) -> Vec<u8> {
    TaskRequest { original_file: file.to_vec(), variant_id: id.to_string() }.to_vec().unwrap()
}

fn job(dir: &str, id: &str) -> Job {
    Job {
        variant_id: id.to_string(),
        input_path: format!("{}/{}_input", dir, id),
        output_path: format!("{}/{}_output", dir, id),
    }
}

/// Feeds the events to a job begun on `raw` and collects every action.
fn run(raw: &[u8], dir: &str, events: Vec<TaskEvent>) -> (TaskState, Vec<TaskAction>) {
    let (mut state, first) = TaskState::start(&Avif {}, dir, raw);
    let mut actions = vec![first];
    for event in events {
        let (next, action) = state.step(event);
        state = next;
        actions.push(action);
    }
    (state, actions)
}

fn failed(failure: TaskFailure) -> (TaskState, TaskAction) {
    (TaskState::Finished { result: Err(failure) }, TaskAction::Finish { result: Err(failure) })
}

#[test]
fn successful_avif_job_publishes_the_encoders_output() {
    let output = b"stub output".to_vec();
    let (state, actions) = run(
        &message(&SEVENTEEN, "abc123"),
        "",
        vec![
            TaskEvent::ScratchWritten,
            TaskEvent::EncoderExited { code: Some(0) },
            TaskEvent::ScratchRead { contents: output.clone() },
            TaskEvent::ScratchRemoved,
            TaskEvent::ScratchRemoved,
            TaskEvent::Published,
        ],
    );
    assert_eq!(state, TaskState::Finished { result: Ok(()) });
    assert_eq!(actions.len(), 7);
    assert_eq!(
        actions[0],
        TaskAction::WriteScratch { path: "/abc123_input".to_string(), contents: SEVENTEEN.to_vec() }
    );
    assert_eq!(
        actions[1],
        TaskAction::RunEncoder { invocation: (Avif {}).process("/abc123_input", "/abc123_output") }
    );
    assert_eq!(actions[2], TaskAction::ReadScratch { path: "/abc123_output".to_string() });
    assert_eq!(actions[3], TaskAction::RemoveScratch { path: "/abc123_input".to_string() });
    assert_eq!(actions[4], TaskAction::RemoveScratch { path: "/abc123_output".to_string() });
    match &actions[5] {
        TaskAction::Publish { exchange, routing_key, payload } => {
            assert_eq!(exchange, "");
            assert_eq!(routing_key, "process_variant");
            assert_eq!(
                TaskResponse::from_slice(payload),
                Ok(TaskResponse { variant_file: output, variant_id: "abc123".to_string() })
            );
        },
        other => panic!("expected a publish, got {:?}", other),
    }
    assert_eq!(actions[6], TaskAction::Finish { result: Ok(()) });
}

#[test]
fn successful_job_publishes_exactly_once() {
    let (_, actions) = run(
        &message(b"file", "v1"),
        "/tmp",
        vec![
            TaskEvent::ScratchWritten,
            TaskEvent::EncoderExited { code: Some(0) },
            TaskEvent::ScratchRead { contents: vec![1, 2, 3] },
            TaskEvent::ScratchRemoved,
            TaskEvent::ScratchRemoved,
            TaskEvent::Published,
            TaskEvent::Published,
            TaskEvent::ScratchRemoved,
        ],
    );
    let publishes = actions.iter().filter(|action| matches!(action, TaskAction::Publish { .. })).count();
    assert_eq!(publishes, 1);
    assert_eq!(
        actions[5],
        TaskAction::Publish {
            exchange: "".to_string(),
            routing_key: "process_variant".to_string(),
            payload: b"{\"variant_file\":\"AQID\",\"variant_id\":\"v1\"}".to_vec(),
        }
    );
    assert_eq!(actions[7], TaskAction::Finish { result: Ok(()) });
    assert_eq!(actions[8], TaskAction::Finish { result: Ok(()) });
}

#[test]
fn scratch_files_lie_in_the_scratch_directory() {
    let (state, first) = TaskState::start(&WebP {}, "/var/scratch", &message(b"x", "id-7"));
    assert_eq!(
        state,
        TaskState::WritingInput {
            job: job("/var/scratch", "id-7"),
            encoder: (WebP {}).process("/var/scratch/id-7_input", "/var/scratch/id-7_output"),
        }
    );
    assert_eq!(
        first,
        TaskAction::WriteScratch { path: "/var/scratch/id-7_input".to_string(), contents: b"x".to_vec() }
    );
}

#[test]
fn malformed_message_fails_before_any_scratch_file() {
    for (raw, reason) in [
        (&b"not json"[..], MalformedMessage::InvalidJson),
        (b"{\"variant_id\":\"abc123\"}", MalformedMessage::MissingField),
        (b"{\"original_file\":\"aGk=\"}", MalformedMessage::MissingField),
        (b"{\"original_file\":[1,2],\"variant_id\":\"abc123\"}", MalformedMessage::MissingField),
        (b"{\"original_file\":\"***\",\"variant_id\":\"abc123\"}", MalformedMessage::InvalidBase64),
    ] {
        let failure = TaskFailure::MalformedMessage(reason);
        let (state, actions) = run(
            raw,
            "/tmp",
            vec![TaskEvent::ScratchWritten, TaskEvent::EncoderExited { code: Some(0) }, TaskEvent::Published],
        );
        assert_eq!(state, TaskState::Finished { result: Err(failure) });
        assert_eq!(actions.len(), 4);
        for action in actions {
            assert_eq!(action, TaskAction::Finish { result: Err(failure) });
        }
    }
}

#[test]
fn failed_scratch_write_fails_the_job() {
    let (state, _) = TaskState::start(&Avif {}, "/tmp", &message(b"x", "a"));
    assert_eq!(state.step(TaskEvent::Failed), failed(TaskFailure::ScratchWriteFailure));
    let (state, _) = TaskState::start(&Avif {}, "/tmp", &message(b"x", "a"));
    assert_eq!(state.step(TaskEvent::Published), failed(TaskFailure::ScratchWriteFailure));
}

#[test]
fn encoder_that_cannot_be_launched_fails_the_job() {
    let state = TaskState::Encoding { job: job("/tmp", "a") };
    assert_eq!(state.step(TaskEvent::Failed), failed(TaskFailure::LaunchFailure));
    let state = TaskState::Encoding { job: job("/tmp", "a") };
    assert_eq!(state.step(TaskEvent::ScratchWritten), failed(TaskFailure::LaunchFailure));
}

#[test]
fn encoder_that_exits_non_zero_fails_the_job_and_leaves_the_input() {
    for code in [Some(1), Some(-1), Some(255), Some(i32::MAX), None] {
        let (state, actions) = run(
            &message(&SEVENTEEN, "abc123"),
            "/tmp",
            vec![
                TaskEvent::ScratchWritten,
                TaskEvent::EncoderExited { code },
                TaskEvent::ScratchRead { contents: vec![1] },
                TaskEvent::ScratchRemoved,
                TaskEvent::Published,
            ],
        );
        let failure = TaskFailure::EncodeFailure { status: code };
        assert_eq!(state, TaskState::Finished { result: Err(failure) });
        assert!(matches!(actions[0], TaskAction::WriteScratch { .. }));
        assert!(matches!(actions[1], TaskAction::RunEncoder { .. }));
        for action in &actions[2..] {
            assert_eq!(*action, TaskAction::Finish { result: Err(failure) });
        }
    }
}

#[test]
fn failed_scratch_read_fails_the_job() {
    let state = TaskState::ReadingOutput { job: job("/tmp", "a") };
    assert_eq!(state.step(TaskEvent::Failed), failed(TaskFailure::ScratchReadFailure));
    let state = TaskState::ReadingOutput { job: job("/tmp", "a") };
    assert_eq!(state.step(TaskEvent::ScratchRemoved), failed(TaskFailure::ScratchReadFailure));
}

#[test]
fn failed_cleanup_fails_the_job_without_publishing() {
    let state = TaskState::RemovingInput { job: job("/tmp", "a"), variant_file: vec![1] };
    assert_eq!(state.step(TaskEvent::Failed), failed(TaskFailure::ScratchCleanupFailure));
    let state = TaskState::RemovingOutput { job: job("/tmp", "a"), variant_file: vec![1] };
    assert_eq!(state.step(TaskEvent::Failed), failed(TaskFailure::ScratchCleanupFailure));
    let (state, actions) = run(
        &message(b"x", "a"),
        "/tmp",
        vec![
            TaskEvent::ScratchWritten,
            TaskEvent::EncoderExited { code: Some(0) },
            TaskEvent::ScratchRead { contents: vec![1] },
            TaskEvent::Failed,
            TaskEvent::ScratchRemoved,
            TaskEvent::Published,
        ],
    );
    assert_eq!(state, TaskState::Finished { result: Err(TaskFailure::ScratchCleanupFailure) });
    assert!(actions.iter().all(|action| !matches!(action, TaskAction::Publish { .. })));
}

#[test]
fn refused_publish_fails_the_job() {
    assert_eq!(TaskState::Publishing.step(TaskEvent::Failed), failed(TaskFailure::PublishFailure));
    assert_eq!(
        TaskState::Publishing.step(TaskEvent::ScratchRemoved),
        failed(TaskFailure::PublishFailure)
    );
    assert_eq!(
        TaskState::Publishing.step(TaskEvent::Published),
        (TaskState::Finished { result: Ok(()) }, TaskAction::Finish { result: Ok(()) })
    );
}

#[test]
fn each_step_asks_for_the_next() {
    let held = job("/s", "j");
    assert_eq!(
        (TaskState::Encoding { job: held.clone() }).step(TaskEvent::EncoderExited { code: Some(0) }),
        (
            TaskState::ReadingOutput { job: held.clone() },
            TaskAction::ReadScratch { path: "/s/j_output".to_string() }
        )
    );
    assert_eq!(
        (TaskState::ReadingOutput { job: held.clone() }).step(TaskEvent::ScratchRead { contents: vec![9] }),
        (
            TaskState::RemovingInput { job: held.clone(), variant_file: vec![9] },
            TaskAction::RemoveScratch { path: "/s/j_input".to_string() }
        )
    );
    assert_eq!(
        (TaskState::RemovingInput { job: held.clone(), variant_file: vec![9] }).step(TaskEvent::ScratchRemoved),
        (
            TaskState::RemovingOutput { job: held.clone(), variant_file: vec![9] },
            TaskAction::RemoveScratch { path: "/s/j_output".to_string() }
        )
    );
    assert_eq!(
        (TaskState::RemovingOutput { job: held, variant_file: vec![9] }).step(TaskEvent::ScratchRemoved),
        (
            TaskState::Publishing,
            TaskAction::Publish {
                exchange: "".to_string(),
                routing_key: "process_variant".to_string(),
                payload: b"{\"variant_file\":\"CQ==\",\"variant_id\":\"j\"}".to_vec(),
            }
        )
    );
}

#[test]
fn ended_job_stays_ended() {
    for result in [Ok(()), Err(TaskFailure::PublishFailure), Err(TaskFailure::LaunchFailure)] {
        for event in [
            TaskEvent::Failed,
            TaskEvent::ScratchWritten,
            TaskEvent::EncoderExited { code: Some(0) },
            TaskEvent::ScratchRead { contents: vec![] },
            TaskEvent::ScratchRemoved,
            TaskEvent::Published,
        ] {
            assert_eq!(
                (TaskState::Finished { result }).step(event),
                (TaskState::Finished { result }, TaskAction::Finish { result })
            );
        }
    }
}

#[test]
fn jobs_with_distinct_identifiers_touch_distinct_files() {
    let events = || {
        vec![
            TaskEvent::ScratchWritten,
            TaskEvent::EncoderExited { code: Some(0) },
            TaskEvent::ScratchRead { contents: vec![1] },
            TaskEvent::ScratchRemoved,
            TaskEvent::ScratchRemoved,
            TaskEvent::Published,
        ]
    };
    let touched = |actions: &Vec<TaskAction>| -> Vec<String> {
        actions
            .iter()
            .filter_map(|action| match action {
                TaskAction::WriteScratch { path, .. } => Some(path.clone()),
                TaskAction::ReadScratch { path } => Some(path.clone()),
                TaskAction::RemoveScratch { path } => Some(path.clone()),
                _ => None,
            })
            .collect()
    };
    for (one, other) in [("a", "b"), ("a", "a_input"), ("x_output", "x"), ("", "_"), ("1", "11")] {
        let first = touched(&run(&message(b"1", one), "/tmp", events()).1);
        let second = touched(&run(&message(b"2", other), "/tmp", events()).1);
        assert_eq!(first.len(), 4);
        assert_eq!(second.len(), 4);
        for path in &first {
            assert!(!second.contains(path));
        }
    }
}
