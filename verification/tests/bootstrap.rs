use kakigoori_worker::bootstrap::{
    enabled_formats, formats_in, Config, ProcessAction, ProcessEvent, ProcessState,
};
use kakigoori_worker::consumer::LoopFailure;
use kakigoori_worker::file_processors::Format;
use kakigoori_worker::supervisor::QueueSetupFailure;

fn config(names: &str) -> Config {
    Config::from_environment(Some("amqp://broker:5672/%2f".to_string()), Some(names.to_string()))
}

/// Feeds the events to a process begun with `config` and collects every
/// action.
fn run(config: Config, events: Vec<ProcessEvent>) -> (ProcessState, Vec<ProcessAction>) {
    let (mut state, first) = ProcessState::start(config);
    let mut actions = vec![first];
    for event in events {
        let (next, action) = state.step(event);
        state = next;
        actions.push(action);
    }
    (state, actions)
}

fn start(format: Format) -> ProcessAction {
    ProcessAction::StartConsumer { format, queue: format.queue() }
}

fn close() -> ProcessAction {
    ProcessAction::Close { reply_code: 200, reply_text: "Normal shutdown".to_string() }
}

#[test]
fn unknown_formats_are_skipped() {
    assert_eq!(enabled_formats("avif,bogus,webp"), vec![Format::Avif, Format::WebP]);
    assert_eq!(formats_in("avif,bogus,webp"), vec![Format::Avif, Format::WebP]);
}

#[test]
fn formats_are_read_without_regard_to_case() {
    assert_eq!(enabled_formats("AVIF,WebP"), vec![Format::Avif, Format::WebP]);
    assert_eq!(enabled_formats("wEBp"), vec![Format::WebP]);
    assert_eq!(formats_in("AVIF,WebP"), Vec::<Format>::new());
}

#[test]
fn formats_keep_their_order_and_their_repeats() {
    assert_eq!(formats_in("webp,avif"), vec![Format::WebP, Format::Avif]);
    assert_eq!(formats_in("avif,avif,webp,avif"), vec![
        Format::Avif,
        Format::Avif,
        Format::WebP,
        Format::Avif
    ]);
}

#[test]
fn only_whole_pieces_between_commas_name_a_format() {
    for names in ["", ",", ",,,", "bogus", "avif webp", " avif", "avif ", "avifwebp", "avi,f", "web,p", "avif;webp"] {
        assert_eq!(formats_in(names), Vec::<Format>::new());
    }
    for names in [",avif", "avif,", ",avif,", ",,avif,,", "x,avif,y"] {
        assert_eq!(formats_in(names), vec![Format::Avif]);
    }
    assert_eq!(formats_in("\u{e9},webp,\u{1F600}"), vec![Format::WebP]);
}

#[test]
fn settings_that_are_not_there_have_defaults() {
    let config = Config::from_environment(None, None);
    assert_eq!(
        config,
        Config {
            address: "amqp://127.0.0.1:5672/%2f".to_string(),
            formats: vec![Format::Avif, Format::WebP]
        }
    );
    assert_eq!(config.formats, enabled_formats("avif,webp"));
}

#[test]
fn settings_that_are_there_are_taken() {
    let config = Config::from_environment(Some("amqp://h/v".to_string()), Some("WEBP".to_string()));
    assert_eq!(config, Config { address: "amqp://h/v".to_string(), formats: vec![Format::WebP] });
    let config = Config::from_environment(None, Some("".to_string()));
    assert_eq!(config.address, "amqp://127.0.0.1:5672/%2f");
    assert_eq!(config.formats, Vec::<Format>::new());
    let config = Config::from_environment(Some("".to_string()), None);
    assert_eq!(config.address, "");
    assert_eq!(config.formats, vec![Format::Avif, Format::WebP]);
}

#[test]
fn process_begins_by_connecting() {
    let (state, actions) = run(config("avif"), vec![]);
    assert_eq!(state, ProcessState::Connecting { formats: vec![Format::Avif] });
    assert_eq!(
        actions,
        vec![ProcessAction::Connect {
            address: "amqp://broker:5672/%2f".to_string(),
            connection_name: "kakigoori-worker".to_string()
        }]
    );
}

#[test]
fn avif_bogus_webp_starts_two_consumers() {
    let (state, actions) = run(
        config("avif,bogus,webp"),
        vec![ProcessEvent::Connected, ProcessEvent::ConsumerStarted, ProcessEvent::ConsumerStarted],
    );
    assert_eq!(state, ProcessState::Awaiting { consumers: 2, ended: 0, failed: false });
    assert_eq!(actions.len(), 4);
    assert_eq!(
        actions[1],
        ProcessAction::StartConsumer { format: Format::Avif, queue: "kakigoori_avif".to_string() }
    );
    assert_eq!(
        actions[2],
        ProcessAction::StartConsumer { format: Format::WebP, queue: "kakigoori_webp".to_string() }
    );
    assert_eq!(actions[3], ProcessAction::AwaitConsumer { index: 0 });
    let started =
        actions.iter().filter(|action| matches!(action, ProcessAction::StartConsumer { .. })).count();
    assert_eq!(started, 2);
}

#[test]
fn unreachable_broker_exits_non_zero_without_starting_a_consumer() {
    for answer in [
        ProcessEvent::Failed,
        ProcessEvent::ConsumerStarted,
        ProcessEvent::Closed,
        ProcessEvent::ConsumerEnded { outcome: Ok(Ok(())) },
    ] {
        let (state, actions) = run(
            Config::from_environment(None, None),
            vec![answer, ProcessEvent::Connected, ProcessEvent::ConsumerStarted],
        );
        assert_eq!(state, ProcessState::Exited { status: 1 });
        assert_eq!(
            actions,
            vec![
                ProcessAction::Connect {
                    address: "amqp://127.0.0.1:5672/%2f".to_string(),
                    connection_name: "kakigoori-worker".to_string()
                },
                ProcessAction::Exit { status: 1 },
                ProcessAction::Exit { status: 1 },
                ProcessAction::Exit { status: 1 },
            ]
        );
    }
}

#[test]
fn consumer_that_cannot_start_exits_non_zero_at_once() {
    let (state, actions) = run(
        config("avif,webp"),
        vec![ProcessEvent::Connected, ProcessEvent::ConsumerStarted, ProcessEvent::Failed],
    );
    assert_eq!(state, ProcessState::Exited { status: 1 });
    assert_eq!(actions[1], start(Format::Avif));
    assert_eq!(actions[2], start(Format::WebP));
    assert_eq!(actions[3], ProcessAction::Exit { status: 1 });
}

#[test]
fn process_waits_for_every_consumer_then_closes_and_exits() {
    let (state, actions) = run(
        config("webp,avif"),
        vec![
            ProcessEvent::Connected,
            ProcessEvent::ConsumerStarted,
            ProcessEvent::ConsumerStarted,
            ProcessEvent::ConsumerEnded { outcome: Ok(Ok(())) },
            ProcessEvent::ConsumerEnded { outcome: Ok(Ok(())) },
            ProcessEvent::Closed,
        ],
    );
    assert_eq!(state, ProcessState::Exited { status: 0 });
    assert_eq!(
        actions[1..],
        [
            start(Format::WebP),
            start(Format::Avif),
            ProcessAction::AwaitConsumer { index: 0 },
            ProcessAction::AwaitConsumer { index: 1 },
            close(),
            ProcessAction::Exit { status: 0 },
        ]
    );
}

#[test]
fn failed_close_is_no_failure() {
    let (state, _) = run(
        config("avif"),
        vec![
            ProcessEvent::Connected,
            ProcessEvent::ConsumerStarted,
            ProcessEvent::ConsumerEnded { outcome: Ok(Ok(())) },
            ProcessEvent::Failed,
        ],
    );
    assert_eq!(state, ProcessState::Exited { status: 0 });
}

#[test]
fn failed_consumer_is_reported_after_all_have_ended() {
    for outcome in [
        Err(QueueSetupFailure {}),
        Ok(Err(LoopFailure::StreamFailure)),
        Ok(Err(LoopFailure::AcknowledgeFailure)),
    ] {
        for failing in 0..2 {
            let mut events = vec![
                ProcessEvent::Connected,
                ProcessEvent::ConsumerStarted,
                ProcessEvent::ConsumerStarted,
            ];
            for consumer in 0..2 {
                events.push(ProcessEvent::ConsumerEnded {
                    outcome: if consumer == failing { outcome } else { Ok(Ok(())) },
                });
            }
            events.push(ProcessEvent::Closed);
            let (state, actions) = run(config("avif,webp"), events);
            assert_eq!(state, ProcessState::Exited { status: 1 });
            assert_eq!(
                actions[3..],
                [
                    ProcessAction::AwaitConsumer { index: 0 },
                    ProcessAction::AwaitConsumer { index: 1 },
                    close(),
                    ProcessAction::Exit { status: 1 },
                ]
            );
        }
    }
}

#[test]
fn consumer_that_cannot_be_waited_for_exits_non_zero_at_once() {
    let (state, actions) = run(
        config("avif,webp"),
        vec![
            ProcessEvent::Connected,
            ProcessEvent::ConsumerStarted,
            ProcessEvent::ConsumerStarted,
            ProcessEvent::Failed,
        ],
    );
    assert_eq!(state, ProcessState::Exited { status: 1 });
    assert_eq!(actions[4], ProcessAction::Exit { status: 1 });
}

#[test]
fn process_without_formats_closes_at_once() {
    let (state, actions) = run(config("bogus"), vec![ProcessEvent::Connected, ProcessEvent::Closed]);
    assert_eq!(state, ProcessState::Exited { status: 0 });
    assert_eq!(actions[1..], [close(), ProcessAction::Exit { status: 0 }]);
}

#[test]
fn exited_process_stays_exited() {
    for status in [0, 1] {
        for event in [ProcessEvent::Connected, ProcessEvent::Failed, ProcessEvent::Closed] {
            assert_eq!(
                (ProcessState::Exited { status }).step(event),
                (ProcessState::Exited { status }, ProcessAction::Exit { status })
            );
        }
    }
}
