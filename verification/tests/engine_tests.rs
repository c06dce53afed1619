use espflash::codec::encode;
use espflash::connection::{Command, ConnectionError};
use espflash::engine::{
    backoff_delay, run_to_completion, Backoff, ChannelEvent, CommandEngine, EngineState,
    RetryPolicy,
};
use espflash::error::Error;
use espflash::status::RomError;

fn sync_command() -> Command {
    Command {
        code: 0x08,
        name: String::from("sync"),
        payload: vec![0x07, 0x07, 0x12, 0x20],
    }
}

fn policy(max_attempts: u32) -> RetryPolicy {
    RetryPolicy {
        timeout_ms: 100,
        max_attempts,
        backoff: Backoff::NoDelay,
    }
}

#[test]
fn exhausted_budget_times_out_naming_the_command() {
    let events = vec![
        ChannelEvent::TimedOut,
        ChannelEvent::TimedOut,
        ChannelEvent::TimedOut,
    ];
    let (outcome, attempts) = run_to_completion(sync_command(), policy(3), &events);
    assert_eq!(attempts, 3);
    match outcome.unwrap_err() {
        Error::Connection(ConnectionError::Timeout(t)) => {
            assert_eq!(t.command.unwrap().name, "sync");
        }
        other => panic!("expected a command-annotated timeout, got {:?}", other),
    }
}

#[test]
fn rejection_status_ends_the_loop_immediately() {
    let rejection = ChannelEvent::Frame(vec![0x01, 0x08, 0x07]);
    let events = vec![rejection, ChannelEvent::TimedOut, ChannelEvent::TimedOut];
    let (outcome, attempts) = run_to_completion(sync_command(), policy(3), &events);
    assert_eq!(attempts, 1);
    assert_eq!(
        outcome.unwrap_err(),
        Error::RomError(RomError::InvalidCrc)
    );
}

#[test]
fn matching_success_response_yields_its_data() {
    let response = ChannelEvent::Frame(vec![0x01, 0x08, 0x00, 0xaa, 0xbb]);
    let events = vec![response];
    let (outcome, attempts) = run_to_completion(sync_command(), policy(1), &events);
    assert_eq!(attempts, 1);
    assert_eq!(outcome.unwrap(), vec![0xaa, 0xbb]);
}

#[test]
fn channel_faults_are_retried_until_a_response_arrives() {
    let events = vec![
        ChannelEvent::FrameMalformed,
        ChannelEvent::FrameOversized,
        ChannelEvent::Frame(vec![0x01, 0x08, 0x00]),
    ];
    let (outcome, attempts) = run_to_completion(sync_command(), policy(3), &events);
    assert_eq!(attempts, 3);
    assert_eq!(outcome.unwrap(), Vec::<u8>::new());
}

#[test]
fn a_frame_of_the_wrong_shape_is_a_channel_fault() {
    // response naming another command's identifier
    let events = vec![
        ChannelEvent::Frame(vec![0x01, 0x42, 0x00]),
        ChannelEvent::Frame(vec![0x01, 0x08, 0x00]),
    ];
    let (outcome, attempts) = run_to_completion(sync_command(), policy(2), &events);
    assert_eq!(attempts, 2);
    assert!(outcome.is_ok());
}

#[test]
fn dispatch_frames_the_command_wire_form() {
    let cmd = sync_command();
    let mut wire = vec![0x00, cmd.code];
    wire.extend_from_slice(&cmd.payload);
    let expected = encode(&wire);

    let mut engine = CommandEngine::new(cmd, policy(1));
    let frame = engine.dispatch();
    assert_eq!(frame, expected);
    assert_eq!(engine.attempts, 1);
    assert!(matches!(engine.state, EngineState::AwaitingResponse));
}

#[test]
fn backoff_schedules() {
    assert_eq!(backoff_delay(Backoff::NoDelay, 5), 0);
    assert_eq!(backoff_delay(Backoff::Fixed(40), 5), 40);
    assert_eq!(backoff_delay(Backoff::Exponential(3), 0), 3);
    assert_eq!(backoff_delay(Backoff::Exponential(3), 1), 6);
    assert_eq!(backoff_delay(Backoff::Exponential(3), 2), 12);
    assert_eq!(backoff_delay(Backoff::Exponential(u64::MAX), 1), u64::MAX);
    assert_eq!(backoff_delay(Backoff::Exponential(u64::MAX / 2 + 1), 3), u64::MAX);
}
