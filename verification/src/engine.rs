//! Command Engine: one instance drives one command invocation. The
//! engine encodes the command into a frame to be written, then consumes
//! channel events (a decoded response frame, a timeout, or a codec
//! rejection) until it succeeds or fails. Channel faults are retried up
//! to the configured budget; a device rejection ends the attempt loop at
//! once, because retrying a command the device has explicitly rejected
//! cannot succeed and would mask a real firmware-level problem. An
//! exhausted budget surfaces a timeout annotated with the command.

use vstd::prelude::*;

use crate::codec::MAX_FRAME_SIZE;
use crate::codec::encode;
use crate::codec::encode_model;
use crate::connection::Command;
use crate::connection::ConnectionError;
use crate::connection::TimedOutCommand;
use crate::error::Error;
use crate::status::status_reason;

verus! {

/// Direction marker of a request frame.
pub const REQUEST_DIRECTION: u8 = 0x00;

/// Direction marker of a response frame.
pub const RESPONSE_DIRECTION: u8 = 0x01;

/// Byte offset of the status field in a response frame's payload.
pub const STATUS_OFFSET: usize = 2;

/// How long to pause between attempts.
#[derive(Copy, Clone, Debug, PartialEq, Eq, Structural)]
pub enum Backoff {
    /// Re-dispatch immediately.
    NoDelay,
    /// Pause the same number of milliseconds before every retry.
    Fixed(u64),
    /// Double the pause before each further retry, saturating.
    Exponential(u64),
}

/// Configuration of the retry loop.
#[derive(Copy, Clone, Debug, PartialEq, Eq, Structural)]
pub struct RetryPolicy {
    /// Wall-clock deadline of one attempt, in milliseconds.
    pub timeout_ms: u64,
    /// Total attempts allowed, the first one included.
    pub max_attempts: u32,
    /// Pause schedule between attempts.
    pub backoff: Backoff,
}

/// What the channel reports back for one attempt.
#[derive(Debug, Clone, PartialEq, Eq)]
pub enum ChannelEvent {
    /// A complete frame arrived: its decoded payload.
    Frame(Vec<u8>),
    /// The attempt's deadline elapsed without a complete frame.
    TimedOut,
    /// The codec rejected the stream as malformed.
    FrameMalformed,
    /// The codec rejected the frame as oversized.
    FrameOversized,
}

/// Where one command invocation stands.
#[derive(Debug, Clone, PartialEq, Eq)]
pub enum EngineState {
    /// Nothing dispatched yet.
    Idle,
    /// A frame was written; the engine waits for the response.
    AwaitingResponse,
    /// The last attempt failed on a channel fault and budget remains.
    Retrying,
    /// A matching response with a success status arrived: its data.
    Succeeded(Vec<u8>),
    /// The invocation failed; the surfaced error.
    Failed(Error),
}

/// The wire payload of a command: direction, identifier, then payload.
pub open spec fn command_bytes(c: Command) -> Seq<u8> {
    seq![REQUEST_DIRECTION, c.code] + c.payload@
}

/// A response frame matching the command's expected shape: long enough
/// to carry a status, marked as a response, and naming the command's
/// identifier (never its diagnostic name).
pub open spec fn is_matching_response(c: Command, f: Seq<u8>) -> bool {
    f.len() > STATUS_OFFSET as int && f[0] == RESPONSE_DIRECTION && f[1] == c.code
}

/// The event ends the attempt loop in success: a matching response
/// whose status field reports success.
pub open spec fn is_success_event(c: Command, ev: ChannelEvent) -> bool {
    ev matches ChannelEvent::Frame(f) && is_matching_response(c, f@) && f@[STATUS_OFFSET as int]
        == 0
}

/// The event ends the attempt loop in a device rejection: a matching
/// response whose status field reports a failure.
pub open spec fn is_rejection_event(c: Command, ev: ChannelEvent) -> bool {
    ev matches ChannelEvent::Frame(f) && is_matching_response(c, f@) && f@[STATUS_OFFSET as int]
        != 0
}

/// The status byte of a rejection event.
pub open spec fn rejection_status(ev: ChannelEvent) -> u8 {
    ev->Frame_0@[STATUS_OFFSET as int]
}

/// The data bytes of a success event: what follows the status field.
pub open spec fn success_data(ev: ChannelEvent) -> Seq<u8> {
    ev->Frame_0@.skip(STATUS_OFFSET as int + 1)
}

/// A channel fault: anything that is neither success nor rejection
/// (deadline elapsed, codec rejection, or a frame of the wrong shape).
pub open spec fn is_channel_fault(c: Command, ev: ChannelEvent) -> bool {
    !is_success_event(c, ev) && !is_rejection_event(c, ev)
}

/// Two commands with the same identifier, name and payload.
pub open spec fn same_command(a: Command, b: Command) -> bool {
    a.code == b.code && a.name@ == b.name@ && a.payload@ == b.payload@
}

/// The error is a connection-phase timeout annotated with this command.
pub open spec fn is_command_timeout(e: Error, c: Command) -> bool {
    &&& e matches Error::Connection(ConnectionError::Timeout(t))
    &&& t.command matches Some(cc) && same_command(cc, c)
}

/// How one command invocation resolves.
pub enum RunOutcome {
    /// A matching success response: its data, after how many attempts.
    Succeeded { data: Seq<u8>, attempts: nat },
    /// A device rejection: its status byte, after how many attempts.
    Rejected { status: u8, attempts: nat },
    /// The budget ran out on channel faults.
    TimedOut { attempts: nat },
}

/// How the attempt loop resolves from attempt `k` on (0-based), given
/// the event each attempt will observe: the first success or rejection
/// ends the loop; channel faults consume the budget.
pub open spec fn run_model(c: Command, max: nat, events: Seq<ChannelEvent>, k: nat) -> RunOutcome
    decreases max - k,
{
    if k >= max || k >= events.len() {
        RunOutcome::TimedOut { attempts: max }
    } else if is_success_event(c, events[k as int]) {
        RunOutcome::Succeeded { data: success_data(events[k as int]), attempts: k + 1 }
    } else if is_rejection_event(c, events[k as int]) {
        RunOutcome::Rejected { status: rejection_status(events[k as int]), attempts: k + 1 }
    } else if k + 1 < max {
        run_model(c, max, events, k + 1)
    } else {
        RunOutcome::TimedOut { attempts: max }
    }
}

/// The state machine of one command invocation.
#[derive(Debug, Clone, PartialEq, Eq)]
pub struct CommandEngine {
    /// The command in flight.
    pub command: Command,
    /// The retry configuration.
    pub policy: RetryPolicy,
    /// Attempts dispatched so far.
    pub attempts: u32,
    /// Where the invocation stands.
    pub state: EngineState,
}

impl CommandEngine {
    /// The engine's invariant: the budget is positive and respected,
    /// nothing is dispatched while idle, and budget remains while
    /// retrying.
    pub open spec fn wf(&self) -> bool {
        &&& self.policy.max_attempts >= 1
        &&& self.attempts <= self.policy.max_attempts
        &&& self.state is Idle ==> self.attempts == 0
        &&& self.state is Retrying ==> self.attempts < self.policy.max_attempts
        &&& self.state is AwaitingResponse ==> self.attempts >= 1
        &&& self.command.payload@.len() + 2 <= MAX_FRAME_SIZE as nat
    }

    /// Start an invocation: idle, with no attempt made yet.
    pub fn new(command: Command, policy: RetryPolicy) -> (r: CommandEngine)
        requires
            policy.max_attempts >= 1,
            command.payload@.len() + 2 <= MAX_FRAME_SIZE as nat,
        ensures
            r.wf(),
            r.command == command,
            r.policy == policy,
            r.attempts == 0,
            r.state is Idle,
    {
        CommandEngine { command, policy, attempts: 0, state: EngineState::Idle }
    }

    /// Dispatch one attempt: encode the command into its framed wire
    /// form, to be written to the channel, and await the response.
    /// (A dispatched frame is awaiting its response immediately: there
    /// is no observable interval between writing and waiting.)
    pub fn dispatch(&mut self) -> (frame: Vec<u8>)
        requires
            old(self).wf(),
            old(self).state is Idle || old(self).state is Retrying,
        ensures
            final(self).wf(),
            final(self).command == old(self).command,
            final(self).policy == old(self).policy,
            final(self).attempts == old(self).attempts + 1,
            final(self).state is AwaitingResponse,
            frame@ == encode_model(command_bytes(old(self).command)),
    {
        let mut wire: Vec<u8> = Vec::new();
        wire.push(REQUEST_DIRECTION);
        wire.push(self.command.code);
        let mut i: usize = 0;
        while i < self.command.payload.len()
            invariant
                0 <= i <= self.command.payload@.len(),
                self.command.payload@.len() + 2 <= MAX_FRAME_SIZE as nat,
                wire@ == seq![REQUEST_DIRECTION, self.command.code] + self.command.payload@.take(
                    i as int,
                ),
            decreases self.command.payload@.len() - i,
        {
            wire.push(self.command.payload[i]);
            assert(wire@ =~= seq![REQUEST_DIRECTION, self.command.code]
                + self.command.payload@.take(i as int + 1));
            i = i + 1;
        }
        assert(self.command.payload@.take(self.command.payload@.len() as int) =~= self
            .command
            .payload@);
        assert(wire@ =~= command_bytes(self.command));
        let frame = encode(wire.as_slice());
        self.attempts = self.attempts + 1;
        self.state = EngineState::AwaitingResponse;
        frame
    }

    /// Consume the event observed for the attempt in flight.
    ///
    /// A matching success response succeeds with its data. A matching
    /// response with a failure status fails at once with the decoded
    /// reason: no retry, whatever budget remains. Every other event is
    /// a channel fault: it retries while budget remains, and once the
    /// budget is exhausted it fails with a timeout annotated with the
    /// command.
    pub fn handle_event(&mut self, ev: &ChannelEvent) -> (done: bool)
        requires
            old(self).wf(),
            old(self).state is AwaitingResponse,
        ensures
            final(self).wf(),
            final(self).command == old(self).command,
            final(self).policy == old(self).policy,
            final(self).attempts == old(self).attempts,
            done == !(final(self).state is Retrying),
            is_success_event(old(self).command, *ev) ==> (final(self).state
                matches EngineState::Succeeded(d) && d@ == success_data(*ev)),
            is_rejection_event(old(self).command, *ev) ==> final(self).state == EngineState::Failed(
                Error::RomError(status_reason(rejection_status(*ev))),
            ),
            is_channel_fault(old(self).command, *ev) && old(self).attempts < old(
                self,
            ).policy.max_attempts ==> final(self).state is Retrying,
            is_channel_fault(old(self).command, *ev) && old(self).attempts == old(
                self,
            ).policy.max_attempts ==> (final(self).state matches EngineState::Failed(e)
                && is_command_timeout(e, old(self).command)),
    {
        match ev {
            ChannelEvent::Frame(f) => {
                if f.len() > STATUS_OFFSET && f[0] == RESPONSE_DIRECTION && f[1]
                    == self.command.code {
                    let status = f[STATUS_OFFSET];
                    if status == 0 {
                        let mut data: Vec<u8> = Vec::new();
                        let mut i: usize = STATUS_OFFSET + 1;
                        while i < f.len()
                            invariant
                                STATUS_OFFSET as int + 1 <= i <= f@.len(),
                                f@.len() > STATUS_OFFSET as int,
                                data@ == f@.subrange(STATUS_OFFSET as int + 1, i as int),
                            decreases f@.len() - i,
                        {
                            data.push(f[i]);
                            assert(data@ =~= f@.subrange(STATUS_OFFSET as int + 1, i as int + 1));
                            i = i + 1;
                        }
                        assert(data@ =~= f@.skip(STATUS_OFFSET as int + 1));
                        self.state = EngineState::Succeeded(data);
                        return true;
                    }
                    self.state = EngineState::Failed(
                        Error::RomError(crate::status::decode_status(status)),
                    );
                    return true;
                }
                self.fault()
            },
            _ => self.fault(),
        }
    }

    /// Consume a channel fault: retry while budget remains, else fail
    /// with a timeout annotated with the command.
    fn fault(&mut self) -> (done: bool)
        requires
            old(self).wf(),
            old(self).state is AwaitingResponse,
        ensures
            final(self).wf(),
            final(self).command == old(self).command,
            final(self).policy == old(self).policy,
            final(self).attempts == old(self).attempts,
            done == !(final(self).state is Retrying),
            old(self).attempts < old(self).policy.max_attempts ==> final(self).state is Retrying,
            old(self).attempts == old(self).policy.max_attempts ==> (final(self).state
                matches EngineState::Failed(e) && is_command_timeout(e, old(self).command)),
    {
        if self.attempts < self.policy.max_attempts {
            self.state = EngineState::Retrying;
            false
        } else {
            let annotated = Command {
                code: self.command.code,
                name: self.command.name.clone(),
                payload: vstd::slice::slice_to_vec(self.command.payload.as_slice()),
            };
            self.state = EngineState::Failed(
                Error::Connection(
                    ConnectionError::Timeout(TimedOutCommand { command: Some(annotated) }),
                ),
            );
            true
        }
    }
}

/// Run one command invocation to completion against the events the
/// channel will observe, one per attempt.
///
/// The result is exactly the run model's: the first success yields the
/// response data, the first device rejection yields the decoded reason
/// at once, and an exhausted budget yields a timeout annotated with the
/// command. The attempt count returned says how many frames were
/// dispatched.
pub fn run_to_completion(command: Command, policy: RetryPolicy, events: &Vec<ChannelEvent>) -> (r: (
    Result<Vec<u8>, Error>,
    u32,
))
    requires
        policy.max_attempts >= 1,
        events@.len() >= policy.max_attempts,
        command.payload@.len() + 2 <= MAX_FRAME_SIZE as nat,
    ensures
        ({
            let outcome = run_model(command, policy.max_attempts as nat, events@, 0);
            match outcome {
                RunOutcome::Succeeded { data, attempts } => (r.0 matches Ok(d) && d@ == data)
                    && r.1 as nat == attempts,
                RunOutcome::Rejected { status, attempts } => r.0 == Err::<Vec<u8>, Error>(
                    Error::RomError(status_reason(status)),
                ) && r.1 as nat == attempts,
                RunOutcome::TimedOut { attempts } => (r.0 matches Err(e) && is_command_timeout(
                    e,
                    command,
                )) && r.1 as nat == attempts,
            }
        }),
{
    let ghost max = policy.max_attempts as nat;
    let mut engine = CommandEngine::new(command, policy);
    loop
        invariant
            engine.wf(),
            engine.command == command,
            engine.policy == policy,
            max == policy.max_attempts as nat,
            events@.len() >= policy.max_attempts,
            engine.state is Idle || engine.state is Retrying,
            engine.attempts < policy.max_attempts,
            run_model(command, max, events@, 0) == run_model(
                command,
                max,
                events@,
                engine.attempts as nat,
            ),
        decreases policy.max_attempts - engine.attempts,
    {
        let _frame = engine.dispatch();
        let ghost k = (engine.attempts - 1) as nat;
        let ev = &events[engine.attempts as usize - 1];
        let done = engine.handle_event(ev);
        proof {
            assert(events@[k as int] == *ev);
            assert(k < max);
            assert((k as int) < events@.len());
            if is_success_event(command, *ev) {
                assert(run_model(command, max, events@, k) == (RunOutcome::Succeeded {
                    data: success_data(*ev),
                    attempts: k + 1,
                }));
            } else if is_rejection_event(command, *ev) {
                assert(run_model(command, max, events@, k) == (RunOutcome::Rejected {
                    status: rejection_status(*ev),
                    attempts: k + 1,
                }));
            } else if k + 1 < max {
                assert(run_model(command, max, events@, k) == run_model(
                    command,
                    max,
                    events@,
                    k + 1,
                ));
            } else {
                assert(run_model(command, max, events@, k) == (RunOutcome::TimedOut {
                    attempts: max,
                }));
            }
        }
        if done {
            match engine.state {
                EngineState::Succeeded(d) => {
                    return (Ok(d), engine.attempts);
                },
                EngineState::Failed(e) => {
                    return (Err(e), engine.attempts);
                },
                _ => {
                    proof {
                        assert(false);
                    }
                    return (Err(Error::FlashConnect), engine.attempts);
                },
            }
        }
    }
}

/// With every attempt observing a channel fault, the engine consumes
/// the whole budget: it performs exactly `max` attempts and resolves to
/// a timeout.
pub proof fn lemma_all_faults_time_out(
    c: Command,
    max: nat,
    events: Seq<ChannelEvent>,
    k: nat,
)
    requires
        k < max,
        events.len() >= max,
        forall|i: int| k <= i < max ==> is_channel_fault(c, #[trigger] events[i]),
    ensures
        run_model(c, max, events, k) == (RunOutcome::TimedOut { attempts: max }),
    decreases max - k,
{
    if k + 1 < max {
        lemma_all_faults_time_out(c, max, events, k + 1);
    }
}

/// A single matching response with a failure status ends the attempt
/// loop immediately: one attempt, whatever budget remains, and the
/// decoded device reason is surfaced rather than a connection error.
pub proof fn lemma_rejection_ends_immediately(c: Command, max: nat, events: Seq<ChannelEvent>)
    requires
        1 <= max <= events.len(),
        is_rejection_event(c, events[0]),
    ensures
        run_model(c, max, events, 0) == (RunOutcome::Rejected {
            status: rejection_status(events[0]),
            attempts: 1,
        }),
{
}

/// The pause owed before re-dispatch, by schedule: none, the fixed
/// pause, or the base pause doubled for each prior retry, saturating.
pub open spec fn backoff_delay_model(b: Backoff, retries: nat) -> u64
    decreases retries,
{
    match b {
        Backoff::NoDelay => 0u64,
        Backoff::Fixed(d) => d,
        Backoff::Exponential(d) => {
            if retries == 0 {
                d
            } else {
                let p = backoff_delay_model(b, (retries - 1) as nat);
                if p > u64::MAX / 2 {
                    u64::MAX
                } else {
                    (2 * p) as u64
                }
            }
        },
    }
}

/// Compute the pause before re-dispatch after `retries` prior retries.
pub fn backoff_delay(b: Backoff, retries: u32) -> (r: u64)
    ensures
        r == backoff_delay_model(b, retries as nat),
{
    match b {
        Backoff::NoDelay => 0u64,
        Backoff::Fixed(d) => d,
        Backoff::Exponential(d) => {
            let mut v: u64 = d;
            let mut n: u32 = 0;
            while n < retries
                invariant
                    0 <= n <= retries,
                    v == backoff_delay_model(Backoff::Exponential(d), n as nat),
                decreases retries - n,
            {
                if v > u64::MAX / 2 {
                    v = u64::MAX;
                } else {
                    v = 2 * v;
                }
                n = n + 1;
            }
            v
        },
    }
}

} // verus!
