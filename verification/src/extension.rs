//! The flushing-strategy engine and the lifecycle bookkeeping of the
//! extension.
//!
//! Points in time are `u64` nanoseconds read from one monotonic clock.

use crate::openobserve::{is_success_status, status_is_success, SendError};
use crate::telemetry::{batch_bytes, AggregatorState, TelemetryAggregator};
use std::collections::VecDeque;
use vstd::prelude::*;
use vstd::string::*;

verus! {

/// Nanoseconds in one second.
pub const NANOS_PER_SECOND: u64 = 1_000_000_000;

/// Idle time after which the function counts as long-running: 30 seconds.
pub const LONG_RUNNING_THRESHOLD_NANOS: u64 = 30 * NANOS_PER_SECOND;

/// Least time between two periodic flushes, and the tick of the background
/// task: 5 seconds.
pub const PERIODIC_FLUSH_INTERVAL_NANOS: u64 = 5 * NANOS_PER_SECOND;

/// Time allowed for one flush of the background task, in milliseconds.
pub const CONTINUOUS_FLUSH_TIMEOUT_MS: u64 = 500;

/// Time allowed for one request of the background task, in milliseconds.
pub const CONTINUOUS_REQUEST_TIMEOUT_MS: u64 = 1000;

/// Time allowed for one request of a synchronous flush, in milliseconds.
pub const SYNCHRONOUS_REQUEST_TIMEOUT_MS: u64 = 1900;

/// Horizon of the invocation window: 5 minutes.
pub const INVOCATION_WINDOW_NANOS: u64 = 300 * NANOS_PER_SECOND;

/// Nanoseconds in one minute.
pub const NANOS_PER_MINUTE: u64 = 60 * NANOS_PER_SECOND;

/// Invocations per minute from which the function counts as high-frequency.
pub const HIGH_FREQUENCY_THRESHOLD: u64 = 10;

/// When the buffer is drained.
#[derive(Debug, Clone, Copy, PartialEq, Eq, Structural)]
pub enum FlushingStrategy {
    /// Low frequency: flush after every invocation.
    EndOfInvocation,
    /// High frequency: a background task flushes on a timer.
    Continuous,
    /// Long-running: flush when the periodic interval has elapsed.
    Periodic,
}

/// Time from `earlier` to `later`, zero where `later` lies before `earlier`.
pub open spec fn elapsed(later: u64, earlier: u64) -> nat {
    if later >= earlier {
        (later - earlier) as nat
    } else {
        0
    }
}

/// Whether `count` invocations spread over `span` nanoseconds reach the
/// high-frequency threshold. The rate is `count / (span / 1 minute)`; where
/// all samples share an instant, the raw count stands for the rate.
pub open spec fn is_high_frequency(count: nat, span: nat) -> bool {
    if span > 0 {
        count * NANOS_PER_MINUTE >= HIGH_FREQUENCY_THRESHOLD * span
    } else {
        count >= HIGH_FREQUENCY_THRESHOLD
    }
}

/// The strategy that fits the invocation pattern seen at `now`.
pub open spec fn classify(now: u64, last_invocation_time: u64, window: Seq<u64>) -> FlushingStrategy {
    if elapsed(now, last_invocation_time) > LONG_RUNNING_THRESHOLD_NANOS {
        FlushingStrategy::Periodic
    } else if window.len() > 0 && is_high_frequency(
        window.len(),
        elapsed(window.last(), window.first()),
    ) {
        FlushingStrategy::Continuous
    } else {
        FlushingStrategy::EndOfInvocation
    }
}

/// Computes [`classify`] for a window held in a queue, oldest sample first.
pub fn classify_window(now: u64, last_invocation_time: u64, window: &VecDeque<u64>) -> (strategy:
    FlushingStrategy)
    ensures
        strategy == classify(now, last_invocation_time, window@),
{
    if now > last_invocation_time && now - last_invocation_time > LONG_RUNNING_THRESHOLD_NANOS {
        return FlushingStrategy::Periodic;
    }
    let count: usize = window.len();
    if count == 0 {
        return FlushingStrategy::EndOfInvocation;
    }
    let oldest: u64 = window[0];
    let newest: u64 = window[count - 1];
    let high = if newest > oldest {
        let span: u128 = (newest - oldest) as u128;
        let per_minute: u128 = (count as u128) * (NANOS_PER_MINUTE as u128);
        per_minute >= (HIGH_FREQUENCY_THRESHOLD as u128) * span
    } else {
        count as u128 >= HIGH_FREQUENCY_THRESHOLD as u128
    };
    if high {
        FlushingStrategy::Continuous
    } else {
        FlushingStrategy::EndOfInvocation
    }
}

/// An idle time above the long-running threshold selects `Periodic`,
/// whatever the window holds.
pub proof fn lemma_idle_selects_periodic(now: u64, last_invocation_time: u64, window: Seq<u64>)
    requires
        now - last_invocation_time > LONG_RUNNING_THRESHOLD_NANOS,
    ensures
        classify(now, last_invocation_time, window) == FlushingStrategy::Periodic,
{
}

/// The events that the extension registers for.
#[derive(Debug, Clone, PartialEq, Eq)]
pub struct RegisterRequest {
    pub events: Vec<String>,
}

/// What a registration yields: the identifier that the host gave the
/// extension.
#[derive(Debug, Clone, PartialEq, Eq)]
pub struct RegisterResponse {
    pub extension_id: String,
}

/// A lifecycle event of the host.
#[derive(Debug, Clone, PartialEq, Eq)]
pub enum NextEventResponse {
    /// The function is invoked.
    Invoke { request_id: String, deadline_ms: u64 },
    /// The execution environment shuts down.
    Shutdown { deadline_ms: u64 },
}

/// The host's answer to the registration call.
#[derive(Debug, Clone, PartialEq, Eq)]
pub struct RegisterReply {
    pub status: u16,
    /// The body as text.
    pub text: String,
    /// The identifier header, where the answer carries a readable one.
    pub extension_id: Option<String>,
    /// Whether the body is a well-formed registration response.
    pub body_is_valid: bool,
}

/// The host's answer to the call for the next event.
#[derive(Debug, Clone, PartialEq, Eq)]
pub struct EventReply {
    pub status: u16,
    /// The body as text.
    pub text: String,
    /// The event in the body, where the body is a well-formed one.
    pub event: Option<NextEventResponse>,
}

/// Why a call of the lifecycle protocol failed.
#[derive(Debug, Clone, PartialEq, Eq)]
pub enum LifecycleError {
    /// The next event was asked for before a registration succeeded.
    NotRegistered,
    /// The host answered the registration with a status outside 2xx.
    RegistrationRejected { status: u16, text: String },
    /// The registration answer carries no extension identifier.
    MissingExtensionId,
    /// The body of the registration answer is malformed.
    InvalidRegistrationBody,
    /// The host answered the call for the next event with a status outside
    /// 2xx.
    EventRejected { status: u16, text: String },
    /// The body of the event answer is malformed.
    InvalidEvent,
}

/// What becomes of the background task that flushes continuously.
#[derive(Debug, Clone, Copy, PartialEq, Eq, Structural)]
pub enum TaskAction {
    /// Leave things as they are.
    Keep,
    /// Start the task. It flushes one batch every
    /// [`PERIODIC_FLUSH_INTERVAL_NANOS`].
    Start,
    /// Stop the task.
    Stop,
}

/// Whether the buffer is flushed now.
#[derive(Debug, Clone, Copy, PartialEq, Eq, Structural)]
pub enum FlushDecision {
    /// Drain and send until the buffer is empty or a send fails.
    Flush,
    /// Do nothing.
    Skip,
}

/// An event together with what the caller has to do on it.
#[derive(Debug, Clone, PartialEq, Eq)]
pub struct HandledEvent {
    pub event: NextEventResponse,
    pub task: TaskAction,
    pub flush: FlushDecision,
}

/// The leading samples of `window` that lie more than the window's horizon
/// before `now`.
pub open spec fn stale_count(window: Seq<u64>, now: u64) -> nat
    decreases window.len(),
{
    if window.len() > 0 && window.first() + INVOCATION_WINDOW_NANOS < now {
        1 + stale_count(window.drop_first(), now)
    } else {
        0
    }
}

/// `window` without its stale leading samples.
pub open spec fn pruned(window: Seq<u64>, now: u64) -> Seq<u64> {
    window.skip(stale_count(window, now) as int)
}

/// What an [`ExtensionClient`] holds.
#[verifier::ext_equal]
pub struct ClientState {
    pub extension_name: Seq<char>,
    pub runtime_api_endpoint: Seq<char>,
    /// The identifier that the host gave; `None` before registration.
    pub extension_id: Option<Seq<char>>,
    pub invocation_count: nat,
    pub last_invocation_time: u64,
    /// The invocation window, oldest sample first.
    pub recent_invocations: Seq<u64>,
    /// Whether a buffer and a sink are attached.
    pub telemetry_components_set: bool,
    pub current_strategy: FlushingStrategy,
    pub last_periodic_flush: u64,
    /// Whether the background task runs.
    pub continuous_flush_task: bool,
}

impl ClientState {
    /// The background task runs only under the continuous strategy.
    pub open spec fn wf(self) -> bool {
        self.continuous_flush_task ==> self.current_strategy == FlushingStrategy::Continuous
    }

    /// The state after an invocation at `now` was recorded: it is counted,
    /// it is the last one, and it joins the window, which is then pruned.
    pub open spec fn after_invocation(self, now: u64) -> ClientState {
        ClientState {
            invocation_count: self.invocation_count + 1,
            last_invocation_time: now,
            recent_invocations: pruned(self.recent_invocations.push(now), now),
            ..self
        }
    }

    /// What a strategy update at `now` does to the background task.
    pub open spec fn task_action(self, now: u64) -> TaskAction {
        let next = classify(now, self.last_invocation_time, self.recent_invocations);
        if next == self.current_strategy {
            TaskAction::Keep
        } else if self.current_strategy == FlushingStrategy::Continuous {
            if self.continuous_flush_task {
                TaskAction::Stop
            } else {
                TaskAction::Keep
            }
        } else if next == FlushingStrategy::Continuous && self.telemetry_components_set {
            TaskAction::Start
        } else {
            TaskAction::Keep
        }
    }

    /// The state after a strategy update at `now`.
    pub open spec fn after_strategy_update(self, now: u64) -> ClientState {
        ClientState {
            current_strategy: classify(now, self.last_invocation_time, self.recent_invocations),
            continuous_flush_task: match self.task_action(now) {
                TaskAction::Keep => self.continuous_flush_task,
                TaskAction::Start => true,
                TaskAction::Stop => false,
            },
            ..self
        }
    }

    /// Whether a periodic flush is due at `now`.
    pub open spec fn periodic_flush_due(self, now: u64) -> bool {
        elapsed(now, self.last_periodic_flush) >= PERIODIC_FLUSH_INTERVAL_NANOS
    }

    /// The flush that a strategy prescribes once the work of an invocation
    /// is done.
    pub open spec fn flush_after_invoke(self, now: u64) -> FlushDecision {
        match self.current_strategy {
            FlushingStrategy::EndOfInvocation => self.attached_flush(),
            FlushingStrategy::Periodic => if self.periodic_flush_due(now) {
                self.attached_flush()
            } else {
                FlushDecision::Skip
            },
            FlushingStrategy::Continuous => FlushDecision::Skip,
        }
    }

    /// A flush, where there is a buffer to flush.
    pub open spec fn attached_flush(self) -> FlushDecision {
        if self.telemetry_components_set {
            FlushDecision::Flush
        } else {
            FlushDecision::Skip
        }
    }
}

/// The lifecycle client: the handshake with the host, the invocation
/// bookkeeping and the flushing strategy.
pub struct ExtensionClient {
    extension_name: String,
    runtime_api_endpoint: String,
    extension_id: Option<String>,
    invocation_count: u64,
    last_invocation_time: u64,
    recent_invocations: VecDeque<u64>,
    telemetry_components_set: bool,
    mode: StrategyMode,
    last_periodic_flush: u64,
}

/// The strategy in force, with the background task where it can run: a
/// task outside the continuous strategy cannot be written down.
enum StrategyMode {
    EndOfInvocation,
    Continuous { task_running: bool },
    Periodic,
}

impl StrategyMode {
    spec fn strategy(self) -> FlushingStrategy {
        match self {
            StrategyMode::EndOfInvocation => FlushingStrategy::EndOfInvocation,
            StrategyMode::Continuous { .. } => FlushingStrategy::Continuous,
            StrategyMode::Periodic => FlushingStrategy::Periodic,
        }
    }

    spec fn task_running(self) -> bool {
        self matches StrategyMode::Continuous { task_running } && task_running
    }

    fn of(strategy: FlushingStrategy, task_running: bool) -> (mode: StrategyMode)
        ensures
            mode.strategy() == strategy,
            mode.task_running() == (task_running && strategy == FlushingStrategy::Continuous),
    {
        match strategy {
            FlushingStrategy::EndOfInvocation => StrategyMode::EndOfInvocation,
            FlushingStrategy::Continuous => StrategyMode::Continuous { task_running },
            FlushingStrategy::Periodic => StrategyMode::Periodic,
        }
    }
}

impl View for ExtensionClient {
    type V = ClientState;

    closed spec fn view(&self) -> ClientState {
        ClientState {
            extension_name: self.extension_name@,
            runtime_api_endpoint: self.runtime_api_endpoint@,
            extension_id: match self.extension_id {
                Some(id) => Some(id@),
                None => None,
            },
            invocation_count: self.invocation_count as nat,
            last_invocation_time: self.last_invocation_time,
            recent_invocations: self.recent_invocations@,
            telemetry_components_set: self.telemetry_components_set,
            current_strategy: self.mode.strategy(),
            last_periodic_flush: self.last_periodic_flush,
            continuous_flush_task: self.mode.task_running(),
        }
    }
}

/// One flush path at a time: while the background task runs, no flush is
/// due after an invocation.
pub proof fn lemma_one_flush_path(client: ClientState, now: u64)
    requires
        client.wf(),
        client.continuous_flush_task,
    ensures
        client.flush_after_invoke(now) == FlushDecision::Skip,
{
}

/// A strategy update keeps the task to the continuous strategy: it runs
/// afterwards only where that strategy is in force, and a running task is
/// stopped when the strategy is left.
pub proof fn lemma_update_keeps_task_to_continuous(client: ClientState, now: u64)
    requires
        client.wf(),
    ensures
        client.after_strategy_update(now).wf(),
        client.continuous_flush_task && client.after_strategy_update(now).current_strategy
            != FlushingStrategy::Continuous ==> client.task_action(now) == TaskAction::Stop,
        client.task_action(now) == TaskAction::Start ==> !client.continuous_flush_task
            && client.after_strategy_update(now).current_strategy == FlushingStrategy::Continuous,
{
}

/// Pruning a window whose first sample is stale is pruning the rest.
proof fn lemma_pruned_drop_first(window: Seq<u64>, now: u64)
    requires
        window.len() > 0,
        window.first() + INVOCATION_WINDOW_NANOS < now,
    ensures
        pruned(window, now) == pruned(window.drop_first(), now),
{
    let rest = window.drop_first();
    assert(stale_count(rest, now) <= rest.len()) by {
        lemma_stale_count_bound(rest, now);
    }
    assert(window.skip(1 + stale_count(rest, now) as int) == rest.skip(
        stale_count(rest, now) as int,
    ));
}

/// No more samples are stale than the window holds.
pub proof fn lemma_stale_count_bound(window: Seq<u64>, now: u64)
    ensures
        stale_count(window, now) <= window.len(),
    decreases window.len(),
{
    if window.len() > 0 {
        lemma_stale_count_bound(window.drop_first(), now);
    }
}

impl ExtensionClient {
    /// A client that is not registered yet. `runtime_api_endpoint` is the
    /// host's address; without one the local default stands in. Both clocks
    /// of the client start at `now`.
    pub fn new(extension_name: String, runtime_api_endpoint: Option<String>, now: u64) -> (client:
        Self)
        ensures
            client@ == (ClientState {
                extension_name: extension_name@,
                runtime_api_endpoint: match runtime_api_endpoint {
                    Some(endpoint) => endpoint@,
                    None => "localhost:9001"@,
                },
                extension_id: None,
                invocation_count: 0,
                last_invocation_time: now,
                recent_invocations: Seq::empty(),
                telemetry_components_set: false,
                current_strategy: FlushingStrategy::EndOfInvocation,
                last_periodic_flush: now,
                continuous_flush_task: false,
            }),
            client@.wf(),
    {
        let endpoint = match runtime_api_endpoint {
            Some(endpoint) => endpoint,
            None => String::from_str("localhost:9001"),
        };
        Self {
            extension_name,
            runtime_api_endpoint: endpoint,
            extension_id: None,
            invocation_count: 0,
            last_invocation_time: now,
            recent_invocations: VecDeque::new(),
            telemetry_components_set: false,
            mode: StrategyMode::EndOfInvocation,
            last_periodic_flush: now,
        }
    }

    /// Records that a buffer and a sink are attached, so that flushes have
    /// something to flush.
    pub fn set_telemetry_components(&mut self)
        ensures
            final(self)@ == (ClientState { telemetry_components_set: true, ..old(self)@ }),
            final(self)@.wf(),
    {
        self.telemetry_components_set = true;
    }

    /// The strategy that fits the invocation pattern seen at `now`.
    pub fn determine_flushing_strategy(&self, now: u64) -> (strategy: FlushingStrategy)
        ensures
            strategy == classify(now, self@.last_invocation_time, self@.recent_invocations),
    {
        classify_window(now, self.last_invocation_time, &self.recent_invocations)
    }

    /// Records an invocation at `now`.
    pub fn record_invocation(&mut self, now: u64)
        requires
            old(self)@.invocation_count < u64::MAX,
        ensures
            final(self)@ == old(self)@.after_invocation(now),
            final(self)@.wf(),
    {
        self.invocation_count = self.invocation_count + 1;
        self.last_invocation_time = now;
        self.recent_invocations.push_back(now);
        let ghost window = self.recent_invocations@;
        while self.recent_invocations.len() > 0 && now > INVOCATION_WINDOW_NANOS
            && self.recent_invocations[0] < now - INVOCATION_WINDOW_NANOS
            invariant
                pruned(self.recent_invocations@, now) == pruned(window, now),
                self@ == (ClientState {
                    recent_invocations: self.recent_invocations@,
                    ..old(self)@.after_invocation(now)
                }),
            decreases self.recent_invocations@.len(),
        {
            proof {
                lemma_pruned_drop_first(self.recent_invocations@, now);
            }
            let ghost before = self.recent_invocations@;
            self.recent_invocations.pop_front();
            assert(self.recent_invocations@ == before.drop_first());
        }
        assert(self.recent_invocations@.skip(0) == self.recent_invocations@);
    }

    /// Recomputes the strategy at `now` and switches to it. Leaving the
    /// continuous strategy stops the background task; entering it starts
    /// the task, where a buffer and a sink are attached.
    pub fn update_flushing_strategy(&mut self, now: u64) -> (action: TaskAction)
        ensures
            action == old(self)@.task_action(now),
            final(self)@ == old(self)@.after_strategy_update(now),
            final(self)@.wf(),
    {
        let next = self.determine_flushing_strategy(now);
        if next == self.current_strategy() {
            return TaskAction::Keep;
        }
        let action = match self.mode {
            StrategyMode::Continuous { task_running: true } => TaskAction::Stop,
            StrategyMode::Continuous { task_running: false } => TaskAction::Keep,
            _ => if next == FlushingStrategy::Continuous && self.telemetry_components_set {
                TaskAction::Start
            } else {
                TaskAction::Keep
            },
        };
        self.mode = StrategyMode::of(next, action == TaskAction::Start);
        action
    }

    /// The flush at the end of an invocation under the low-frequency
    /// strategy.
    pub fn flush_end_of_invocation(&self) -> (decision: FlushDecision)
        ensures
            decision == self@.attached_flush(),
    {
        if self.telemetry_components_set {
            FlushDecision::Flush
        } else {
            FlushDecision::Skip
        }
    }

    /// The flush under the long-running strategy: due once the periodic
    /// interval has passed since the last one, which then counts from
    /// `now`.
    pub fn flush_periodic(&mut self, now: u64) -> (decision: FlushDecision)
        ensures
            decision == if old(self)@.periodic_flush_due(now) {
                old(self)@.attached_flush()
            } else {
                FlushDecision::Skip
            },
            final(self)@ == if old(self)@.periodic_flush_due(now) {
                ClientState { last_periodic_flush: now, ..old(self)@ }
            } else {
                old(self)@
            },
            final(self)@.wf(),
    {
        if now >= self.last_periodic_flush && now - self.last_periodic_flush
            >= PERIODIC_FLUSH_INTERVAL_NANOS {
            self.last_periodic_flush = now;
            self.flush_end_of_invocation()
        } else {
            FlushDecision::Skip
        }
    }

    /// The flush that is due once the work of an invocation is done, by the
    /// current strategy.
    pub fn handle_invoke_event(&mut self, now: u64) -> (decision: FlushDecision)
        ensures
            decision == old(self)@.flush_after_invoke(now),
            final(self)@ == if old(self)@.current_strategy == FlushingStrategy::Periodic && old(self)@.periodic_flush_due(now) {
                ClientState { last_periodic_flush: now, ..old(self)@ }
            } else {
                old(self)@
            },
            final(self)@.wf(),
    {
        match self.mode {
            StrategyMode::EndOfInvocation => self.flush_end_of_invocation(),
            StrategyMode::Periodic => self.flush_periodic(now),
            StrategyMode::Continuous { .. } => FlushDecision::Skip,
        }
    }

    /// The address of the registration call.
    pub fn register_url(&self) -> (url: String)
        ensures
            url@ == "http://"@ + self@.runtime_api_endpoint + "/2020-01-01/extension/register"@,
    {
        let mut url = String::from_str("http://");
        url.append(self.runtime_api_endpoint.as_str());
        url.append("/2020-01-01/extension/register");
        url
    }

    /// The address of the call for the next event.
    pub fn next_event_url(&self) -> (url: String)
        ensures
            url@ == "http://"@ + self@.runtime_api_endpoint + "/2020-01-01/extension/event/next"@,
    {
        let mut url = String::from_str("http://");
        url.append(self.runtime_api_endpoint.as_str());
        url.append("/2020-01-01/extension/event/next");
        url
    }

    /// The request that announces interest in invocations and in the
    /// shutdown.
    pub fn register_request() -> (request: RegisterRequest)
        ensures
            request.events@.len() == 2,
            request.events@[0]@ == "INVOKE"@,
            request.events@[1]@ == "SHUTDOWN"@,
    {
        let mut events: Vec<String> = Vec::new();
        events.push(String::from_str("INVOKE"));
        events.push(String::from_str("SHUTDOWN"));
        RegisterRequest { events }
    }

    /// Takes the host's answer to the registration call. The registration
    /// succeeds where the status is 2xx, the identifier header is there and
    /// the body is well-formed; the identifier is then kept.
    pub fn register(&mut self, reply: RegisterReply) -> (result: Result<
        RegisterResponse,
        LifecycleError,
    >)
        ensures
            result == if !is_success_status(reply.status) {
                Err::<RegisterResponse, LifecycleError>(
                    LifecycleError::RegistrationRejected { status: reply.status, text: reply.text },
                )
            } else if reply.extension_id is None {
                Err(LifecycleError::MissingExtensionId)
            } else if !reply.body_is_valid {
                Err(LifecycleError::InvalidRegistrationBody)
            } else {
                Ok(RegisterResponse { extension_id: reply.extension_id->0 })
            },
            final(self)@ == if result is Ok {
                ClientState { extension_id: Some(reply.extension_id->0@), ..old(self)@ }
            } else {
                old(self)@
            },
            final(self)@.wf(),
    {
        if !status_is_success(reply.status) {
            return Err(
                LifecycleError::RegistrationRejected { status: reply.status, text: reply.text },
            );
        }
        match reply.extension_id {
            None => Err(LifecycleError::MissingExtensionId),
            Some(extension_id) => {
                if !reply.body_is_valid {
                    Err(LifecycleError::InvalidRegistrationBody)
                } else {
                    self.extension_id = Some(extension_id.clone());
                    Ok(RegisterResponse { extension_id })
                }
            },
        }
    }

    /// The identifier to send with the call for the next event.
    pub fn registered_id(&self) -> (id: Result<String, LifecycleError>)
        ensures
            match id {
                Ok(text) => self@.extension_id == Some(text@),
                Err(error) => self@.extension_id is None && error == LifecycleError::NotRegistered,
            },
    {
        match &self.extension_id {
            Some(id) => Ok(id.clone()),
            None => Err(LifecycleError::NotRegistered),
        }
    }

    /// Takes the host's answer to the call for the next event.
    ///
    /// An invocation at `now` is recorded and the strategy updated; the
    /// caller starts or stops the background task as told. A shutdown asks
    /// for the final flush, whatever the strategy and however short a time
    /// has passed since the last periodic flush.
    pub fn next_event(&mut self, reply: EventReply, now: u64) -> (result: Result<
        HandledEvent,
        LifecycleError,
    >)
        requires
            old(self)@.invocation_count < u64::MAX,
        ensures
            result == next_event_result(old(self)@, reply, now),
            final(self)@ == if result matches Ok(handled) && handled.event is Invoke {
                old(self)@.after_invocation(now).after_strategy_update(now)
            } else {
                old(self)@
            },
            final(self)@.wf(),
    {
        if self.extension_id.is_none() {
            return Err(LifecycleError::NotRegistered);
        }
        if !status_is_success(reply.status) {
            return Err(LifecycleError::EventRejected { status: reply.status, text: reply.text });
        }
        match reply.event {
            None => Err(LifecycleError::InvalidEvent),
            Some(event) => {
                match &event {
                    NextEventResponse::Invoke { .. } => {
                        self.record_invocation(now);
                        let task = self.update_flushing_strategy(now);
                        Ok(HandledEvent { event, task, flush: FlushDecision::Skip })
                    },
                    NextEventResponse::Shutdown { .. } => {
                        let flush = self.flush_end_of_invocation();
                        Ok(HandledEvent { event, task: TaskAction::Keep, flush })
                    },
                }
            },
        }
    }

    /// The name under which the extension registers.
    pub fn extension_name(&self) -> (name: &str)
        ensures
            name@ == self@.extension_name,
    {
        self.extension_name.as_str()
    }

    /// The address of the host's lifecycle interface.
    pub fn runtime_api_endpoint(&self) -> (endpoint: &str)
        ensures
            endpoint@ == self@.runtime_api_endpoint,
    {
        self.runtime_api_endpoint.as_str()
    }

    /// The invocations recorded so far.
    pub fn invocation_count(&self) -> (count: u64)
        ensures
            count == self@.invocation_count,
    {
        self.invocation_count
    }

    /// The strategy in force.
    pub fn current_strategy(&self) -> (strategy: FlushingStrategy)
        ensures
            strategy == self@.current_strategy,
    {
        match self.mode {
            StrategyMode::EndOfInvocation => FlushingStrategy::EndOfInvocation,
            StrategyMode::Continuous { .. } => FlushingStrategy::Continuous,
            StrategyMode::Periodic => FlushingStrategy::Periodic,
        }
    }
}

/// What [`ExtensionClient::next_event`] answers in state `client`.
pub open spec fn next_event_result(client: ClientState, reply: EventReply, now: u64) -> Result<
    HandledEvent,
    LifecycleError,
> {
    if client.extension_id is None {
        Err(LifecycleError::NotRegistered)
    } else if !is_success_status(reply.status) {
        Err(LifecycleError::EventRejected { status: reply.status, text: reply.text })
    } else {
        match reply.event {
            None => Err(LifecycleError::InvalidEvent),
            Some(event) => match event {
                NextEventResponse::Invoke { .. } => Ok(
                    HandledEvent {
                        event,
                        task: client.after_invocation(now).task_action(now),
                        flush: FlushDecision::Skip,
                    },
                ),
                NextEventResponse::Shutdown { .. } => Ok(
                    HandledEvent {
                        event,
                        task: TaskAction::Keep,
                        flush: client.attached_flush(),
                    },
                ),
            },
        }
    }
}

/// What a flush is told between two of its steps.
#[derive(Debug, Clone, PartialEq, Eq)]
pub enum FlushEvent {
    /// Nothing yet: the flush begins.
    Start,
    /// The batch handed out last was delivered.
    Sent { events_sent: u64 },
    /// The batch handed out last was not delivered.
    Failed { error: SendError },
}

/// What the caller does next in a flush.
#[derive(Debug, Clone, PartialEq, Eq)]
pub enum FlushStep {
    /// Send `batch` and report how that went, together with `total_events`.
    Send { batch: Vec<u8>, total_events: u64 },
    /// The flush is over; `total_events` records were delivered.
    Finished { total_events: u64 },
    /// The flush is given up. The batch that failed is not put back.
    Aborted { error: SendError },
}

/// A drain in the course of a flush that has delivered `total` records:
/// from `before` it either hands out the next batch and leaves `after`, or
/// finds nothing pending and ends the flush.
pub open spec fn drains(before: AggregatorState, total: int, step: FlushStep, after: AggregatorState) -> bool {
    if before.batch_count() == 0 {
        step == (FlushStep::Finished { total_events: total as u64 }) && after == before
    } else {
        &&& step matches FlushStep::Send { batch, total_events }
        &&& batch@ == batch_bytes(before.next_records())
        &&& total_events == total
        &&& after == before.after_drain()
    }
}

fn drain_next(aggregator: &mut TelemetryAggregator, total_events: u64) -> (step: FlushStep)
    ensures
        drains(old(aggregator)@, total_events as int, step, final(aggregator)@),
{
    proof {
        aggregator@.lemma_batch_count_bounds(0);
    }
    let batch = aggregator.get_batch();
    if batch.len() == 0 {
        proof {
            assert(old(aggregator)@.messages.skip(0) == old(aggregator)@.messages);
        }
        FlushStep::Finished { total_events }
    } else {
        FlushStep::Send { batch, total_events }
    }
}

/// One step of the synchronous flush: drain and send until nothing is
/// pending or a send fails.
///
/// `total_events` is the number of records delivered before `event`. A
/// failure ends the flush and leaves the buffer as it is: the batch that
/// failed stays lost.
pub fn flush_telemetry_synchronously(
    aggregator: &mut TelemetryAggregator,
    total_events: u64,
    event: FlushEvent,
) -> (step: FlushStep)
    requires
        event matches FlushEvent::Sent { events_sent } ==> total_events + events_sent <= u64::MAX,
    ensures
        match event {
            FlushEvent::Start => drains(
                old(aggregator)@,
                total_events as int,
                step,
                final(aggregator)@,
            ),
            FlushEvent::Sent { events_sent } => drains(
                old(aggregator)@,
                total_events + events_sent,
                step,
                final(aggregator)@,
            ),
            FlushEvent::Failed { error } => step == (FlushStep::Aborted { error }) && final(aggregator)@ == old(aggregator)@,
        },
{
    match event {
        FlushEvent::Start => drain_next(aggregator, total_events),
        FlushEvent::Sent { events_sent } => drain_next(aggregator, total_events + events_sent),
        FlushEvent::Failed { error } => FlushStep::Aborted { error },
    }
}

/// One step of the flush that the background task makes on every tick: a
/// single batch is drained and sent.
pub fn flush_telemetry_async(aggregator: &mut TelemetryAggregator, event: FlushEvent) -> (step:
    FlushStep)
    ensures
        match event {
            FlushEvent::Start => drains(old(aggregator)@, 0, step, final(aggregator)@),
            FlushEvent::Sent { events_sent } => step == (FlushStep::Finished {
                total_events: events_sent,
            }) && final(aggregator)@ == old(aggregator)@,
            FlushEvent::Failed { error } => step == (FlushStep::Aborted { error }) && final(aggregator)@ == old(aggregator)@,
        },
{
    match event {
        FlushEvent::Start => drain_next(aggregator, 0),
        FlushEvent::Sent { events_sent } => FlushStep::Finished { total_events: events_sent },
        FlushEvent::Failed { error } => FlushStep::Aborted { error },
    }
}

/// A whole synchronous flush, as its steps unfold.
pub struct FlushTrace {
    /// The batches handed out, in order.
    pub batches: Seq<Seq<u8>>,
    /// The buffer when the flush stops.
    pub buffer: AggregatorState,
    /// How the flush ended; `None` while the answer to a batch is awaited.
    pub result: Option<Result<int, SendError>>,
}

/// The synchronous flush of `buffer` that has delivered `total` records and
/// whose sends end as `replies` say, in turn.
pub open spec fn flush_trace(buffer: AggregatorState, total: int, replies: Seq<Result<u64, SendError>>) -> FlushTrace
    decreases replies.len(),
{
    if buffer.batch_count() == 0 {
        FlushTrace { batches: Seq::empty(), buffer, result: Some(Ok(total)) }
    } else if replies.len() == 0 {
        FlushTrace {
            batches: seq![batch_bytes(buffer.next_records())],
            buffer: buffer.after_drain(),
            result: None,
        }
    } else {
        match replies[0] {
            Ok(events_sent) => {
                let rest = flush_trace(
                    buffer.after_drain(),
                    total + events_sent,
                    replies.drop_first(),
                );
                FlushTrace {
                    batches: seq![batch_bytes(buffer.next_records())] + rest.batches,
                    ..rest
                }
            },
            Err(error) => FlushTrace {
                batches: seq![batch_bytes(buffer.next_records())],
                buffer: buffer.after_drain(),
                result: Some(Err(error)),
            },
        }
    }
}

/// Against a sink that accepts every batch, a synchronous flush ends well
/// and leaves the buffer empty, having handed out the pending records in
/// their order. The count limit of the buffer must not be zero.
pub proof fn lemma_flush_empties_buffer(buffer: AggregatorState, total: int, replies: Seq<Result<u64, SendError>>)
    requires
        buffer.max_batch_entries_size > 0,
        replies.len() >= buffer.messages.len(),
        forall|i: int| 0 <= i < replies.len() ==> #[trigger] replies[i] is Ok,
    ensures
        flush_trace(buffer, total, replies).result matches Some(Ok(_)),
        flush_trace(buffer, total, replies).buffer.messages.len() == 0,
        flush_trace(buffer, total, replies).buffer == buffer.after_flush(),
        flush_trace(buffer, total, replies).batches == buffer.drained_batches().map_values(
            |records: Seq<Seq<char>>| batch_bytes(records),
        ),
    decreases replies.len(),
{
    buffer.lemma_batch_count_bounds(0);
    let encode = |records: Seq<Seq<char>>| batch_bytes(records);
    if buffer.messages.len() == 0 {
        buffer.lemma_empty_drain();
        assert(buffer.drained_batches().map_values(encode) == Seq::<Seq<u8>>::empty());
    } else {
        buffer.lemma_drain_makes_progress();
        let rest = buffer.after_drain();
        let later = replies.drop_first();
        assert forall|i: int| 0 <= i < later.len() implies #[trigger] later[i] is Ok by {
            assert(later[i] == replies[i + 1]);
        }
        lemma_flush_empties_buffer(rest, total + replies[0]->Ok_0, later);
        assert((seq![buffer.next_records()] + rest.drained_batches()).map_values(encode) == seq![
            batch_bytes(buffer.next_records()),
        ] + rest.drained_batches().map_values(encode));
    }
}

/// A batch whose send fails is not put back: the flush ends with that
/// error, and the buffer is the one that the drain left.
pub proof fn lemma_failed_batch_is_dropped(buffer: AggregatorState, total: int, replies: Seq<Result<u64, SendError>>)
    requires
        buffer.batch_count() > 0,
        replies.len() > 0,
        replies[0] is Err,
    ensures
        flush_trace(buffer, total, replies).result == Some(
            Err::<int, SendError>(replies[0]->Err_0),
        ),
        flush_trace(buffer, total, replies).buffer == buffer.after_drain(),
        flush_trace(buffer, total, replies).batches == seq![batch_bytes(buffer.next_records())],
{
}

/// Shutdown flush: a shutdown event asks for the synchronous flush whatever
/// the strategy in force and whenever the last periodic flush was, and
/// against a sink that accepts every batch that flush leaves the buffer
/// empty. The client must be registered and have its buffer attached, and
/// the count limit of the buffer must not be zero.
pub proof fn lemma_shutdown_flushes(
    client: ClientState,
    reply: EventReply,
    now: u64,
    buffer: AggregatorState,
    replies: Seq<Result<u64, SendError>>,
)
    requires
        client.extension_id is Some,
        client.telemetry_components_set,
        is_success_status(reply.status),
        reply.event matches Some(event) && event is Shutdown,
        buffer.max_batch_entries_size > 0,
        replies.len() >= buffer.messages.len(),
        forall|i: int| 0 <= i < replies.len() ==> #[trigger] replies[i] is Ok,
    ensures
        next_event_result(client, reply, now) matches Ok(handled) && handled.flush
            == FlushDecision::Flush,
        flush_trace(buffer, 0, replies).result matches Some(Ok(_)),
        flush_trace(buffer, 0, replies).buffer.messages.len() == 0,
{
    lemma_flush_empties_buffer(buffer, 0, replies);
}

} // verus!
