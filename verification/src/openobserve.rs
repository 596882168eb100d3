//! The outbound sender: what follows each attempt to post a batch.
//!
//! The caller posts the batch and sleeps; this module decides. After every
//! attempt the caller reports the outcome to [`send_batch_to_openobserve`],
//! which answers with the next step.

use crate::config::Config;
use crate::telemetry::TelemetryEvent;
use crate::text::{
    trim_text, trimmed, utf8_text, BACKSLASH, CLOSE_BRACE, CLOSE_BRACKET, COMMA, OPEN_BRACE,
    OPEN_BRACKET, QUOTE,
};
use vstd::prelude::*;
use vstd::string::*;
use vstd::utf8::*;

verus! {

/// The status that asks the sender to slow down.
pub const TOO_MANY_REQUESTS: u16 = 429;

/// What one attempt to post the batch came to.
#[derive(Debug, Clone, PartialEq, Eq)]
pub enum AttemptOutcome {
    /// The sink answered. `body` is the response body, read to its end;
    /// `None` where it could not be read.
    Response { status: u16, body: Option<String> },
    /// No answer came: a transport or network error, with its description.
    Transport { detail: String },
}

/// Why a batch was not delivered. It carries the last outcome observed.
#[derive(Debug, Clone, PartialEq, Eq)]
pub enum SendError {
    /// The sink answered with a status outside 2xx.
    Status { status: u16, body: Option<String> },
    /// No answer came.
    Transport { detail: String },
}

/// Where the sender stands before an attempt.
#[derive(Debug, Clone, Copy, PartialEq, Eq)]
pub struct SendProgress {
    /// Attempts made so far.
    pub attempt: u32,
    /// Delay before the next retry, in milliseconds.
    pub current_delay: u64,
    /// Estimated number of records in the batch.
    pub events_count: u64,
}

/// What the caller does after an attempt.
#[derive(Debug, Clone, PartialEq, Eq)]
pub enum SendStep {
    /// The batch was delivered.
    Sent { events_sent: u64 },
    /// Sleep for `delay_ms` milliseconds, post again, and report the outcome
    /// together with `next`.
    Retry { delay_ms: u64, next: SendProgress },
    /// Give up.
    Failed { error: SendError },
}

/// 2xx.
pub open spec fn is_success_status(status: u16) -> bool {
    200 <= status < 300
}

/// 5xx, or 429.
pub open spec fn is_retryable_status(status: u16) -> bool {
    500 <= status < 600 || status == TOO_MANY_REQUESTS
}

/// Whether a status reports success.
pub fn status_is_success(status: u16) -> (success: bool)
    ensures
        success == is_success_status(status),
{
    200 <= status && status < 300
}

/// Whether a status asks for another attempt.
pub fn status_is_retryable(status: u16) -> (retryable: bool)
    ensures
        retryable == is_retryable_status(status),
{
    (500 <= status && status < 600) || status == TOO_MANY_REQUESTS
}

/// The failure that an outcome stands for, where it is one.
pub open spec fn failure_of(outcome: AttemptOutcome) -> SendError {
    match outcome {
        AttemptOutcome::Response { status, body } => SendError::Status { status, body },
        AttemptOutcome::Transport { detail } => SendError::Transport { detail },
    }
}

/// A failed attempt that may be repeated: no answer, 5xx, or 429.
pub open spec fn is_retryable_outcome(outcome: AttemptOutcome) -> bool {
    match outcome {
        AttemptOutcome::Response { status, .. } => is_retryable_status(status),
        AttemptOutcome::Transport { .. } => true,
    }
}

/// A failed attempt that must not be repeated: a status that is neither 2xx,
/// nor 5xx, nor 429.
pub open spec fn is_terminal_outcome(outcome: AttemptOutcome) -> bool {
    outcome matches AttemptOutcome::Response { status, .. } && !is_success_status(status)
        && !is_retryable_status(status)
}

/// The delay that follows `current`: twice as long, capped at `max_delay`.
pub open spec fn next_delay(current: u64, max_delay: u64) -> u64 {
    if 2 * current <= max_delay {
        (2 * current) as u64
    } else {
        max_delay
    }
}

/// The delay before retry number `retry` (from 0), starting at `initial`.
pub open spec fn backoff_delay(initial: u64, max_delay: u64, retry: nat) -> u64
    decreases retry,
{
    if retry == 0 {
        initial
    } else {
        next_delay(backoff_delay(initial, max_delay, (retry - 1) as nat), max_delay)
    }
}

/// The step that follows `outcome` at `progress`.
pub open spec fn send_step(config: Config, progress: SendProgress, outcome: AttemptOutcome) -> SendStep {
    if outcome matches AttemptOutcome::Response { status, .. } && is_success_status(status) {
        SendStep::Sent { events_sent: progress.events_count }
    } else if !is_retryable_outcome(outcome) || progress.attempt >= config.max_retries {
        SendStep::Failed { error: failure_of(outcome) }
    } else {
        SendStep::Retry {
            delay_ms: progress.current_delay,
            next: SendProgress {
                attempt: (progress.attempt + 1) as u32,
                current_delay: next_delay(progress.current_delay, config.max_retry_delay_ms),
                events_count: progress.events_count,
            },
        }
    }
}

/// What a scan of JSON text has seen so far.
pub struct ScanState {
    /// Brackets and braces that are open.
    pub depth: nat,
    /// Inside a string literal.
    pub in_string: bool,
    /// Directly behind a backslash inside a string literal.
    pub escaped: bool,
    /// Commas seen at depth 1, outside string literals.
    pub separators: nat,
}

/// The scan after one more byte.
pub open spec fn scan_byte(state: ScanState, byte: u8) -> ScanState {
    if state.in_string {
        if state.escaped {
            ScanState { escaped: false, ..state }
        } else if byte == BACKSLASH {
            ScanState { escaped: true, ..state }
        } else if byte == QUOTE {
            ScanState { in_string: false, ..state }
        } else {
            state
        }
    } else if byte == QUOTE {
        ScanState { in_string: true, ..state }
    } else if byte == OPEN_BRACKET || byte == OPEN_BRACE {
        ScanState { depth: state.depth + 1, ..state }
    } else if byte == CLOSE_BRACKET || byte == CLOSE_BRACE {
        ScanState { depth: if state.depth > 0 { (state.depth - 1) as nat } else { 0 }, ..state }
    } else if byte == COMMA && state.depth == 1 {
        ScanState { separators: state.separators + 1, ..state }
    } else {
        state
    }
}

/// The scan of `bytes` from their start.
pub open spec fn scan(bytes: Seq<u8>) -> ScanState
    decreases bytes.len(),
{
    if bytes.len() == 0 {
        ScanState { depth: 0, in_string: false, escaped: false, separators: 0 }
    } else {
        scan_byte(scan(bytes.drop_last()), bytes.last())
    }
}

/// Commas that separate the elements of the outermost array of `bytes`.
pub open spec fn top_level_separators(bytes: Seq<u8>) -> nat {
    scan(bytes).separators
}

/// Text that begins with `[` and ends with `]`.
pub open spec fn is_bracketed(text: Seq<u8>) -> bool {
    text.len() > 0 && text[0] == OPEN_BRACKET && text.last() == CLOSE_BRACKET
}

/// Whether `bytes` are text that, trimmed, is enclosed in square brackets.
pub open spec fn looks_like_array(bytes: Seq<u8>) -> bool {
    valid_utf8(bytes) && is_bracketed(encode_utf8(trimmed(decode_utf8(bytes))))
}

/// The estimated number of records in a batch: one more than the top-level
/// separators where the batch looks like an array, else one.
pub open spec fn estimated_events(bytes: Seq<u8>) -> nat {
    if looks_like_array(bytes) {
        top_level_separators(bytes) + 1
    } else {
        1
    }
}

/// A scan counts no separator in the first byte, and opens at most one
/// level per byte.
pub proof fn lemma_scan_bounds(bytes: Seq<u8>)
    ensures
        scan(bytes).depth <= bytes.len(),
        scan(bytes).separators <= bytes.len(),
        bytes.len() > 0 ==> scan(bytes).separators < bytes.len(),
    decreases bytes.len(),
{
    if bytes.len() > 0 {
        lemma_scan_bounds(bytes.drop_last());
    }
}

/// Counts the commas that separate the elements of the outermost array.
pub fn count_top_level_separators(bytes: &[u8]) -> (count: usize)
    ensures
        count == top_level_separators(bytes@),
{
    let mut depth: usize = 0;
    let mut in_string = false;
    let mut escaped = false;
    let mut separators: usize = 0;
    let mut i: usize = 0;
    while i < bytes.len()
        invariant
            i <= bytes.len(),
            scan(bytes@.take(i as int)) == (ScanState {
                depth: depth as nat,
                in_string,
                escaped,
                separators: separators as nat,
            }),
        decreases bytes.len() - i,
    {
        let byte: u8 = bytes[i];
        proof {
            lemma_scan_bounds(bytes@.take(i as int));
            assert(bytes@.take(i + 1).drop_last() == bytes@.take(i as int));
            assert(bytes@.take(i + 1).last() == byte);
        }
        if in_string {
            if escaped {
                escaped = false;
            } else if byte == BACKSLASH {
                escaped = true;
            } else if byte == QUOTE {
                in_string = false;
            }
        } else if byte == QUOTE {
            in_string = true;
        } else if byte == OPEN_BRACKET || byte == OPEN_BRACE {
            depth = depth + 1;
        } else if byte == CLOSE_BRACKET || byte == CLOSE_BRACE {
            if depth > 0 {
                depth = depth - 1;
            }
        } else if byte == COMMA && depth == 1 {
            separators = separators + 1;
        }
        i = i + 1;
    }
    proof {
        assert(bytes@.take(i as int) == bytes@);
    }
    separators
}

/// Estimates how many records a batch holds. The estimate serves logging
/// and metrics only.
pub fn estimate_events(json_batch: &[u8]) -> (count: u64)
    ensures
        count == estimated_events(json_batch@),
{
    match utf8_text(json_batch) {
        Some(text) => {
            let inner = trim_text(text).as_bytes();
            if inner.len() > 0 && inner[0] == OPEN_BRACKET && inner[inner.len() - 1]
                == CLOSE_BRACKET {
                let separators = count_top_level_separators(json_batch);
                proof {
                    lemma_scan_bounds(json_batch@);
                }
                assert(separators < usize::MAX) by {
                    assert(json_batch@.len() == json_batch.len());
                }
                separators as u64 + 1
            } else {
                1
            }
        },
        None => 1,
    }
}

impl SendProgress {
    /// The progress before the first attempt to send `json_batch`.
    pub fn start(config: &Config, json_batch: &[u8]) -> (progress: SendProgress)
        requires
            json_batch@.len() > 0,
        ensures
            progress == (SendProgress {
                attempt: 0,
                current_delay: config.initial_retry_delay_ms,
                events_count: estimated_events(json_batch@) as u64,
            }),
            progress.events_count == estimated_events(json_batch@),
    {
        SendProgress {
            attempt: 0,
            current_delay: config.initial_retry_delay_ms,
            events_count: estimate_events(json_batch),
        }
    }
}

impl SendError {
    /// Whether the failure is of the kind that the sender repeats while
    /// retries are left: no answer, 5xx or 429.
    pub fn is_retryable(&self) -> (retryable: bool)
        ensures
            retryable == match *self {
                SendError::Status { status, .. } => is_retryable_status(status),
                SendError::Transport { .. } => true,
            },
    {
        match self {
            SendError::Status { status, .. } => status_is_retryable(*status),
            SendError::Transport { .. } => true,
        }
    }
}

/// Decides what follows one attempt to post a batch.
///
/// A 2xx answer ends the send with the estimated record count. No answer,
/// a 5xx or a 429 is retried after the current delay while fewer than
/// `max_retries` retries were made; the delay then doubles, capped at
/// `max_retry_delay_ms`. Any other status, or a failure with no retry left,
/// ends the send with that outcome as the error.
pub fn send_batch_to_openobserve(
    config: &Config,
    progress: SendProgress,
    outcome: AttemptOutcome,
) -> (step: SendStep)
    ensures
        step == send_step(*config, progress, outcome),
{
    let retries_left = progress.attempt < config.max_retries;
    match outcome {
        AttemptOutcome::Response { status, body } => {
            if status_is_success(status) {
                SendStep::Sent { events_sent: progress.events_count }
            } else if status_is_retryable(status) && retries_left {
                SendStep::Retry { delay_ms: progress.current_delay, next: advance(config, progress) }
            } else {
                SendStep::Failed { error: SendError::Status { status, body } }
            }
        },
        AttemptOutcome::Transport { detail } => {
            if retries_left {
                SendStep::Retry { delay_ms: progress.current_delay, next: advance(config, progress) }
            } else {
                SendStep::Failed { error: SendError::Transport { detail } }
            }
        },
    }
}

/// The progress after one more failed attempt.
fn advance(config: &Config, progress: SendProgress) -> (next: SendProgress)
    requires
        progress.attempt < config.max_retries,
    ensures
        next == (SendProgress {
            attempt: (progress.attempt + 1) as u32,
            current_delay: next_delay(progress.current_delay, config.max_retry_delay_ms),
            events_count: progress.events_count,
        }),
{
    let doubled = if progress.current_delay <= config.max_retry_delay_ms / 2 {
        progress.current_delay * 2
    } else {
        config.max_retry_delay_ms
    };
    SendProgress {
        attempt: progress.attempt + 1,
        current_delay: doubled,
        events_count: progress.events_count,
    }
}

/// A whole send, as its attempts unfold.
pub struct SendTrace {
    /// Requests made.
    pub attempts: nat,
    /// The sleeps between the requests, in milliseconds, in order.
    pub delays: Seq<u64>,
    /// How the send ended; `None` while another attempt is due.
    pub result: Option<Result<u64, SendError>>,
}

/// The send that starts at `progress` and meets `outcomes` in turn. Outcomes
/// behind the one that ends the send are not looked at.
pub open spec fn send_trace(config: Config, progress: SendProgress, outcomes: Seq<AttemptOutcome>) -> SendTrace
    decreases outcomes.len(),
{
    if outcomes.len() == 0 {
        SendTrace { attempts: 0, delays: Seq::empty(), result: None }
    } else {
        match send_step(config, progress, outcomes[0]) {
            SendStep::Sent { events_sent } => SendTrace {
                attempts: 1,
                delays: Seq::empty(),
                result: Some(Ok(events_sent)),
            },
            SendStep::Failed { error } => SendTrace {
                attempts: 1,
                delays: Seq::empty(),
                result: Some(Err(error)),
            },
            SendStep::Retry { delay_ms, next } => {
                let rest = send_trace(config, next, outcomes.drop_first());
                SendTrace {
                    attempts: 1 + rest.attempts,
                    delays: seq![delay_ms] + rest.delays,
                    result: rest.result,
                }
            },
        }
    }
}

/// The progress that [`SendProgress::start`] gives for `events_count`.
pub open spec fn initial_progress(config: Config, events_count: u64) -> SendProgress {
    SendProgress { attempt: 0, current_delay: config.initial_retry_delay_ms, events_count }
}

/// Starting one step later in the backoff is the same as starting at the
/// next delay.
pub proof fn lemma_backoff_shift(initial: u64, max_delay: u64, retry: nat)
    ensures
        backoff_delay(next_delay(initial, max_delay), max_delay, retry) == backoff_delay(
            initial,
            max_delay,
            retry + 1,
        ),
    decreases retry,
{
    assert(backoff_delay(initial, max_delay, retry + 1) == next_delay(
        backoff_delay(initial, max_delay, retry),
        max_delay,
    ));
    if retry > 0 {
        lemma_backoff_shift(initial, max_delay, (retry - 1) as nat);
    }
}

/// Against a sink that fails every attempt in a retryable way, a send that
/// has `outcomes.len()` attempts left makes them all, sleeps between them
/// for the backoff delays, and fails with the last outcome.
pub proof fn lemma_retries_from(config: Config, progress: SendProgress, outcomes: Seq<AttemptOutcome>)
    requires
        progress.attempt <= config.max_retries,
        outcomes.len() == config.max_retries - progress.attempt + 1,
        forall|i: int| 0 <= i < outcomes.len() ==> is_retryable_outcome(#[trigger] outcomes[i]),
    ensures
        send_trace(config, progress, outcomes).attempts == outcomes.len(),
        send_trace(config, progress, outcomes).delays.len() == outcomes.len() - 1,
        forall|i: int|
            0 <= i < outcomes.len() - 1 ==> #[trigger] send_trace(
                config,
                progress,
                outcomes,
            ).delays[i] == backoff_delay(progress.current_delay, config.max_retry_delay_ms, i as nat),
        send_trace(config, progress, outcomes).result == Some(
            Err::<u64, SendError>(failure_of(outcomes.last())),
        ),
    decreases outcomes.len(),
{
    let trace = send_trace(config, progress, outcomes);
    assert(is_retryable_outcome(outcomes[0]));
    if progress.attempt < config.max_retries {
        let next = SendProgress {
            attempt: (progress.attempt + 1) as u32,
            current_delay: next_delay(progress.current_delay, config.max_retry_delay_ms),
            events_count: progress.events_count,
        };
        let rest_outcomes = outcomes.drop_first();
        assert forall|i: int| 0 <= i < rest_outcomes.len() implies is_retryable_outcome(
            #[trigger] rest_outcomes[i],
        ) by {
            assert(rest_outcomes[i] == outcomes[i + 1]);
        }
        lemma_retries_from(config, next, rest_outcomes);
        let rest = send_trace(config, next, rest_outcomes);
        assert(rest_outcomes.last() == outcomes.last());
        assert forall|i: int| 0 <= i < outcomes.len() - 1 implies #[trigger] trace.delays[i]
            == backoff_delay(progress.current_delay, config.max_retry_delay_ms, i as nat) by {
            if i > 0 {
                assert(trace.delays[i] == rest.delays[i - 1]);
                lemma_backoff_shift(
                    progress.current_delay,
                    config.max_retry_delay_ms,
                    (i - 1) as nat,
                );
            }
        }
    }
}

/// Retry and backoff: against a sink that fails every attempt in a retryable
/// way, a send makes exactly `max_retries + 1` requests, sleeps between them
/// for `initial_retry_delay_ms`, then twice as long each time up to
/// `max_retry_delay_ms`, and fails with the last outcome.
pub proof fn lemma_retry_backoff(config: Config, events_count: u64, outcomes: Seq<AttemptOutcome>)
    requires
        outcomes.len() == config.max_retries + 1,
        forall|i: int| 0 <= i < outcomes.len() ==> is_retryable_outcome(#[trigger] outcomes[i]),
    ensures
        send_trace(config, initial_progress(config, events_count), outcomes).attempts
            == config.max_retries + 1,
        send_trace(config, initial_progress(config, events_count), outcomes).delays.len()
            == config.max_retries,
        forall|i: int|
            0 <= i < config.max_retries ==> #[trigger] send_trace(
                config,
                initial_progress(config, events_count),
                outcomes,
            ).delays[i] == backoff_delay(
                config.initial_retry_delay_ms,
                config.max_retry_delay_ms,
                i as nat,
            ),
        send_trace(config, initial_progress(config, events_count), outcomes).result == Some(
            Err::<u64, SendError>(failure_of(outcomes.last())),
        ),
{
    lemma_retries_from(config, initial_progress(config, events_count), outcomes);
}

/// No retry on a terminal status: an answer that is neither 2xx, nor 5xx,
/// nor 429 ends the send at that attempt, with no sleep, and with that
/// answer as the error.
pub proof fn lemma_terminal_status_ends_send(
    config: Config,
    progress: SendProgress,
    outcomes: Seq<AttemptOutcome>,
)
    requires
        outcomes.len() > 0,
        is_terminal_outcome(outcomes[0]),
    ensures
        send_trace(config, progress, outcomes).attempts == 1,
        send_trace(config, progress, outcomes).delays.len() == 0,
        send_trace(config, progress, outcomes).result == Some(
            Err::<u64, SendError>(failure_of(outcomes[0])),
        ),
{
}

/// A send makes no more requests than the retries that are left allow, one
/// for each outcome that it meets, and sleeps once between two requests.
pub proof fn lemma_attempts_bounded(config: Config, progress: SendProgress, outcomes: Seq<AttemptOutcome>)
    requires
        progress.attempt <= config.max_retries,
    ensures
        send_trace(config, progress, outcomes).attempts <= config.max_retries - progress.attempt
            + 1,
        send_trace(config, progress, outcomes).attempts <= outcomes.len(),
        send_trace(config, progress, outcomes).delays.len() == if send_trace(
            config,
            progress,
            outcomes,
        ).result is Some {
            send_trace(config, progress, outcomes).attempts - 1
        } else {
            send_trace(config, progress, outcomes).attempts as int
        },
    decreases outcomes.len(),
{
    if outcomes.len() > 0 {
        if let SendStep::Retry { delay_ms, next } = send_step(config, progress, outcomes[0]) {
            lemma_attempts_bounded(config, next, outcomes.drop_first());
        }
    }
}

/// The record that a connectivity check sends: an `extension` record
/// produced at `time`, in microseconds since the Unix epoch.
pub fn create_test_event(time: i64) -> (event: TelemetryEvent)
    ensures
        event.time == time,
        event.event_type@ == "extension"@,
        event.record@ == "\"OpenObserve Lambda Extension health check\""@,
        event.request_id is None,
{
    TelemetryEvent {
        time,
        event_type: String::from_str("extension"),
        record: String::from_str("\"OpenObserve Lambda Extension health check\""),
        request_id: None,
    }
}

} // verus!
