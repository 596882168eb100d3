//! The buffer of pending records and the batches drained from it.

use crate::text::{CLOSE_BRACKET, COMMA, OPEN_BRACKET};
use crate::openobserve::{is_success_status, status_is_success};
use crate::wire::{assemble, decimal, decimal_text, json_string, json_string_literal, wire_text};
use std::collections::VecDeque;
use vstd::prelude::*;
use vstd::string::*;
use vstd::utf8::*;

verus! {

/// One pushed log, metric or trace entry.
#[derive(Debug, Clone, PartialEq, Eq)]
pub struct TelemetryEvent {
    /// When the record was produced, in microseconds since the Unix epoch.
    pub time: i64,
    /// The category: `function`, `platform` or `extension`.
    pub event_type: String,
    /// The payload as JSON text. It is forwarded as it stands.
    pub record: String,
    /// The invocation that the record belongs to, if any.
    pub request_id: Option<String>,
}

/// The wire form of `event`; `None` where one of its texts cannot be written
/// as JSON.
pub open spec fn wire_form(event: TelemetryEvent) -> Option<Seq<char>> {
    match json_string_literal(event.event_type@) {
        None => None,
        Some(event_type) => match event.request_id {
            None => Some(wire_text(event.time, event.record@, None, event_type)),
            Some(id) => match json_string_literal(id@) {
                None => None,
                Some(request_id) => Some(
                    wire_text(event.time, event.record@, Some(request_id), event_type),
                ),
            },
        },
    }
}

/// The wire forms of `events` in order, without the events that have none.
pub open spec fn wire_forms(events: Seq<TelemetryEvent>) -> Seq<Seq<char>>
    decreases events.len(),
{
    if events.len() == 0 {
        Seq::empty()
    } else {
        match wire_form(events.last()) {
            Some(wire) => wire_forms(events.drop_last()).push(wire),
            None => wire_forms(events.drop_last()),
        }
    }
}

impl TelemetryEvent {
    /// Computes the wire form of the event.
    pub fn to_wire_form(&self) -> (wire: Option<String>)
        ensures
            match wire {
                Some(text) => wire_form(*self) == Some(text@),
                None => wire_form(*self) is None,
            },
    {
        let event_type = match json_string(self.event_type.as_str()) {
            Ok(literal) => literal,
            Err(_) => {
                return None;
            },
        };
        match &self.request_id {
            None => Some(assemble(self.time, self.record.as_str(), None, event_type.as_str())),
            Some(id) => match json_string(id.as_str()) {
                Ok(request_id) => Some(
                    assemble(
                        self.time,
                        self.record.as_str(),
                        Some(request_id.as_str()),
                        event_type.as_str(),
                    ),
                ),
                Err(_) => None,
            },
        }
    }
}

/// The records joined by commas, each in UTF-8.
pub open spec fn joined(records: Seq<Seq<char>>) -> Seq<u8>
    decreases records.len(),
{
    if records.len() == 0 {
        Seq::empty()
    } else if records.len() == 1 {
        encode_utf8(records[0])
    } else {
        joined(records.drop_last()) + seq![COMMA] + encode_utf8(records.last())
    }
}

/// The batch that holds `records`: a JSON array of them, or nothing at all
/// where there are none.
pub open spec fn batch_bytes(records: Seq<Seq<char>>) -> Seq<u8> {
    if records.len() == 0 {
        Seq::empty()
    } else {
        seq![OPEN_BRACKET] + joined(records) + seq![CLOSE_BRACKET]
    }
}

/// What a [`TelemetryAggregator`] holds: the pending wire forms, oldest
/// first, and the two limits of a batch.
#[verifier::ext_equal]
pub struct AggregatorState {
    pub messages: Seq<Seq<char>>,
    pub max_content_size_bytes: nat,
    pub max_batch_entries_size: nat,
}

impl AggregatorState {
    /// Whether the first `count` records may form one batch: there are that
    /// many, the count limit allows them, and the batch keeps to the byte
    /// limit. A single record is let through whatever its size, so that an
    /// oversized record cannot block the queue.
    pub open spec fn fits(self, count: nat) -> bool {
        &&& count <= self.messages.len()
        &&& count <= self.max_batch_entries_size
        &&& (count <= 1 || batch_bytes(self.messages.take(count as int)).len()
            <= self.max_content_size_bytes)
    }

    /// The number of records in the next batch, given that the first `taken`
    /// are in it: records are added while they fit.
    pub open spec fn batch_count_from(self, taken: nat) -> nat
        decreases self.messages.len() - taken,
    {
        if taken < self.messages.len() && self.fits(taken + 1) {
            self.batch_count_from(taken + 1)
        } else {
            taken
        }
    }

    /// The number of records in the next batch.
    pub open spec fn batch_count(self) -> nat {
        self.batch_count_from(0)
    }

    /// The records of the next batch.
    pub open spec fn next_records(self) -> Seq<Seq<char>> {
        self.messages.take(self.batch_count() as int)
    }

    /// The state after the next batch was drained.
    pub open spec fn after_drain(self) -> AggregatorState {
        AggregatorState { messages: self.messages.skip(self.batch_count() as int), ..self }
    }

    /// The state after `records` were enqueued.
    pub open spec fn with_records(self, records: Seq<Seq<char>>) -> AggregatorState {
        AggregatorState { messages: self.messages + records, ..self }
    }

    /// The state after each of `pushes` was enqueued, in turn.
    pub open spec fn after_pushes(self, pushes: Seq<Seq<TelemetryEvent>>) -> AggregatorState
        decreases pushes.len(),
    {
        if pushes.len() == 0 {
            self
        } else {
            self.after_pushes(pushes.drop_last()).with_records(wire_forms(pushes.last()))
        }
    }

    /// The batches that repeated draining yields, up to the first empty one.
    pub open spec fn drained_batches(self) -> Seq<Seq<Seq<char>>>
        decreases self.messages.len(),
        via Self::drained_batches_decreases
    {
        if self.batch_count() == 0 {
            Seq::empty()
        } else {
            seq![self.next_records()] + self.after_drain().drained_batches()
        }
    }

    #[via_fn]
    proof fn drained_batches_decreases(self) {
        self.lemma_batch_count_bounds(0);
    }

    /// The state in which repeated draining ends: the one whose next batch
    /// is empty.
    pub open spec fn after_flush(self) -> AggregatorState
        decreases self.messages.len(),
        via Self::after_flush_decreases
    {
        if self.batch_count() == 0 {
            self
        } else {
            self.after_drain().after_flush()
        }
    }

    #[via_fn]
    proof fn after_flush_decreases(self) {
        self.lemma_batch_count_bounds(0);
    }

    /// Counting on from `taken` stays within the queue, and every record
    /// that is added fits.
    pub proof fn lemma_batch_count_bounds(self, taken: nat)
        requires
            taken <= self.messages.len(),
        ensures
            taken <= self.batch_count_from(taken) <= self.messages.len(),
            self.batch_count_from(taken) > taken ==> self.fits(self.batch_count_from(taken)),
            self.batch_count_from(taken) < self.messages.len() ==> !self.fits(
                self.batch_count_from(taken) + 1,
            ),
        decreases self.messages.len() - taken,
    {
        if taken < self.messages.len() && self.fits(taken + 1) {
            self.lemma_batch_count_bounds(taken + 1);
        }
    }

    /// A batch does not get shorter by one more record.
    pub proof fn lemma_batch_bytes_grow(self, count: nat)
        requires
            count < self.messages.len(),
        ensures
            batch_bytes(self.messages.take(count as int)).len() <= batch_bytes(
                self.messages.take(count as int + 1),
            ).len(),
    {
        let shorter = self.messages.take(count as int);
        let longer = self.messages.take(count as int + 1);
        assert(longer.drop_last() == shorter);
    }

    /// Once a count does not fit, no larger one does.
    pub proof fn lemma_fits_downward(self, smaller: nat, larger: nat)
        requires
            smaller <= larger,
            self.fits(larger),
        ensures
            self.fits(smaller),
        decreases larger - smaller,
    {
        if smaller < larger {
            if larger >= 2 {
                self.lemma_batch_bytes_grow((larger - 1) as nat);
            }
            self.lemma_fits_downward(smaller, (larger - 1) as nat);
        }
    }

    /// The next batch holds as many records as fit, and no more: its count
    /// fits, and no larger count does.
    pub proof fn lemma_batch_count_is_largest(self, count: nat)
        ensures
            self.fits(self.batch_count()),
            self.fits(count) ==> count <= self.batch_count(),
    {
        self.lemma_batch_count_bounds(0);
        let n = self.batch_count();
        if self.fits(count) && count > n {
            self.lemma_fits_downward(n + 1, count);
        }
    }

    /// Forward progress: while records are pending and the count limit is
    /// not zero, a drain takes at least one of them, whatever their size,
    /// and so leaves a shorter queue.
    pub proof fn lemma_drain_makes_progress(self)
        requires
            self.messages.len() > 0,
            self.max_batch_entries_size > 0,
        ensures
            self.batch_count() >= 1,
            self.after_drain().messages.len() < self.messages.len(),
    {
        self.lemma_batch_count_bounds(1);
    }

    /// Size bound: a batch is no longer than the byte limit, unless it holds
    /// a single record that alone exceeds it.
    pub proof fn lemma_batch_size_bound(self)
        ensures
            batch_bytes(self.next_records()).len() <= self.max_content_size_bytes
                || self.batch_count() == 1,
    {
        self.lemma_batch_count_bounds(0);
    }

    /// Draining an empty queue yields an empty batch and changes nothing,
    /// however often it is done.
    pub proof fn lemma_empty_drain(self)
        requires
            self.messages.len() == 0,
        ensures
            batch_bytes(self.next_records()).len() == 0,
            self.after_drain() == self,
            self.after_flush() == self,
            self.drained_batches().len() == 0,
    {
        assert(self.messages.skip(0) == self.messages);
    }

    /// Ordering: the records of the batches that repeated draining yields,
    /// one batch after the other, are the queue in its order, and nothing is
    /// left behind. An aggregator whose count limit is zero drains nothing,
    /// so the limit must not be zero.
    pub proof fn lemma_drain_keeps_order(self)
        requires
            self.max_batch_entries_size > 0,
        ensures
            self.drained_batches().flatten() == self.messages,
            self.after_flush().messages.len() == 0,
            self.after_flush().max_content_size_bytes == self.max_content_size_bytes,
            self.after_flush().max_batch_entries_size == self.max_batch_entries_size,
        decreases self.messages.len(),
    {
        self.lemma_batch_count_bounds(0);
        if self.messages.len() == 0 {
            self.lemma_empty_drain();
        } else {
            self.lemma_drain_makes_progress();
            let rest = self.after_drain();
            rest.lemma_drain_keeps_order();
            let batches = seq![self.next_records()] + rest.drained_batches();
            assert(batches.first() == self.next_records());
            assert(batches.drop_first() == rest.drained_batches());
            assert(self.next_records() + rest.messages == self.messages);
        }
    }

    /// Ordering over any number of enqueue calls: draining until empty
    /// afterwards gives back what was pending, then the wire forms of each
    /// push in the order of the pushes, each push in its own order.
    pub proof fn lemma_pushes_then_drain(self, pushes: Seq<Seq<TelemetryEvent>>)
        requires
            self.max_batch_entries_size > 0,
        ensures
            self.after_pushes(pushes).drained_batches().flatten() == self.messages
                + pushes.map_values(|events: Seq<TelemetryEvent>| wire_forms(events)).flatten(),
            self.after_pushes(pushes).after_flush().messages.len() == 0,
    {
        self.lemma_after_pushes(pushes);
        self.after_pushes(pushes).lemma_drain_keeps_order();
    }

    /// Pushes append their wire forms and leave the limits alone.
    pub proof fn lemma_after_pushes(self, pushes: Seq<Seq<TelemetryEvent>>)
        ensures
            self.after_pushes(pushes).messages == self.messages + pushes.map_values(
                |events: Seq<TelemetryEvent>| wire_forms(events),
            ).flatten(),
            self.after_pushes(pushes).max_content_size_bytes == self.max_content_size_bytes,
            self.after_pushes(pushes).max_batch_entries_size == self.max_batch_entries_size,
        decreases pushes.len(),
    {
        let forms = |events: Seq<TelemetryEvent>| wire_forms(events);
        if pushes.len() == 0 {
            assert(pushes.map_values(forms).flatten() == Seq::<Seq<char>>::empty());
        } else {
            let earlier = pushes.drop_last();
            self.lemma_after_pushes(earlier);
            assert(pushes.map_values(forms) == earlier.map_values(forms).push(
                wire_forms(pushes.last()),
            ));
            earlier.map_values(forms).lemma_flatten_push(wire_forms(pushes.last()));
        }
    }

    /// Enqueuing and then draining until empty gives back, in order, what
    /// was pending followed by what was enqueued.
    pub proof fn lemma_enqueue_then_drain(self, records: Seq<Seq<char>>)
        requires
            self.max_batch_entries_size > 0,
        ensures
            self.with_records(records).drained_batches().flatten() == self.messages + records,
    {
        self.with_records(records).lemma_drain_keeps_order();
    }
}

/// The buffer of pending records. Records wait in arrival order as wire
/// forms; a drain takes them from the front.
pub struct TelemetryAggregator {
    messages: VecDeque<String>,
    max_content_size_bytes: usize,
    max_batch_entries_size: usize,
}

impl View for TelemetryAggregator {
    type V = AggregatorState;

    closed spec fn view(&self) -> AggregatorState {
        AggregatorState {
            messages: self.messages@.map_values(|message: String| message@),
            max_content_size_bytes: self.max_content_size_bytes as nat,
            max_batch_entries_size: self.max_batch_entries_size as nat,
        }
    }
}

/// The buffer of a batch under construction: an opening bracket, then each
/// record followed by a comma.
spec fn under_construction(records: Seq<Seq<char>>) -> Seq<u8> {
    if records.len() == 0 {
        seq![OPEN_BRACKET]
    } else {
        seq![OPEN_BRACKET] + joined(records) + seq![COMMA]
    }
}

impl TelemetryAggregator {
    /// An empty buffer whose batches hold at most `max_content_size_bytes`
    /// bytes and `max_batch_entries_size` records.
    pub fn new(max_content_size_bytes: usize, max_batch_entries_size: usize) -> (aggregator: Self)
        ensures
            aggregator@ == (AggregatorState {
                messages: Seq::empty(),
                max_content_size_bytes: max_content_size_bytes as nat,
                max_batch_entries_size: max_batch_entries_size as nat,
            }),
    {
        Self { messages: VecDeque::new(), max_content_size_bytes, max_batch_entries_size }
    }

    /// The number of pending records.
    pub fn pending(&self) -> (count: usize)
        ensures
            count == self@.messages.len(),
    {
        self.messages.len()
    }

    /// Enqueues the wire form of each event, in order. An event that has no
    /// wire form is dropped.
    pub fn add_batch(&mut self, events: Vec<TelemetryEvent>)
        ensures
            final(self)@ == old(self)@.with_records(wire_forms(events@)),
    {
        let mut i: usize = 0;
        while i < events.len()
            invariant
                i <= events.len(),
                self@ == old(self)@.with_records(wire_forms(events@.take(i as int))),
            decreases events.len() - i,
        {
            let ghost before = self.messages@;
            proof {
                assert(events@.take(i + 1).drop_last() == events@.take(i as int));
                assert(events@.take(i + 1).last() == events@[i as int]);
            }
            match events[i].to_wire_form() {
                Some(wire) => {
                    self.messages.push_back(wire);
                    assert(self.messages@.map_values(|message: String| message@)
                        == before.map_values(|message: String| message@).push(wire@));
                },
                None => {},
            }
            i = i + 1;
        }
        proof {
            assert(events@.take(i as int) == events@);
        }
    }

    /// Drains the next batch: a JSON array of the oldest pending records, as
    /// many as fit under the two limits, or no bytes at all where nothing is
    /// pending. The first pending record is always taken, so a record larger
    /// than the byte limit leaves in a batch of its own.
    pub fn get_batch(&mut self) -> (batch: Vec<u8>)
        ensures
            batch@ == batch_bytes(old(self)@.next_records()),
            final(self)@ == old(self)@.after_drain(),
            batch@.len() <= old(self)@.max_content_size_bytes || old(self)@.batch_count() == 1,
            old(self)@.messages.len() == 0 ==> batch@.len() == 0 && final(self)@ == old(self)@,
    {
        let ghost state = self@;
        let max_bytes = self.max_content_size_bytes;
        let max_entries = self.max_batch_entries_size;
        let mut buffer: Vec<u8> = Vec::new();
        buffer.push(OPEN_BRACKET);
        let mut taken: usize = 0;
        let mut done = false;
        assert(state.messages.skip(0) == state.messages);
        while !done && taken < max_entries
            invariant
                state == old(self)@,
                max_bytes == state.max_content_size_bytes,
                max_entries == state.max_batch_entries_size,
                taken <= state.messages.len(),
                taken <= max_entries,
                self@ == (AggregatorState { messages: state.messages.skip(taken as int), ..state }),
                buffer@ == under_construction(state.messages.take(taken as int)),
                state.fits(taken as nat),
                state.batch_count_from(taken as nat) == state.batch_count(),
                done ==> state.batch_count_from(taken as nat) == taken,
            decreases max_entries - taken + if done { 0int } else { 1int },
        {
            let ghost waiting = self@.messages;
            assert(waiting.len() == self.messages@.len());
            if self.messages.len() == 0 {
                done = true;
            } else {
                let length = self.messages[0].as_str().as_bytes().len();
                let ghost front = state.messages[taken as int];
                let ghost shorter = state.messages.take(taken as int);
                let ghost longer = state.messages.take(taken + 1);
                proof {
                    assert(waiting[0] == front);
                    assert(longer.drop_last() == shorter);
                    assert(longer.last() == front);
                    assert(length == encode_utf8(front).len());
                    if taken > 0 {
                        assert(batch_bytes(longer).len() == buffer@.len() + length + 1);
                    }
                }
                if taken > 0 && !(length < max_bytes && buffer.len() <= max_bytes - length - 1) {
                    done = true;
                } else {
                    let message = self.messages.pop_front().unwrap();
                    buffer.extend_from_slice(message.as_str().as_bytes());
                    buffer.push(COMMA);
                    taken = taken + 1;
                    proof {
                        assert(self@.messages == waiting.skip(1));
                        assert(self@.messages == state.messages.skip(taken as int));
                        assert(buffer@ == under_construction(longer));
                    }
                }
            }
        }
        proof {
            state.lemma_batch_count_bounds(0);
            assert(state.next_records() == state.messages.take(taken as int));
        }
        if taken > 0 {
            buffer.pop();
            buffer.push(CLOSE_BRACKET);
            assert(buffer@ == batch_bytes(state.messages.take(taken as int)));
            buffer
        } else {
            Vec::new()
        }
    }
}

/// What was pushed to the ingestion endpoint, as far as the reply and the
/// buffer depend on it.
#[derive(Debug, Clone, PartialEq, Eq)]
pub enum PushRequest {
    /// A request with any method but `POST`.
    OtherMethod,
    /// A `POST` whose body could not be read as a JSON array of records.
    Malformed,
    /// A `POST` with the records of its body.
    Records(Vec<TelemetryEvent>),
}

/// The reply to a push.
#[derive(Debug, Clone, PartialEq, Eq)]
pub struct PushReply {
    pub status: u16,
    pub body: String,
}

/// `200 OK`.
pub const STATUS_OK: u16 = 200;

/// `405 Method Not Allowed`.
pub const STATUS_METHOD_NOT_ALLOWED: u16 = 405;

/// `500 Internal Server Error`.
pub const STATUS_INTERNAL_SERVER_ERROR: u16 = 500;

/// Whether the ingestion endpoint takes requests of this method: `POST`
/// only.
pub fn is_push_method(method: &str) -> (accepted: bool)
    ensures
        accepted == (method@ == "POST"@),
{
    String::from_str(method) == String::from_str("POST")
}

/// Answers one push and enqueues its records. Records are enqueued only from
/// a well-formed `POST`; a malformed body enqueues nothing.
pub fn handle_telemetry_request(request: PushRequest, aggregator: &mut TelemetryAggregator) -> (reply:
    PushReply)
    ensures
        match request {
            PushRequest::Records(events) => {
                &&& reply.status == STATUS_OK
                &&& reply.body@ == "OK"@
                &&& final(aggregator)@ == old(aggregator)@.with_records(wire_forms(events@))
            },
            PushRequest::Malformed => {
                &&& reply.status == STATUS_INTERNAL_SERVER_ERROR
                &&& reply.body@ == "Internal Server Error"@
                &&& final(aggregator)@ == old(aggregator)@
            },
            PushRequest::OtherMethod => {
                &&& reply.status == STATUS_METHOD_NOT_ALLOWED
                &&& reply.body@ == "Method Not Allowed"@
                &&& final(aggregator)@ == old(aggregator)@
            },
        },
{
    match request {
        PushRequest::Records(events) => {
            aggregator.add_batch(events);
            PushReply { status: STATUS_OK, body: String::from_str("OK") }
        },
        PushRequest::Malformed => PushReply {
            status: STATUS_INTERNAL_SERVER_ERROR,
            body: String::from_str("Internal Server Error"),
        },
        PushRequest::OtherMethod => PushReply {
            status: STATUS_METHOD_NOT_ALLOWED,
            body: String::from_str("Method Not Allowed"),
        },
    }
}

/// Most bytes that the host buffers before it pushes.
pub const SUBSCRIPTION_MAX_BYTES: u64 = 262144;

/// Most records that the host buffers before it pushes.
pub const SUBSCRIPTION_MAX_ITEMS: u64 = 1000;

/// Longest time, in milliseconds, that the host buffers before it pushes.
pub const SUBSCRIPTION_TIMEOUT_MS: u64 = 25;

/// The host refused the subscription to its telemetry.
#[derive(Debug, Clone, PartialEq, Eq)]
pub struct SubscriptionRejected {
    pub status: u16,
    /// The body of the answer as text.
    pub text: String,
}

/// The ingestion endpoint as the host sees it.
pub struct TelemetrySubscriber {
    port: u16,
}

impl TelemetrySubscriber {
    /// The port that the subscriber listens on.
    pub closed spec fn spec_port(&self) -> u16 {
        self.port
    }

    /// A subscriber that listens on `port`.
    pub fn new(port: u16) -> (subscriber: Self)
        ensures
            subscriber.spec_port() == port,
    {
        Self { port }
    }

    /// The port that the subscriber listens on.
    pub fn port(&self) -> (port: u16)
        ensures
            port == self.spec_port(),
    {
        self.port
    }

    /// The address that the host pushes telemetry to.
    pub fn destination_uri(&self) -> (uri: String)
        ensures
            uri@ == "http://sandbox.localdomain:"@ + decimal_text(self.spec_port() as int),
    {
        let mut uri = String::from_str("http://sandbox.localdomain:");
        let port = decimal(self.port as i64);
        uri.append(port.as_str());
        uri
    }

    /// The address of the host's subscription call.
    pub fn subscription_url(runtime_api_endpoint: &str) -> (url: String)
        ensures
            url@ == "http://"@ + runtime_api_endpoint@ + "/2022-07-01/telemetry"@,
    {
        let mut url = String::from_str("http://");
        url.append(runtime_api_endpoint);
        url.append("/2022-07-01/telemetry");
        url
    }

    /// Takes the host's answer to the subscription call: any status but 2xx
    /// refuses the subscription.
    pub fn subscribe_to_telemetry_api(&self, status: u16, text: String) -> (result: Result<
        (),
        SubscriptionRejected,
    >)
        ensures
            result == if is_success_status(status) {
                Ok::<(), SubscriptionRejected>(())
            } else {
                Err(SubscriptionRejected { status, text })
            },
    {
        if status_is_success(status) {
            Ok(())
        } else {
            Err(SubscriptionRejected { status, text })
        }
    }
}

} // verus!
