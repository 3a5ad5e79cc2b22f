//! The ingestion worker: what it makes of a datagram, and what it does next.
//!
//! The worker owns the socket, which this library never touches. Its loop is
//! run by whoever owns the socket: the loop performs the action that the
//! worker asks for, hands back what came of it as an event, and is told the
//! next action. A new worker awaits the poll of its cancellation channel.

use crate::cancel::{must_stop, request_stop, stops, KillPoll, StopOutcome};
use crate::clock::unix_seconds;
use crate::common::{Envelope, JsonData, KillSwitch, Killable, ParseError};
use crate::json::parse;
use crate::record::{classify, fields, record_of};
use crate::text::{decimal, decimal_text, decoded, message};
use std::sync::mpsc::{Receiver, Sender};
use vstd::prelude::*;
use vstd::string::*;

verus! {

/// The owner's side of the ingestion worker: where it listens, and the
/// sending end of its cancellation channel once it has one.
pub struct UdpHandler {
    port: u32,
    kill_tx: Option<Sender<KillSwitch>>,
}

impl UdpHandler {
    /// The port that the worker listens on.
    pub closed spec fn port_of(&self) -> u32 {
        self.port
    }

    /// Whether the worker has been given a cancellation channel.
    pub closed spec fn spawned(&self) -> bool {
        self.kill_tx is Some
    }

    pub fn new(port: u32) -> (handler: UdpHandler)
        ensures
            handler.port_of() == port,
            !handler.spawned(),
    {
        UdpHandler { port, kill_tx: None }
    }

    pub fn port(&self) -> (port: u32)
        ensures
            port == self.port_of(),
    {
        self.port
    }

    /// The address that the worker's socket is bound to: the port, on every
    /// interface.
    pub fn bind_address(&self) -> (address: String)
        ensures
            address@ == "0.0.0.0:"@ + decimal(self.port_of() as nat),
    {
        let mut address = String::from_str("0.0.0.0:");
        let port = decimal_text(self.port as u64);
        address.append(port.as_str());
        address
    }

    /// Makes the worker's cancellation channel: the handler keeps the sending
    /// end, and the receiving end is for the worker that is about to start.
    pub fn arm(&mut self) -> (kill_rx: Receiver<KillSwitch>)
        ensures
            final(self).spawned(),
            final(self).port_of() == old(self).port_of(),
    {
        let (kill_tx, kill_rx) = std::sync::mpsc::channel();
        self.kill_tx = Some(kill_tx);
        kill_rx
    }

    /// Asks the worker to stop, and says what became of the request.
    pub fn stop(&self) -> (outcome: StopOutcome)
        ensures
            (outcome == StopOutcome::NotSpawned) == !self.spawned(),
    {
        request_stop(&self.kill_tx)
    }
}

impl Killable for UdpHandler {
    fn kill(&self) {
        let _ = request_stop(&self.kill_tx);
    }
}

/// What the ingestion worker waits for.
#[derive(Clone, Copy, Debug, PartialEq, Eq, Structural)]
pub enum IngestState {
    /// The poll of the cancellation channel.
    Polling,
    /// The next datagram.
    Receiving,
    /// The outcome of handing a record to the publishing worker.
    Forwarding,
    /// Nothing: the worker has ended.
    Exited,
}

/// What came of the action that the worker asked for.
#[derive(Clone, Debug, PartialEq, Eq)]
pub enum IngestEvent {
    /// The cancellation channel was polled.
    Polled(KillPoll),
    /// The socket was read: the bytes of a datagram, or `None` where the read
    /// failed; and what the clock read then, or `None` where it could not be
    /// read.
    Received(Option<Vec<u8>>, Option<u64>),
    /// A record was handed over, or could not be because the publishing
    /// worker is gone.
    Forwarded(bool),
}

/// What the worker asks for next.
#[derive(Clone, Debug, PartialEq, Eq)]
pub enum IngestAction {
    /// Poll the cancellation channel, without blocking.
    Poll,
    /// Wait for the next datagram, and read the clock when it is there.
    Receive,
    /// Hand the record to the publishing worker.
    Forward(JsonData),
    /// Leave the loop.
    Exit,
    /// Nothing: the event was not the awaited one and has changed nothing.
    Nothing,
}

/// The model of an `IngestEvent`.
pub enum IngestEventModel {
    Polled(KillPoll),
    Received(Option<Seq<u8>>, Option<u64>),
    Forwarded(bool),
}

/// The model of an `IngestAction`.
pub enum IngestActionModel {
    Poll,
    Receive,
    Forward(Envelope),
    Exit,
    Nothing,
}

impl View for IngestEvent {
    type V = IngestEventModel;

    open spec fn view(&self) -> IngestEventModel {
        match self {
            IngestEvent::Polled(poll) => IngestEventModel::Polled(*poll),
            IngestEvent::Received(Some(bytes), clock) => IngestEventModel::Received(
                Some(bytes@),
                *clock,
            ),
            IngestEvent::Received(None, clock) => IngestEventModel::Received(None, *clock),
            IngestEvent::Forwarded(delivered) => IngestEventModel::Forwarded(*delivered),
        }
    }
}

impl View for IngestAction {
    type V = IngestActionModel;

    open spec fn view(&self) -> IngestActionModel {
        match self {
            IngestAction::Poll => IngestActionModel::Poll,
            IngestAction::Receive => IngestActionModel::Receive,
            IngestAction::Forward(data) => IngestActionModel::Forward(data@),
            IngestAction::Exit => IngestActionModel::Exit,
            IngestAction::Nothing => IngestActionModel::Nothing,
        }
    }
}

/// The record that a datagram becomes when the clock reads `clock`: the
/// record that its text is, stamped with the clock's reading. A datagram that
/// is no text, or whose text is no record, becomes none.
pub open spec fn envelope_of(bytes: Seq<u8>, clock: Option<u64>) -> Option<Envelope> {
    match decoded(bytes) {
        Some(text) => match record_of(text) {
            Some(record) => Some(record.stamped_by(clock)),
            None => None,
        },
        None => None,
    }
}

/// What the worker does on an event: its next state and the action it asks
/// for.
///
/// A stop request, or the loss of the channel that would bring one, ends the
/// worker at the poll. A failed read and a datagram that is no record send the
/// worker back to the poll. A record is forwarded; if it cannot be handed
/// over, the worker ends. A worker that has ended stays so. An event other
/// than the awaited one changes nothing.
pub open spec fn ingest_next(state: IngestState, event: IngestEventModel) -> (
    IngestState,
    IngestActionModel,
) {
    match (state, event) {
        (IngestState::Exited, _) => (IngestState::Exited, IngestActionModel::Exit),
        (IngestState::Polling, IngestEventModel::Polled(poll)) => if stops(poll) {
            (IngestState::Exited, IngestActionModel::Exit)
        } else {
            (IngestState::Receiving, IngestActionModel::Receive)
        },
        (IngestState::Receiving, IngestEventModel::Received(Some(bytes), clock)) => match envelope_of(
            bytes,
            clock,
        ) {
            Some(record) => (IngestState::Forwarding, IngestActionModel::Forward(record)),
            None => (IngestState::Polling, IngestActionModel::Poll),
        },
        (IngestState::Receiving, IngestEventModel::Received(None, _)) => (
            IngestState::Polling,
            IngestActionModel::Poll,
        ),
        (IngestState::Forwarding, IngestEventModel::Forwarded(delivered)) => if delivered {
            (IngestState::Polling, IngestActionModel::Poll)
        } else {
            (IngestState::Exited, IngestActionModel::Exit)
        },
        _ => (state, IngestActionModel::Nothing),
    }
}

/// The state after a run of events.
pub open spec fn ingest_state_after(state: IngestState, events: Seq<IngestEventModel>) -> IngestState
    decreases events.len(),
{
    if events.len() == 0 {
        state
    } else {
        ingest_next(ingest_state_after(state, events.drop_last()), events.last()).0
    }
}

/// The actions that a run of events is answered with, one for each event.
pub open spec fn ingest_actions(state: IngestState, events: Seq<IngestEventModel>) -> Seq<
    IngestActionModel,
>
    decreases events.len(),
{
    if events.len() == 0 {
        Seq::empty()
    } else {
        ingest_actions(state, events.drop_last()).push(
            ingest_next(ingest_state_after(state, events.drop_last()), events.last()).1,
        )
    }
}

/// The decisions of the ingestion worker.
#[derive(Clone, Copy, Debug, PartialEq, Eq)]
pub struct UdpWorker {
    state: IngestState,
}

impl UdpWorker {
    /// What the worker waits for.
    pub closed spec fn state_of(&self) -> IngestState {
        self.state
    }

    /// A worker that awaits the poll of its cancellation channel.
    pub fn new() -> (worker: UdpWorker)
        ensures
            worker.state_of() == IngestState::Polling,
    {
        UdpWorker { state: IngestState::Polling }
    }

    pub fn state(&self) -> (state: IngestState)
        ensures
            state == self.state_of(),
    {
        self.state
    }

    /// Reads a datagram as text, and frees the text of the NUL padding at its
    /// end and then of the whitespace around it. A datagram that is no UTF-8
    /// is refused.
    pub fn parse_msg_to_str(buf: &[u8]) -> (r: Result<String, ParseError>)
        ensures
            r matches Ok(text) ==> decoded(buf@) == Some(text@),
            (r is Err) ==> (decoded(buf@) is None),
    {
        match std::str::from_utf8(buf) {
            Ok(text) => Ok(String::from_str(message(text))),
            Err(_) => Err(ParseError),
        }
    }

    /// Reads a text as a sensor record. A text that is no JSON document, and
    /// a document that is neither record, is refused.
    pub fn parse_msg_str_as_json(msg: &str) -> (r: Result<JsonData, ParseError>)
        ensures
            r matches Ok(data) ==> record_of(msg@) == Some(data@),
            (r is Err) ==> (record_of(msg@) is None),
    {
        match parse(msg) {
            Ok(document) => {
                let held = fields(&document);
                classify(&held)
            },
            Err(_) => Err(ParseError),
        }
    }

    /// Stamps a record with the system clock's current reading. Where the
    /// clock cannot be read the record stays as it was.
    pub fn add_timestamp_to_json(data: &mut JsonData)
        ensures
            exists|clock: Option<u64>| final(data)@ == old(data)@.stamped_by(clock),
    {
        let clock = unix_seconds();
        data.stamp(clock);
    }

    /// The record that a datagram becomes when the clock reads `clock`.
    pub fn envelope(buf: &[u8], clock: Option<u64>) -> (r: Option<JsonData>)
        ensures
            r matches Some(data) ==> envelope_of(buf@, clock) == Some(data@),
            (r is None) ==> (envelope_of(buf@, clock) is None),
    {
        let text = match Self::parse_msg_to_str(buf) {
            Ok(text) => text,
            Err(_) => { return None; },
        };
        let mut data = match Self::parse_msg_str_as_json(text.as_str()) {
            Ok(data) => data,
            Err(_) => { return None; },
        };
        data.stamp(clock);
        Some(data)
    }

    /// Takes an event, and says what the worker does next.
    pub fn step(self, event: IngestEvent) -> (r: (UdpWorker, IngestAction))
        ensures
            (r.0.state_of(), r.1@) == ingest_next(self.state_of(), event@),
    {
        match (self.state, event) {
            (IngestState::Exited, _) => (self, IngestAction::Exit),
            (IngestState::Polling, IngestEvent::Polled(poll)) => {
                if must_stop(poll) {
                    (UdpWorker { state: IngestState::Exited }, IngestAction::Exit)
                } else {
                    (UdpWorker { state: IngestState::Receiving }, IngestAction::Receive)
                }
            },
            (IngestState::Receiving, IngestEvent::Received(Some(bytes), clock)) => {
                match Self::envelope(bytes.as_slice(), clock) {
                    Some(data) => (
                        UdpWorker { state: IngestState::Forwarding },
                        IngestAction::Forward(data),
                    ),
                    None => (UdpWorker { state: IngestState::Polling }, IngestAction::Poll),
                }
            },
            (IngestState::Receiving, IngestEvent::Received(None, _)) => (
                UdpWorker { state: IngestState::Polling },
                IngestAction::Poll,
            ),
            (IngestState::Forwarding, IngestEvent::Forwarded(delivered)) => {
                if delivered {
                    (UdpWorker { state: IngestState::Polling }, IngestAction::Poll)
                } else {
                    (UdpWorker { state: IngestState::Exited }, IngestAction::Exit)
                }
            },
            _ => (self, IngestAction::Nothing),
        }
    }
}

/// A worker that has ended stays ended and forwards nothing: whatever events
/// follow, each is answered with `Exit`.
pub proof fn law_ended_worker_stays_ended(events: Seq<IngestEventModel>)
    ensures
        ingest_state_after(IngestState::Exited, events) == IngestState::Exited,
        ingest_actions(IngestState::Exited, events).len() == events.len(),
        forall|i: int|
            0 <= i < events.len() ==> ingest_actions(IngestState::Exited, events)[i]
                == IngestActionModel::Exit,
    decreases events.len(),
{
    if events.len() > 0 {
        law_ended_worker_stays_ended(events.drop_last());
    }
}

/// A stop request ends the worker at its next poll, and no record is
/// forwarded from then on: whatever a worker has been through, when it awaits
/// its poll and finds a stop request, or finds the sending end gone, it has
/// ended, and that poll and every event after it is answered with `Exit`.
pub proof fn law_stop_ends_ingestion(
    start: IngestState,
    before: Seq<IngestEventModel>,
    poll: KillPoll,
    later: Seq<IngestEventModel>,
)
    requires
        ingest_state_after(start, before) == IngestState::Polling,
        stops(poll),
    ensures
        ingest_state_after(start, before + (seq![IngestEventModel::Polled(poll)] + later))
            == IngestState::Exited,
        forall|i: int|
            before.len() <= i <= before.len() + later.len() ==> (#[trigger] ingest_actions(
                start,
                before + (seq![IngestEventModel::Polled(poll)] + later),
            )[i]) == IngestActionModel::Exit,
{
    let rest = seq![IngestEventModel::Polled(poll)] + later;
    lemma_stop_then_exit(poll, later);
    lemma_run_in_two(start, before, rest);
    lemma_actions_len(start, before);
    lemma_actions_len(IngestState::Polling, rest);
    let head = ingest_actions(start, before);
    let tail = ingest_actions(IngestState::Polling, rest);
    assert forall|i: int| before.len() <= i <= before.len() + later.len() implies (
    #[trigger] ingest_actions(start, before + rest)[i]) == IngestActionModel::Exit by {
        assert((head + tail)[i] == tail[i - before.len()]);
    }
}

proof fn lemma_stop_then_exit(poll: KillPoll, later: Seq<IngestEventModel>)
    requires
        stops(poll),
    ensures
        ingest_state_after(IngestState::Polling, seq![IngestEventModel::Polled(poll)] + later)
            == IngestState::Exited,
        forall|i: int|
            0 <= i <= later.len() ==> (#[trigger] ingest_actions(
                IngestState::Polling,
                seq![IngestEventModel::Polled(poll)] + later,
            )[i]) == IngestActionModel::Exit,
    decreases later.len(),
{
    let first = seq![IngestEventModel::Polled(poll)];
    let events = first + later;
    if later.len() == 0 {
        assert(events == first);
        assert(events.drop_last() == Seq::<IngestEventModel>::empty());
        assert(ingest_state_after(IngestState::Polling, events.drop_last())
            == IngestState::Polling);
        assert(ingest_actions(IngestState::Polling, events.drop_last()).len() == 0);
    } else {
        lemma_stop_then_exit(poll, later.drop_last());
        assert(events.drop_last() == first + later.drop_last());
        assert(events.last() == later.last());
        lemma_actions_len(IngestState::Polling, events.drop_last());
    }
}

proof fn lemma_run_in_two(
    start: IngestState,
    before: Seq<IngestEventModel>,
    rest: Seq<IngestEventModel>,
)
    ensures
        ingest_state_after(start, before + rest) == ingest_state_after(
            ingest_state_after(start, before),
            rest,
        ),
        ingest_actions(start, before + rest) == ingest_actions(start, before) + ingest_actions(
            ingest_state_after(start, before),
            rest,
        ),
    decreases rest.len(),
{
    if rest.len() == 0 {
        assert(before + rest == before);
    } else {
        lemma_run_in_two(start, before, rest.drop_last());
        assert((before + rest).drop_last() == before + rest.drop_last());
        assert((before + rest).last() == rest.last());
    }
}

proof fn lemma_actions_len(state: IngestState, events: Seq<IngestEventModel>)
    ensures
        ingest_actions(state, events).len() == events.len(),
    decreases events.len(),
{
    if events.len() > 0 {
        lemma_actions_len(state, events.drop_last());
    }
}

/// A datagram that is no record costs nothing but itself: it is answered with
/// a return to the poll, not with a record and not with the worker's end, and
/// the record of a good datagram that follows it is forwarded.
pub proof fn law_bad_datagram_is_skipped(
    bad: Seq<u8>,
    bad_clock: Option<u64>,
    poll: KillPoll,
    good: Seq<u8>,
    good_clock: Option<u64>,
)
    requires
        envelope_of(bad, bad_clock) is None,
        envelope_of(good, good_clock) is Some,
        !stops(poll),
    ensures
        ingest_next(
            IngestState::Receiving,
            IngestEventModel::Received(Some(bad), bad_clock),
        ) == (IngestState::Polling, IngestActionModel::Poll),
        ingest_actions(
            IngestState::Receiving,
            seq![
                IngestEventModel::Received(Some(bad), bad_clock),
                IngestEventModel::Polled(poll),
                IngestEventModel::Received(Some(good), good_clock),
            ],
        ) == seq![
            IngestActionModel::Poll,
            IngestActionModel::Receive,
            IngestActionModel::Forward(envelope_of(good, good_clock)->0),
        ],
{
    let e0 = IngestEventModel::Received(Some(bad), bad_clock);
    let e1 = IngestEventModel::Polled(poll);
    let e2 = IngestEventModel::Received(Some(good), good_clock);
    let s3 = seq![e0, e1, e2];
    let s2 = seq![e0, e1];
    let s1 = seq![e0];
    assert(s3.drop_last() == s2);
    assert(s2.drop_last() == s1);
    let s0 = Seq::<IngestEventModel>::empty();
    assert(s1.drop_last() == s0);
    assert(ingest_state_after(IngestState::Receiving, s0) == IngestState::Receiving);
    assert(ingest_actions(IngestState::Receiving, s0) == Seq::<IngestActionModel>::empty());
    assert(ingest_state_after(IngestState::Receiving, s1) == IngestState::Polling);
    assert(ingest_state_after(IngestState::Receiving, s2) == IngestState::Receiving);
    assert(ingest_actions(IngestState::Receiving, s1) == seq![IngestActionModel::Poll]);
    assert(ingest_actions(IngestState::Receiving, s2) == seq![
        IngestActionModel::Poll,
        IngestActionModel::Receive,
    ]);
}

/// Every record that the worker forwards carries the clock's reading of the
/// moment its datagram was taken, where the clock gave one.
pub proof fn law_forwarded_record_is_stamped(bytes: Seq<u8>, clock: u64)
    ensures
        envelope_of(bytes, Some(clock)) matches Some(record) ==> record.timestamp() == Some(clock),
{
}

} // verus!
