//! The publishing worker: the text and the key of a record, and what the
//! worker does next.
//!
//! The worker owns the connection to the backend, which this library never
//! touches. Its loop is run by whoever owns the connection: the loop performs
//! the action that the worker asks for, hands back what came of it as an
//! event, and is told the next action. A new worker awaits the poll of its
//! cancellation channel.

use crate::cancel::{must_stop, request_stop, stops, KillPoll, StopOutcome};
use crate::common::{
    Envelope, InertialModel, JsonData, KillSwitch, Killable, MPU6050DataInner, ParseError,
    RangingModel, UWBDataInner,
};
use crate::json::{quoted, quoted_text};
use crate::network::udp::{
    envelope_of, ingest_next, IngestActionModel, IngestEventModel, IngestState,
};
use crate::record::{
    classified, frequency_of, inertial_of, is_inertial, is_ranging, optional_text_of, ranging_of,
    real_of, text_of, FieldsModel,
};
use crate::text::{decimal, decimal_text, signed_decimal, signed_decimal_text};
use std::sync::mpsc::{Receiver, Sender};
use vstd::prelude::*;
use vstd::string::*;

verus! {

/// How the backend is authenticated to, once, when the connection is opened.
#[derive(Clone, Debug, PartialEq, Eq)]
pub enum AuthPlan {
    /// No AUTH: no identity is configured.
    Skip,
    /// AUTH with the identity alone.
    Identity(String),
    /// AUTH with the identity and the secret.
    IdentityAndSecret(String, String),
}

/// The model of an `AuthPlan`.
pub enum AuthPlanModel {
    Skip,
    Identity(Seq<char>),
    IdentityAndSecret(Seq<char>, Seq<char>),
}

impl View for AuthPlan {
    type V = AuthPlanModel;

    open spec fn view(&self) -> AuthPlanModel {
        match self {
            AuthPlan::Skip => AuthPlanModel::Skip,
            AuthPlan::Identity(identity) => AuthPlanModel::Identity(identity@),
            AuthPlan::IdentityAndSecret(identity, secret) => AuthPlanModel::IdentityAndSecret(
                identity@,
                secret@,
            ),
        }
    }
}

/// The AUTH that an identity and a secret call for. Without an identity there
/// is none, whatever the secret.
pub open spec fn auth_plan_of(
    identity: Option<Seq<char>>,
    secret: Option<Seq<char>>,
) -> AuthPlanModel {
    match identity {
        None => AuthPlanModel::Skip,
        Some(identity) => match secret {
            None => AuthPlanModel::Identity(identity),
            Some(secret) => AuthPlanModel::IdentityAndSecret(identity, secret),
        },
    }
}

/// The owner's side of the publishing worker: where the backend is, how to
/// authenticate to it, and the sending end of the worker's cancellation
/// channel once it has one.
pub struct RedisPublisherHandler {
    redis_url: String,
    redis_auth: Option<String>,
    redis_auth_pwd: Option<String>,
    kill_tx: Option<Sender<KillSwitch>>,
}

impl RedisPublisherHandler {
    /// The backend's URL.
    pub closed spec fn url_of(&self) -> Seq<char> {
        self.redis_url@
    }

    /// The identity for AUTH, where one is configured.
    pub closed spec fn identity_of(&self) -> Option<Seq<char>> {
        match self.redis_auth {
            Some(identity) => Some(identity@),
            None => None,
        }
    }

    /// The secret for AUTH, where one is configured.
    pub closed spec fn secret_of(&self) -> Option<Seq<char>> {
        match self.redis_auth_pwd {
            Some(secret) => Some(secret@),
            None => None,
        }
    }

    /// Whether the worker has been given a cancellation channel.
    pub closed spec fn spawned(&self) -> bool {
        self.kill_tx is Some
    }

    pub fn new(
        redis_url: String,
        redis_auth: Option<String>,
        redis_auth_pwd: Option<String>,
    ) -> (handler: RedisPublisherHandler)
        ensures
            handler.url_of() == redis_url@,
            redis_auth matches Some(identity) ==> handler.identity_of() == Some(identity@),
            (redis_auth is None) ==> (handler.identity_of() is None),
            redis_auth_pwd matches Some(secret) ==> handler.secret_of() == Some(secret@),
            (redis_auth_pwd is None) ==> (handler.secret_of() is None),
            !handler.spawned(),
    {
        RedisPublisherHandler { redis_url, redis_auth, redis_auth_pwd, kill_tx: None }
    }

    pub fn url(&self) -> (url: &str)
        ensures
            url@ == self.url_of(),
    {
        self.redis_url.as_str()
    }

    /// The AUTH to perform when the connection is opened.
    pub fn auth_plan(&self) -> (plan: AuthPlan)
        ensures
            plan@ == auth_plan_of(self.identity_of(), self.secret_of()),
    {
        match &self.redis_auth {
            None => AuthPlan::Skip,
            Some(identity) => match &self.redis_auth_pwd {
                None => AuthPlan::Identity(identity.clone()),
                Some(secret) => AuthPlan::IdentityAndSecret(identity.clone(), secret.clone()),
            },
        }
    }

    /// Makes the worker's cancellation channel: the handler keeps the sending
    /// end, and the receiving end is for the worker that is about to start.
    pub fn arm(&mut self) -> (kill_rx: Receiver<KillSwitch>)
        ensures
            final(self).spawned(),
            final(self).url_of() == old(self).url_of(),
            final(self).identity_of() == old(self).identity_of(),
            final(self).secret_of() == old(self).secret_of(),
    {
        let (kill_tx, kill_rx) = std::sync::mpsc::channel();
        self.kill_tx = Some(kill_tx);
        kill_rx
    }

    /// Asks the worker to stop, and says what became of the request.
    pub fn stop(&self) -> (outcome: StopOutcome)
        ensures
            (outcome == StopOutcome::NotSpawned) == !self.spawned(),
    {
        request_stop(&self.kill_tx)
    }
}

impl Killable for RedisPublisherHandler {
    fn kill(&self) {
        let _ = request_stop(&self.kill_tx);
    }
}

/// Under which keys the records are persisted and broadcast.
#[derive(Clone, Copy, Debug, PartialEq, Eq, Structural)]
pub enum KeyPolicy {
    /// Inertial readings under one key, ranging measurements under another.
    PerKind,
    /// Both under one key.
    Shared,
}

/// The key of a record: fixed by the policy and by which of the two records
/// it is, and by nothing else.
pub open spec fn channel_of(policy: KeyPolicy, record: Envelope) -> Seq<char> {
    match policy {
        KeyPolicy::Shared => "tag:motioncapture"@,
        KeyPolicy::PerKind => match record {
            Envelope::Inertial(_) => "tag:motioncapture.nodemcu"@,
            Envelope::Ranging(_) => "tag:motioncapture.uwb"@,
        },
    }
}

/// The key of a record.
pub fn channel(policy: KeyPolicy, record: &JsonData) -> (key: &'static str)
    ensures
        key@ == channel_of(policy, record@),
{
    match policy {
        KeyPolicy::Shared => "tag:motioncapture",
        KeyPolicy::PerKind => match record {
            JsonData::MPU6050Data(_) => "tag:motioncapture.nodemcu",
            JsonData::UWBData(_) => "tag:motioncapture.uwb",
        },
    }
}

/// The JSON text of a timestamp: the seconds in decimal, or `null` where
/// there is none.
pub open spec fn stamp_text(timestamp: Option<u64>) -> Seq<char> {
    match timestamp {
        Some(t) => decimal(t as nat),
        None => "null"@,
    }
}

/// The JSON text of an inertial reading with `source` as the text of its
/// source: an object of its members in their fixed order, without spaces.
pub open spec fn inertial_text(source: Seq<char>, m: InertialModel) -> Seq<char> {
    "{\"source\":"@ + source + ",\"frequency\":"@ + signed_decimal(m.frequency as int)
        + ",\"acc_x\":"@ + m.acc_x + ",\"acc_y\":"@ + m.acc_y + ",\"acc_z\":"@ + m.acc_z
        + ",\"rot_x\":"@ + m.rot_x + ",\"rot_y\":"@ + m.rot_y + ",\"rot_z\":"@ + m.rot_z
        + ",\"timestamp\":"@ + stamp_text(m.timestamp) + "}"@
}

/// The JSON text of a ranging measurement with `source` as the text of its
/// source and `destination` as that of its destination: an object of its
/// members in their fixed order, without spaces. A measurement without a
/// destination has no such member.
pub open spec fn ranging_text(
    source: Seq<char>,
    destination: Option<Seq<char>>,
    u: RangingModel,
) -> Seq<char> {
    match destination {
        Some(destination) => "{\"source\":"@ + source + ",\"destination\":"@ + destination
            + ",\"range\":"@ + u.range + ",\"timestamp\":"@ + stamp_text(u.timestamp) + "}"@,
        None => "{\"source\":"@ + source + ",\"range\":"@ + u.range + ",\"timestamp\":"@
            + stamp_text(u.timestamp) + "}"@,
    }
}

/// The JSON text of a record, with its strings in quotes and escaped.
pub open spec fn record_text(record: Envelope) -> Seq<char> {
    match record {
        Envelope::Inertial(m) => inertial_text(quoted(m.source), m),
        Envelope::Ranging(u) => ranging_text(
            quoted(u.source),
            match u.destination {
                Some(destination) => Some(quoted(destination)),
                None => None,
            },
            u,
        ),
    }
}

fn stamp_payload(timestamp: Option<u64>) -> (text: String)
    ensures
        text@ == stamp_text(timestamp),
{
    match timestamp {
        Some(t) => decimal_text(t),
        None => String::from_str("null"),
    }
}

fn inertial_payload(m: &MPU6050DataInner) -> (text: String)
    ensures
        text@ == record_text(Envelope::Inertial(m@)),
{
    let source = quoted_text(m.source.as_str());
    let frequency = signed_decimal_text(m.frequency);
    let timestamp = stamp_payload(m.timestamp);
    let mut text = String::from_str("{\"source\":");
    text.append(source.as_str());
    text.append(",\"frequency\":");
    text.append(frequency.as_str());
    text.append(",\"acc_x\":");
    text.append(m.acc_x.text.as_str());
    text.append(",\"acc_y\":");
    text.append(m.acc_y.text.as_str());
    text.append(",\"acc_z\":");
    text.append(m.acc_z.text.as_str());
    text.append(",\"rot_x\":");
    text.append(m.rot_x.text.as_str());
    text.append(",\"rot_y\":");
    text.append(m.rot_y.text.as_str());
    text.append(",\"rot_z\":");
    text.append(m.rot_z.text.as_str());
    text.append(",\"timestamp\":");
    text.append(timestamp.as_str());
    text.append("}");
    text
}

fn ranging_payload(u: &UWBDataInner) -> (text: String)
    ensures
        text@ == record_text(Envelope::Ranging(u@)),
{
    let source = quoted_text(u.source.as_str());
    let timestamp = stamp_payload(u.timestamp);
    let mut text = String::from_str("{\"source\":");
    text.append(source.as_str());
    match &u.destination {
        Some(destination) => {
            let destination = quoted_text(destination.as_str());
            text.append(",\"destination\":");
            text.append(destination.as_str());
        },
        None => {},
    }
    text.append(",\"range\":");
    text.append(u.range.text.as_str());
    text.append(",\"timestamp\":");
    text.append(timestamp.as_str());
    text.append("}");
    text
}

/// What the publishing worker waits for.
#[derive(Clone, Debug, PartialEq, Eq)]
pub enum PublishState {
    /// The poll of the cancellation channel.
    Polling,
    /// The next record from the ingestion worker.
    Taking,
    /// The outcome of persisting the payload under the key.
    Persisting { key: String, payload: String },
    /// The outcome of broadcasting the payload.
    Broadcasting,
    /// Nothing: the worker has ended.
    Exited,
}

/// What came of the action that the worker asked for.
#[derive(Clone, Debug, PartialEq, Eq)]
pub enum PublishEvent {
    /// The cancellation channel was polled.
    Polled(KillPoll),
    /// The channel from the ingestion worker was read: the next record, or
    /// `None` where the ingestion worker is gone.
    Took(Option<JsonData>),
    /// The backend was asked to persist the payload, and did or did not.
    Persisted(bool),
    /// The backend was asked to broadcast the payload, and did or did not.
    Broadcast(bool),
}

/// What the worker asks for next.
#[derive(Clone, Debug, PartialEq, Eq)]
pub enum PublishAction {
    /// Poll the cancellation channel, without blocking.
    Poll,
    /// Wait for the next record.
    Take,
    /// Set `key` to `payload` in the backend.
    Persist { key: String, payload: String },
    /// Publish `payload` on the channel `key` of the backend.
    Broadcast { key: String, payload: String },
    /// Leave the loop.
    Exit,
    /// Nothing: the event was not the awaited one and has changed nothing.
    Nothing,
}

/// The model of a `PublishState`.
pub enum PublishStateModel {
    Polling,
    Taking,
    Persisting { key: Seq<char>, payload: Seq<char> },
    Broadcasting,
    Exited,
}

/// The model of a `PublishEvent`.
pub enum PublishEventModel {
    Polled(KillPoll),
    Took(Option<Envelope>),
    Persisted(bool),
    Broadcast(bool),
}

/// The model of a `PublishAction`.
pub enum PublishActionModel {
    Poll,
    Take,
    Persist { key: Seq<char>, payload: Seq<char> },
    Broadcast { key: Seq<char>, payload: Seq<char> },
    Exit,
    Nothing,
}

impl View for PublishState {
    type V = PublishStateModel;

    open spec fn view(&self) -> PublishStateModel {
        match self {
            PublishState::Polling => PublishStateModel::Polling,
            PublishState::Taking => PublishStateModel::Taking,
            PublishState::Persisting { key, payload } => PublishStateModel::Persisting {
                key: key@,
                payload: payload@,
            },
            PublishState::Broadcasting => PublishStateModel::Broadcasting,
            PublishState::Exited => PublishStateModel::Exited,
        }
    }
}

impl View for PublishEvent {
    type V = PublishEventModel;

    open spec fn view(&self) -> PublishEventModel {
        match self {
            PublishEvent::Polled(poll) => PublishEventModel::Polled(*poll),
            PublishEvent::Took(Some(record)) => PublishEventModel::Took(Some(record@)),
            PublishEvent::Took(None) => PublishEventModel::Took(None),
            PublishEvent::Persisted(done) => PublishEventModel::Persisted(*done),
            PublishEvent::Broadcast(done) => PublishEventModel::Broadcast(*done),
        }
    }
}

impl View for PublishAction {
    type V = PublishActionModel;

    open spec fn view(&self) -> PublishActionModel {
        match self {
            PublishAction::Poll => PublishActionModel::Poll,
            PublishAction::Take => PublishActionModel::Take,
            PublishAction::Persist { key, payload } => PublishActionModel::Persist {
                key: key@,
                payload: payload@,
            },
            PublishAction::Broadcast { key, payload } => PublishActionModel::Broadcast {
                key: key@,
                payload: payload@,
            },
            PublishAction::Exit => PublishActionModel::Exit,
            PublishAction::Nothing => PublishActionModel::Nothing,
        }
    }
}

/// What the worker does on an event: its next state and the action it asks
/// for.
///
/// A stop request, or the loss of the channel that would bring one, ends the
/// worker at the poll. When no record can be taken, the worker goes back to
/// the poll. The text of a record, which can always be written, is persisted
/// under the record's key and then broadcast on that key,
/// whether or not it could be persisted; after the broadcast, whether or not
/// it succeeded, the worker goes back to the poll. A worker that has ended
/// stays so. An event other than the awaited one changes nothing.
pub open spec fn publish_next(
    policy: KeyPolicy,
    state: PublishStateModel,
    event: PublishEventModel,
) -> (PublishStateModel, PublishActionModel) {
    match (state, event) {
        (PublishStateModel::Exited, _) => (PublishStateModel::Exited, PublishActionModel::Exit),
        (PublishStateModel::Polling, PublishEventModel::Polled(poll)) => if stops(poll) {
            (PublishStateModel::Exited, PublishActionModel::Exit)
        } else {
            (PublishStateModel::Taking, PublishActionModel::Take)
        },
        (PublishStateModel::Taking, PublishEventModel::Took(Some(record))) => (
            PublishStateModel::Persisting {
                key: channel_of(policy, record),
                payload: record_text(record),
            },
            PublishActionModel::Persist {
                key: channel_of(policy, record),
                payload: record_text(record),
            },
        ),
        (PublishStateModel::Taking, PublishEventModel::Took(None)) => (
            PublishStateModel::Polling,
            PublishActionModel::Poll,
        ),
        (PublishStateModel::Persisting { key, payload }, PublishEventModel::Persisted(_)) => (
            PublishStateModel::Broadcasting,
            PublishActionModel::Broadcast { key, payload },
        ),
        (PublishStateModel::Broadcasting, PublishEventModel::Broadcast(_)) => (
            PublishStateModel::Polling,
            PublishActionModel::Poll,
        ),
        _ => (state, PublishActionModel::Nothing),
    }
}

/// The state after a run of events.
pub open spec fn publish_state_after(
    policy: KeyPolicy,
    state: PublishStateModel,
    events: Seq<PublishEventModel>,
) -> PublishStateModel
    decreases events.len(),
{
    if events.len() == 0 {
        state
    } else {
        publish_next(
            policy,
            publish_state_after(policy, state, events.drop_last()),
            events.last(),
        ).0
    }
}

/// The actions that a run of events is answered with, one for each event.
pub open spec fn publish_actions(
    policy: KeyPolicy,
    state: PublishStateModel,
    events: Seq<PublishEventModel>,
) -> Seq<PublishActionModel>
    decreases events.len(),
{
    if events.len() == 0 {
        Seq::empty()
    } else {
        publish_actions(policy, state, events.drop_last()).push(
            publish_next(
                policy,
                publish_state_after(policy, state, events.drop_last()),
                events.last(),
            ).1,
        )
    }
}

/// The decisions of the publishing worker.
#[derive(Clone, Debug, PartialEq, Eq)]
pub struct RedisPublisherWorker {
    policy: KeyPolicy,
    state: PublishState,
}

impl RedisPublisherWorker {
    /// The key policy that the worker was made with.
    pub closed spec fn policy_of(&self) -> KeyPolicy {
        self.policy
    }

    /// What the worker waits for.
    pub closed spec fn state_of(&self) -> PublishStateModel {
        self.state@
    }

    /// A worker that awaits the poll of its cancellation channel.
    pub fn new(policy: KeyPolicy) -> (worker: RedisPublisherWorker)
        ensures
            worker.policy_of() == policy,
            worker.state_of() == PublishStateModel::Polling,
    {
        RedisPublisherWorker { policy, state: PublishState::Polling }
    }

    pub fn policy(&self) -> (policy: KeyPolicy)
        ensures
            policy == self.policy_of(),
    {
        self.policy
    }

    /// Whether the worker has ended.
    pub fn exited(&self) -> (r: bool)
        ensures
            r == (self.state_of() == PublishStateModel::Exited),
    {
        match &self.state {
            PublishState::Exited => true,
            _ => false,
        }
    }

    /// Writes a record as JSON text. Every record can be written: the result
    /// is never an error.
    pub fn parse_json_to_str(json_obj: &JsonData) -> (r: Result<String, ParseError>)
        ensures
            r is Ok,
            r matches Ok(text) ==> text@ == record_text(json_obj@),
    {
        match json_obj {
            JsonData::MPU6050Data(m) => Ok(inertial_payload(m)),
            JsonData::UWBData(u) => Ok(ranging_payload(u)),
        }
    }

    /// Takes an event, and says what the worker does next.
    pub fn step(self, event: PublishEvent) -> (r: (RedisPublisherWorker, PublishAction))
        ensures
            r.0.policy_of() == self.policy_of(),
            (r.0.state_of(), r.1@) == publish_next(self.policy_of(), self.state_of(), event@),
    {
        let policy = self.policy;
        match (self.state, event) {
            (PublishState::Exited, _) => (
                RedisPublisherWorker { policy, state: PublishState::Exited },
                PublishAction::Exit,
            ),
            (PublishState::Polling, PublishEvent::Polled(poll)) => {
                if must_stop(poll) {
                    (RedisPublisherWorker { policy, state: PublishState::Exited }, PublishAction::Exit)
                } else {
                    (RedisPublisherWorker { policy, state: PublishState::Taking }, PublishAction::Take)
                }
            },
            (PublishState::Taking, PublishEvent::Took(Some(record))) => {
                match Self::parse_json_to_str(&record) {
                    Ok(payload) => {
                        let key = String::from_str(channel(policy, &record));
                        let state = PublishState::Persisting {
                            key: key.clone(),
                            payload: payload.clone(),
                        };
                        (
                            RedisPublisherWorker { policy, state },
                            PublishAction::Persist { key, payload },
                        )
                    },
                    Err(_) => (
                        RedisPublisherWorker { policy, state: PublishState::Polling },
                        PublishAction::Poll,
                    ),
                }
            },
            (PublishState::Taking, PublishEvent::Took(None)) => (
                RedisPublisherWorker { policy, state: PublishState::Polling },
                PublishAction::Poll,
            ),
            (PublishState::Persisting { key, payload }, PublishEvent::Persisted(_)) => (
                RedisPublisherWorker { policy, state: PublishState::Broadcasting },
                PublishAction::Broadcast { key, payload },
            ),
            (PublishState::Broadcasting, PublishEvent::Broadcast(_)) => (
                RedisPublisherWorker { policy, state: PublishState::Polling },
                PublishAction::Poll,
            ),
            (state, _) => (RedisPublisherWorker { policy, state }, PublishAction::Nothing),
        }
    }
}

/// The key of a record is fixed by the policy and by which of the two records
/// it is: two records of one kind have one key, whatever they hold, and
/// stamping a record does not change its key.
pub proof fn law_key_is_fixed_by_kind(
    policy: KeyPolicy,
    a: Envelope,
    b: Envelope,
    clock: Option<u64>,
)
    ensures
        (a is Inertial) == (b is Inertial) ==> channel_of(policy, a) == channel_of(policy, b),
        channel_of(policy, a.stamped_by(clock)) == channel_of(policy, a),
        channel_of(KeyPolicy::Shared, a) == channel_of(KeyPolicy::Shared, b),
{
}

/// An inertial reading is relayed with what it came with: where the fields
/// of a datagram hold an inertial reading and the clock reads `clock`, the
/// text that is published holds the source, the frequency and the six
/// numbers of those fields, each in its place, and `clock` as the timestamp,
/// whatever timestamp the datagram brought.
pub proof fn law_inertial_reading_is_relayed(f: FieldsModel, clock: u64)
    requires
        is_inertial(f),
    ensures
        classified(f) == Some(Envelope::Inertial(inertial_of(f))),
        Envelope::Inertial(inertial_of(f)).stamped_by(Some(clock)).timestamp() == Some(clock),
        record_text(Envelope::Inertial(inertial_of(f)).stamped_by(Some(clock)))
            == "{\"source\":"@ + quoted(text_of(f.source)->0) + ",\"frequency\":"@
            + signed_decimal(frequency_of(f.frequency)->0 as int) + ",\"acc_x\":"@ + real_of(
            f.acc_x,
        )->0 + ",\"acc_y\":"@ + real_of(f.acc_y)->0 + ",\"acc_z\":"@ + real_of(f.acc_z)->0
            + ",\"rot_x\":"@ + real_of(f.rot_x)->0 + ",\"rot_y\":"@ + real_of(f.rot_y)->0
            + ",\"rot_z\":"@ + real_of(f.rot_z)->0 + ",\"timestamp\":"@ + decimal(clock as nat)
            + "}"@,
{
}

/// A ranging measurement is relayed with what it came with: where the fields
/// of a datagram hold a ranging measurement and no inertial reading, and the
/// clock reads `clock`, the text that is published holds the source, the
/// destination where there is one, and the range of those fields, each in its
/// place, and `clock` as the timestamp, whatever timestamp the datagram
/// brought.
pub proof fn law_ranging_measurement_is_relayed(f: FieldsModel, clock: u64)
    requires
        is_ranging(f),
        !is_inertial(f),
    ensures
        classified(f) == Some(Envelope::Ranging(ranging_of(f))),
        Envelope::Ranging(ranging_of(f)).stamped_by(Some(clock)).timestamp() == Some(clock),
        (optional_text_of(f.destination)->0 is None) ==> record_text(
            Envelope::Ranging(ranging_of(f)).stamped_by(Some(clock)),
        ) == "{\"source\":"@ + quoted(text_of(f.source)->0) + ",\"range\":"@ + real_of(
            f.range,
        )->0 + ",\"timestamp\":"@ + decimal(clock as nat) + "}"@,
        optional_text_of(f.destination)->0 matches Some(to) ==> record_text(
            Envelope::Ranging(ranging_of(f)).stamped_by(Some(clock)),
        ) == "{\"source\":"@ + quoted(text_of(f.source)->0) + ",\"destination\":"@ + quoted(to)
            + ",\"range\":"@ + real_of(f.range)->0 + ",\"timestamp\":"@ + decimal(clock as nat)
            + "}"@,
{
}

/// Every record that is taken is published: a worker that awaits a record and
/// is given one asks for the record's text to be persisted under the record's
/// key, then for the same text to be broadcast on the same key, and then for
/// the next poll, whether or not the backend took either.
pub proof fn law_record_is_persisted_then_broadcast(
    policy: KeyPolicy,
    record: Envelope,
    persisted: bool,
    broadcast: bool,
)
    ensures
        publish_actions(
            policy,
            PublishStateModel::Taking,
            seq![
                PublishEventModel::Took(Some(record)),
                PublishEventModel::Persisted(persisted),
                PublishEventModel::Broadcast(broadcast),
            ],
        ) == seq![
            PublishActionModel::Persist {
                key: channel_of(policy, record),
                payload: record_text(record),
            },
            PublishActionModel::Broadcast {
                key: channel_of(policy, record),
                payload: record_text(record),
            },
            PublishActionModel::Poll,
        ],
        publish_state_after(
            policy,
            PublishStateModel::Taking,
            seq![
                PublishEventModel::Took(Some(record)),
                PublishEventModel::Persisted(persisted),
                PublishEventModel::Broadcast(broadcast),
            ],
        ) == PublishStateModel::Polling,
{
    let e0 = PublishEventModel::Took(Some(record));
    let e1 = PublishEventModel::Persisted(persisted);
    let e2 = PublishEventModel::Broadcast(broadcast);
    let key = channel_of(policy, record);
    let payload = record_text(record);
    let s3 = seq![e0, e1, e2];
    let s2 = seq![e0, e1];
    let s1 = seq![e0];
    let s0 = Seq::<PublishEventModel>::empty();
    let taking = PublishStateModel::Taking;
    assert(s3.drop_last() == s2);
    assert(s2.drop_last() == s1);
    assert(s1.drop_last() == s0);
    assert(publish_state_after(policy, taking, s0) == taking);
    assert(publish_actions(policy, taking, s0) == Seq::<PublishActionModel>::empty());
    assert(publish_state_after(policy, taking, s1) == PublishStateModel::Persisting {
        key,
        payload,
    });
    assert(publish_actions(policy, taking, s1) == seq![
        PublishActionModel::Persist { key, payload },
    ]);
    assert(publish_state_after(policy, taking, s2) == PublishStateModel::Broadcasting);
    assert(publish_actions(policy, taking, s2) == seq![
        PublishActionModel::Persist { key, payload },
        PublishActionModel::Broadcast { key, payload },
    ]);
}

/// Nothing is persisted or broadcast without a record: a worker that awaits a
/// record and is given none asks for the next poll and is not ended.
pub proof fn law_nothing_published_without_record(policy: KeyPolicy)
    ensures
        publish_next(policy, PublishStateModel::Taking, PublishEventModel::Took(None)) == (
            PublishStateModel::Polling,
            PublishActionModel::Poll,
        ),
{
}

/// A worker that has ended stays ended and publishes nothing: whatever events
/// follow, each is answered with `Exit`.
pub proof fn law_ended_publisher_stays_ended(policy: KeyPolicy, events: Seq<PublishEventModel>)
    ensures
        publish_state_after(policy, PublishStateModel::Exited, events)
            == PublishStateModel::Exited,
        publish_actions(policy, PublishStateModel::Exited, events).len() == events.len(),
        forall|i: int|
            0 <= i < events.len() ==> publish_actions(policy, PublishStateModel::Exited, events)[i]
                == PublishActionModel::Exit,
    decreases events.len(),
{
    if events.len() > 0 {
        law_ended_publisher_stays_ended(policy, events.drop_last());
    }
}

/// A stop request ends the worker at its next poll: when a worker that awaits
/// its poll finds a stop request, or finds the sending end gone, it asks to
/// leave the loop and has ended.
pub proof fn law_stop_ends_publishing(policy: KeyPolicy, poll: KillPoll)
    requires
        stops(poll),
    ensures
        publish_next(policy, PublishStateModel::Polling, PublishEventModel::Polled(poll)) == (
            PublishStateModel::Exited,
            PublishActionModel::Exit,
        ),
{
}

/// A datagram that is a record is published as the record it is, stamped with
/// the clock's reading: the ingestion worker that awaits a datagram forwards
/// the record the datagram becomes, and the publishing worker that awaits a
/// record and is given that one asks for its text to be persisted under its
/// key.
pub proof fn law_datagram_is_published(policy: KeyPolicy, bytes: Seq<u8>, clock: u64)
    requires
        envelope_of(bytes, Some(clock)) is Some,
    ensures
        envelope_of(bytes, Some(clock))->0.timestamp() == Some(clock),
        ingest_next(
            IngestState::Receiving,
            IngestEventModel::Received(Some(bytes), Some(clock)),
        ) == (
            IngestState::Forwarding,
            IngestActionModel::Forward(envelope_of(bytes, Some(clock))->0),
        ),
        publish_next(
            policy,
            PublishStateModel::Taking,
            PublishEventModel::Took(Some(envelope_of(bytes, Some(clock))->0)),
        ).1 == (PublishActionModel::Persist {
            key: channel_of(policy, envelope_of(bytes, Some(clock))->0),
            payload: record_text(envelope_of(bytes, Some(clock))->0),
        }),
{
}

} // verus!
