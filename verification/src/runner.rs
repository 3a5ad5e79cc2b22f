//! The pipeline: the order in which the two workers are started, and what is
//! torn down when a start fails.
//!
//! The threads, the socket and the connection belong to whoever runs the
//! pipeline. That owner carries out the command that the pipeline gives,
//! hands back what came of it as an event, and is given the next command.

use crate::cancel::StopOutcome;
use crate::common::{ClientData, KillSwitch};
use crate::network::redis::{auth_plan_of, AuthPlan, KeyPolicy, RedisPublisherHandler};
use crate::network::udp::UdpHandler;
use crate::text::decimal;
use std::sync::mpsc::Receiver;
use vstd::prelude::*;

verus! {

/// Where a pipeline stands.
#[derive(Clone, Copy, Debug, PartialEq, Eq, Structural)]
pub enum PipelineState {
    /// Built, and not yet started.
    Idle,
    /// Being started. `ingesting` says whether the socket is there and the
    /// ingestion worker runs; until then the socket is being acquired, and
    /// from then on the connection to the backend.
    Starting { ingesting: bool },
    /// Both workers run.
    Running,
    /// Both workers have ended.
    Stopped,
    /// The start has failed. No worker is left running.
    Aborted,
}

/// What came of the command that the pipeline gave.
#[derive(Clone, Copy, Debug, PartialEq, Eq, Structural)]
pub enum PipelineEvent {
    /// The owner asks for the pipeline to be started.
    Start,
    /// The socket is bound.
    SocketBound,
    /// The socket could not be bound.
    BindFailed,
    /// The connection to the backend is open, and authenticated where the
    /// configuration asks for that.
    Connected,
    /// The connection could not be opened, or the backend refused the AUTH.
    ConnectFailed,
    /// Both worker threads have ended.
    WorkersExited,
}

/// What the owner is to do next.
#[derive(Clone, Copy, Debug, PartialEq, Eq, Structural)]
pub enum Command {
    /// Bind the socket to the pipeline's address.
    BindSocket,
    /// Start the ingestion worker on the socket, then open the connection to
    /// the backend and authenticate as the pipeline's plan says.
    LaunchIngestion,
    /// Start the publishing worker on the connection, then wait until both
    /// workers have ended.
    LaunchPublishing,
    /// Give up: send the ingestion worker its stop request, with
    /// `Pipeline::stop_ingestion`. There is no publishing worker to start or
    /// to wait for.
    StopIngestion,
    /// Nothing.
    Nothing,
}

/// What the pipeline does on an event: its next state and the command it
/// gives.
///
/// The socket comes first; without it the start is given up before any worker
/// exists. With it the ingestion worker is started, and the connection comes
/// next; without the connection the owner is told to stop the ingestion
/// worker and the start is given up, and no publishing worker is ever started. With both, the
/// publishing worker is started and the pipeline runs until both workers have
/// ended. A pipeline that has stopped or given up stays so. An event other
/// than the awaited one changes nothing.
pub open spec fn pipeline_next(state: PipelineState, event: PipelineEvent) -> (
    PipelineState,
    Command,
) {
    match (state, event) {
        (PipelineState::Idle, PipelineEvent::Start) => (
            PipelineState::Starting { ingesting: false },
            Command::BindSocket,
        ),
        (PipelineState::Starting { ingesting: false }, PipelineEvent::SocketBound) => (
            PipelineState::Starting { ingesting: true },
            Command::LaunchIngestion,
        ),
        (PipelineState::Starting { ingesting: false }, PipelineEvent::BindFailed) => (
            PipelineState::Aborted,
            Command::Nothing,
        ),
        (PipelineState::Starting { ingesting: true }, PipelineEvent::Connected) => (
            PipelineState::Running,
            Command::LaunchPublishing,
        ),
        (PipelineState::Starting { ingesting: true }, PipelineEvent::ConnectFailed) => (
            PipelineState::Aborted,
            Command::StopIngestion,
        ),
        (PipelineState::Running, PipelineEvent::WorkersExited) => (
            PipelineState::Stopped,
            Command::Nothing,
        ),
        _ => (state, Command::Nothing),
    }
}

/// The state after a run of events.
pub open spec fn pipeline_state_after(state: PipelineState, events: Seq<PipelineEvent>) -> PipelineState
    decreases events.len(),
{
    if events.len() == 0 {
        state
    } else {
        pipeline_next(pipeline_state_after(state, events.drop_last()), events.last()).0
    }
}

/// The commands that a run of events is answered with, one for each event.
pub open spec fn pipeline_commands(state: PipelineState, events: Seq<PipelineEvent>) -> Seq<Command>
    decreases events.len(),
{
    if events.len() == 0 {
        Seq::empty()
    } else {
        pipeline_commands(state, events.drop_last()).push(
            pipeline_next(pipeline_state_after(state, events.drop_last()), events.last()).1,
        )
    }
}

/// A text of the configuration that may be left empty: what it configures,
/// if anything.
pub open spec fn configured_of(text: Seq<char>) -> Option<Seq<char>> {
    if text.len() == 0 {
        None
    } else {
        Some(text)
    }
}

fn configured(text: &String) -> (r: Option<String>)
    ensures
        r matches Some(t) ==> configured_of(text@) == Some(t@),
        (r is None) ==> (configured_of(text@) is None),
{
    if text.as_str().is_empty() {
        None
    } else {
        Some(text.clone())
    }
}

/// One run of the relay: its state, and the owner's handles of its two
/// workers. The configuration is read when the pipeline is built and not
/// again.
pub struct Pipeline {
    state: PipelineState,
    policy: KeyPolicy,
    udp: UdpHandler,
    redis: RedisPublisherHandler,
}

impl Pipeline {
    /// Where the pipeline stands.
    pub closed spec fn state_of(&self) -> PipelineState {
        self.state
    }

    /// Under which keys the pipeline's records are published.
    pub closed spec fn policy_of(&self) -> KeyPolicy {
        self.policy
    }

    /// The handle of the ingestion worker.
    pub closed spec fn udp_of(&self) -> UdpHandler {
        self.udp
    }

    /// The handle of the publishing worker.
    pub closed spec fn redis_of(&self) -> RedisPublisherHandler {
        self.redis
    }

    /// What of the pipeline comes from its configuration, and stays as it is
    /// for the whole run.
    pub open spec fn configuration_kept(&self, before: &Pipeline) -> bool {
        &&& self.policy_of() == before.policy_of()
        &&& self.udp_of().port_of() == before.udp_of().port_of()
        &&& self.redis_of().url_of() == before.redis_of().url_of()
        &&& self.redis_of().identity_of() == before.redis_of().identity_of()
        &&& self.redis_of().secret_of() == before.redis_of().secret_of()
    }

    /// An idle pipeline for a configuration and a key policy. An identity or
    /// a secret that the configuration leaves empty is none.
    pub fn new(data: &ClientData, policy: KeyPolicy) -> (pipeline: Pipeline)
        ensures
            pipeline.state_of() == PipelineState::Idle,
            pipeline.policy_of() == policy,
            pipeline.udp_of().port_of() == data.udp_port,
            !pipeline.udp_of().spawned(),
            pipeline.redis_of().url_of() == data.redis_url@,
            pipeline.redis_of().identity_of() == configured_of(data.redis_auth@),
            pipeline.redis_of().secret_of() == configured_of(data.redis_auth_pwd@),
            !pipeline.redis_of().spawned(),
    {
        let identity = configured(&data.redis_auth);
        let secret = configured(&data.redis_auth_pwd);
        Pipeline {
            state: PipelineState::Idle,
            policy,
            udp: UdpHandler::new(data.udp_port),
            redis: RedisPublisherHandler::new(data.redis_url.clone(), identity, secret),
        }
    }

    pub fn state(&self) -> (state: PipelineState)
        ensures
            state == self.state_of(),
    {
        self.state
    }

    pub fn policy(&self) -> (policy: KeyPolicy)
        ensures
            policy == self.policy_of(),
    {
        self.policy
    }

    /// The address that the socket is bound to.
    pub fn bind_address(&self) -> (address: String)
        ensures
            address@ == "0.0.0.0:"@ + decimal(self.udp_of().port_of() as nat),
    {
        self.udp.bind_address()
    }

    /// The backend's URL.
    pub fn redis_url(&self) -> (url: &str)
        ensures
            url@ == self.redis_of().url_of(),
    {
        self.redis.url()
    }

    /// The AUTH to perform when the connection is opened.
    pub fn auth_plan(&self) -> (plan: AuthPlan)
        ensures
            plan@ == auth_plan_of(self.redis_of().identity_of(), self.redis_of().secret_of()),
    {
        self.redis.auth_plan()
    }

    /// Makes the ingestion worker's cancellation channel and hands out its
    /// receiving end, for the worker that is about to start.
    pub fn arm_ingestion(&mut self) -> (kill_rx: Receiver<KillSwitch>)
        ensures
            final(self).udp_of().spawned(),
            final(self).redis_of().spawned() == old(self).redis_of().spawned(),
            final(self).state_of() == old(self).state_of(),
            final(self).configuration_kept(old(self)),
    {
        self.udp.arm()
    }

    /// Makes the publishing worker's cancellation channel and hands out its
    /// receiving end, for the worker that is about to start.
    pub fn arm_publishing(&mut self) -> (kill_rx: Receiver<KillSwitch>)
        ensures
            final(self).redis_of().spawned(),
            final(self).udp_of().spawned() == old(self).udp_of().spawned(),
            final(self).state_of() == old(self).state_of(),
            final(self).configuration_kept(old(self)),
    {
        self.redis.arm()
    }

    /// Asks both workers to stop, the ingestion worker first, and says what
    /// became of each request.
    pub fn stop(&self) -> (outcome: (StopOutcome, StopOutcome))
        ensures
            (outcome.0 == StopOutcome::NotSpawned) == !self.udp_of().spawned(),
            (outcome.1 == StopOutcome::NotSpawned) == !self.redis_of().spawned(),
    {
        let ingestion = self.udp.stop();
        let publishing = self.redis.stop();
        (ingestion, publishing)
    }

    /// Asks the ingestion worker to stop, and says what became of the
    /// request. This is what the command `StopIngestion` is carried out with.
    pub fn stop_ingestion(&self) -> (outcome: StopOutcome)
        ensures
            (outcome == StopOutcome::NotSpawned) == !self.udp_of().spawned(),
    {
        self.udp.stop()
    }

    /// Takes an event, and gives the next command. The pipeline itself does
    /// nothing but decide: every command is for the owner to carry out.
    pub fn advance(&mut self, event: PipelineEvent) -> (command: Command)
        ensures
            (final(self).state_of(), command) == pipeline_next(old(self).state_of(), event),
            final(self).udp_of() == old(self).udp_of(),
            final(self).redis_of() == old(self).redis_of(),
            final(self).policy_of() == old(self).policy_of(),
    {
        let (state, command) = match (self.state, event) {
            (PipelineState::Idle, PipelineEvent::Start) => (
                PipelineState::Starting { ingesting: false },
                Command::BindSocket,
            ),
            (PipelineState::Starting { ingesting: false }, PipelineEvent::SocketBound) => (
                PipelineState::Starting { ingesting: true },
                Command::LaunchIngestion,
            ),
            (PipelineState::Starting { ingesting: false }, PipelineEvent::BindFailed) => (
                PipelineState::Aborted,
                Command::Nothing,
            ),
            (PipelineState::Starting { ingesting: true }, PipelineEvent::Connected) => (
                PipelineState::Running,
                Command::LaunchPublishing,
            ),
            (PipelineState::Starting { ingesting: true }, PipelineEvent::ConnectFailed) => (
                PipelineState::Aborted,
                Command::StopIngestion,
            ),
            (PipelineState::Running, PipelineEvent::WorkersExited) => (
                PipelineState::Stopped,
                Command::Nothing,
            ),
            (state, _) => (state, Command::Nothing),
        };
        self.state = state;
        command
    }
}

/// A pipeline that has given up stays so and gives no further command:
/// whatever events follow, no worker is started or waited for.
pub proof fn law_aborted_pipeline_is_final(events: Seq<PipelineEvent>)
    ensures
        pipeline_state_after(PipelineState::Aborted, events) == PipelineState::Aborted,
        pipeline_commands(PipelineState::Aborted, events).len() == events.len(),
        forall|i: int|
            0 <= i < events.len() ==> pipeline_commands(PipelineState::Aborted, events)[i]
                == Command::Nothing,
    decreases events.len(),
{
    if events.len() > 0 {
        law_aborted_pipeline_is_final(events.drop_last());
    }
}

/// A pipeline that has stopped stays so and gives no further command: there
/// is no restart.
pub proof fn law_stopped_pipeline_is_final(events: Seq<PipelineEvent>)
    ensures
        pipeline_state_after(PipelineState::Stopped, events) == PipelineState::Stopped,
        pipeline_commands(PipelineState::Stopped, events).len() == events.len(),
        forall|i: int|
            0 <= i < events.len() ==> pipeline_commands(PipelineState::Stopped, events)[i]
                == Command::Nothing,
    decreases events.len(),
{
    if events.len() > 0 {
        law_stopped_pipeline_is_final(events.drop_last());
    }
}

/// Without the socket no worker is started: a failed bind gives up the start
/// with no command at all.
pub proof fn law_failed_bind_aborts()
    ensures
        pipeline_commands(
            PipelineState::Idle,
            seq![PipelineEvent::Start, PipelineEvent::BindFailed],
        ) == seq![Command::BindSocket, Command::Nothing],
        pipeline_state_after(
            PipelineState::Idle,
            seq![PipelineEvent::Start, PipelineEvent::BindFailed],
        ) == PipelineState::Aborted,
{
    let s2 = seq![PipelineEvent::Start, PipelineEvent::BindFailed];
    let s1 = seq![PipelineEvent::Start];
    let s0 = Seq::<PipelineEvent>::empty();
    assert(s2.drop_last() == s1);
    assert(s1.drop_last() == s0);
    assert(pipeline_state_after(PipelineState::Idle, s0) == PipelineState::Idle);
    assert(pipeline_commands(PipelineState::Idle, s0) == Seq::<Command>::empty());
    assert(pipeline_state_after(PipelineState::Idle, s1) == PipelineState::Starting {
        ingesting: false,
    });
    assert(pipeline_commands(PipelineState::Idle, s1) == seq![Command::BindSocket]);
}

/// The events of a start whose socket is bound and whose connection fails.
pub open spec fn start_without_connection() -> Seq<PipelineEvent> {
    seq![PipelineEvent::Start, PipelineEvent::SocketBound, PipelineEvent::ConnectFailed]
}

/// Without the connection the pipeline gives up and leaves no worker behind:
/// from an idle pipeline, a start whose socket is bound and whose connection
/// fails is answered with the bind, the launch of the ingestion worker and its
/// stop; the pipeline is then aborted, and whatever events follow, the
/// publishing worker is neither started nor waited for.
pub proof fn law_failed_connection_aborts(later: Seq<PipelineEvent>)
    ensures
        pipeline_next(PipelineState::Starting { ingesting: true }, PipelineEvent::ConnectFailed)
            == (PipelineState::Aborted, Command::StopIngestion),
        pipeline_state_after(PipelineState::Idle, start_without_connection() + later)
            == PipelineState::Aborted,
        forall|i: int|
            0 <= i < 3 + later.len() ==> (#[trigger] pipeline_commands(
                PipelineState::Idle,
                start_without_connection() + later,
            )[i]) == (if i == 0 {
                Command::BindSocket
            } else if i == 1 {
                Command::LaunchIngestion
            } else if i == 2 {
                Command::StopIngestion
            } else {
                Command::Nothing
            }),
    decreases later.len(),
{
    let s3 = start_without_connection();
    let events = s3 + later;
    if later.len() == 0 {
        let s2 = seq![PipelineEvent::Start, PipelineEvent::SocketBound];
        let s1 = seq![PipelineEvent::Start];
        let s0 = Seq::<PipelineEvent>::empty();
        assert(events == s3);
        assert(s3.drop_last() == s2);
        assert(s2.drop_last() == s1);
        assert(s1.drop_last() == s0);
        assert(pipeline_state_after(PipelineState::Idle, s0) == PipelineState::Idle);
        assert(pipeline_commands(PipelineState::Idle, s0) == Seq::<Command>::empty());
        assert(pipeline_state_after(PipelineState::Idle, s1) == PipelineState::Starting {
            ingesting: false,
        });
        assert(pipeline_commands(PipelineState::Idle, s1) == seq![Command::BindSocket]);
        assert(pipeline_state_after(PipelineState::Idle, s2) == PipelineState::Starting {
            ingesting: true,
        });
        assert(pipeline_commands(PipelineState::Idle, s2) == seq![
            Command::BindSocket,
            Command::LaunchIngestion,
        ]);
    } else {
        law_failed_connection_aborts(later.drop_last());
        assert(events.drop_last() == s3 + later.drop_last());
        assert(events.last() == later.last());
        lemma_commands_len(PipelineState::Idle, events.drop_last());
    }
}

proof fn lemma_commands_len(state: PipelineState, events: Seq<PipelineEvent>)
    ensures
        pipeline_commands(state, events).len() == events.len(),
    decreases events.len(),
{
    if events.len() > 0 {
        lemma_commands_len(state, events.drop_last());
    }
}

} // verus!
