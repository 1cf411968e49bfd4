use vstd::prelude::*;
use vstd::string::StringExecFns;
use std::rc::Rc;
use crate::config::{NetplayBuildConfiguration, NetplayBuildConfigurationV};
use crate::connecting::{
    connecting_step, method_session_id, ConnectedAttempt, ConnectingEvent, ConnectingEventV,
    ConnectingState, ConnectingStateV, StartMethod, StartMethodV, StartState, StartStateV,
};
use crate::game_state::{GameState, GameStateV};
use crate::input::{default_mapping, make_default_mapping, JoypadInput, MAX_PLAYERS};
use crate::netplay_session::{NetplaySession, NetplaySessionV, SyncOutcome, SyncOutcomeV};
use crate::pool::{create_task_pool, generate_netplay_id};
use crate::rom_hash::{hex_of, hex_string, RomHash};

verus! {

/// A lifecycle value: the shared session context common to every state,
/// plus the payload `S` specific to the current state. The context fields
/// are fixed when the session is created and carried unchanged through
/// every transition; only the payload ever changes.
pub struct Netplay<S> {
    /// The shared task pool the transport and synchronization collaborators
    /// run on. Opaque to this core; created once and only ever moved.
    pub rt: Rc<tokio::runtime::Runtime>,
    pub config: NetplayBuildConfiguration,
    /// Stable identifier for this participant, generated once if the host
    /// supplied none.
    pub netplay_id: String,
    /// Content hash of the loaded simulation payload; room identifiers are
    /// derived from its hexadecimal form.
    pub rom_hash: RomHash,
    /// The snapshot that seeds every fresh connection attempt.
    pub initial_game_state: GameState,
    pub state: S,
}

/// The mathematical value of a lifecycle value: every context field the
/// logic reads, plus the model of the state-specific payload. The task
/// pool handle is opaque and carries no value of its own.
pub ghost struct NetplayV<SV> {
    pub config: NetplayBuildConfigurationV,
    pub netplay_id: Seq<char>,
    pub rom_hash: Seq<u8>,
    pub initial_game_state: GameStateV,
    pub state: SV,
}

impl<S: View> View for Netplay<S> {
    type V = NetplayV<S::V>;

    open spec fn view(&self) -> NetplayV<S::V> {
        NetplayV {
            config: self.config@,
            netplay_id: self.netplay_id@,
            rom_hash: self.rom_hash@,
            initial_game_state: self.initial_game_state@,
            state: self.state@,
        }
    }
}

/// The same context with a new payload: how every transition produces its
/// result, so that no transition can fabricate a session identifier,
/// content hash, configuration or initial snapshot.
pub open spec fn rebuilt<A, B>(n: NetplayV<A>, state: B) -> NetplayV<B> {
    NetplayV {
        config: n.config,
        netplay_id: n.netplay_id,
        rom_hash: n.rom_hash,
        initial_game_state: n.initial_game_state,
        state,
    }
}

/// Payload of an idle session: nothing.
pub struct Disconnected {}

/// The mathematical value of [`Disconnected`].
pub ghost struct DisconnectedV {}

impl View for Disconnected {
    type V = DisconnectedV;

    open spec fn view(&self) -> DisconnectedV {
        DisconnectedV {}
    }
}

/// Payload of an actively synchronized session: the rollback session and
/// the identifier of the room it runs in.
pub struct Connected {
    pub netplay_session: NetplaySession,
    pub session_id: String,
}

/// The mathematical value of [`Connected`].
pub ghost struct ConnectedV {
    pub netplay_session: NetplaySessionV,
    pub session_id: Seq<char>,
}

impl View for Connected {
    type V = ConnectedV;

    open spec fn view(&self) -> ConnectedV {
        ConnectedV { netplay_session: self.netplay_session@, session_id: self.session_id@ }
    }
}

/// Payload of a session recovering from desynchronization: exactly two
/// racing reconnection attempts, `attempt1` seeded from the newest
/// confirmed snapshot, `attempt2` from the older one.
pub struct Resuming {
    pub attempt1: ConnectingState,
    pub attempt2: ConnectingState,
}

/// The mathematical value of [`Resuming`].
pub ghost struct ResumingV {
    pub attempt1: ConnectingStateV,
    pub attempt2: ConnectingStateV,
}

impl View for Resuming {
    type V = ResumingV;

    open spec fn view(&self) -> ResumingV {
        ResumingV { attempt1: self.attempt1@, attempt2: self.attempt2@ }
    }
}

/// Payload of a session whose connection attempt failed: the reported
/// reason, kept until the user resolves the failure.
pub struct Failed {
    pub reason: String,
}

/// The mathematical value of [`Failed`].
pub ghost struct FailedV {
    pub reason: Seq<char>,
}

impl View for Failed {
    type V = FailedV;

    open spec fn view(&self) -> FailedV {
        FailedV { reason: self.reason@ }
    }
}

/// The session lifecycle: a tagged union over exactly one state-specific
/// payload at a time. Every transition consumes the current value and
/// produces a new one, transferring ownership of the session data in full.
pub enum NetplayState {
    Disconnected(Netplay<Disconnected>),
    Connecting(Netplay<ConnectingState>),
    Connected(Netplay<Connected>),
    Resuming(Netplay<Resuming>),
    Failed(Netplay<Failed>),
}

/// The mathematical value of a [`NetplayState`].
pub ghost enum NetplayStateV {
    Disconnected(NetplayV<DisconnectedV>),
    Connecting(NetplayV<ConnectingStateV>),
    Connected(NetplayV<ConnectedV>),
    Resuming(NetplayV<ResumingV>),
    Failed(NetplayV<FailedV>),
}

impl View for NetplayState {
    type V = NetplayStateV;

    open spec fn view(&self) -> NetplayStateV {
        match self {
            NetplayState::Disconnected(n) => NetplayStateV::Disconnected(n@),
            NetplayState::Connecting(n) => NetplayStateV::Connecting(n@),
            NetplayState::Connected(n) => NetplayStateV::Connected(n@),
            NetplayState::Resuming(n) => NetplayStateV::Resuming(n@),
            NetplayState::Failed(n) => NetplayStateV::Failed(n@),
        }
    }
}

/// The task pool handle owned by whichever state the lifecycle value is
/// in. The pool is created once with the session context; every transition
/// carries the handle unchanged, so the pool outlives individual attempts
/// but never its owning session. It is opaque, so the transition contracts
/// state its preservation through this projection rather than through the
/// value model.
pub open spec fn pool_of(s: NetplayState) -> Rc<tokio::runtime::Runtime> {
    match s {
        NetplayState::Disconnected(n) => n.rt,
        NetplayState::Connecting(n) => n.rt,
        NetplayState::Connected(n) => n.rt,
        NetplayState::Resuming(n) => n.rt,
        NetplayState::Failed(n) => n.rt,
    }
}

/// What the collaborators reported when the host polled them for one
/// simulation step: the two attempt slots (a connecting session reads the
/// first; a resuming session reads both, `attempt1` first) and the
/// synchronization engine's outcome for a connected session. States that
/// own no collaborator ignore the report.
pub struct StepReport {
    pub attempt1: ConnectingEvent,
    pub attempt2: ConnectingEvent,
    pub session: SyncOutcome,
}

/// The mathematical value of a [`StepReport`].
pub ghost struct StepReportV {
    pub attempt1: ConnectingEventV,
    pub attempt2: ConnectingEventV,
    pub session: SyncOutcomeV,
}

impl View for StepReport {
    type V = StepReportV;

    open spec fn view(&self) -> StepReportV {
        StepReportV { attempt1: self.attempt1@, attempt2: self.attempt2@, session: self.session@ }
    }
}

/// Joining produces a connecting session that owns one attempt, started
/// with the given method; the context is carried unchanged.
pub open spec fn spec_join(n: NetplayV<DisconnectedV>, method: StartMethodV) -> NetplayStateV {
    NetplayStateV::Connecting(rebuilt(n, ConnectingStateV::InProgress(method)))
}

/// The session identifier a named room joins under: the room name, an
/// underscore, then the content hash in hexadecimal.
pub open spec fn derived_session_id(room: Seq<char>, hash: Seq<u8>) -> Seq<char> {
    room + seq!['_'] + hex_of(hash)
}

/// What joining a named room produces.
pub open spec fn spec_join_by_name(n: NetplayV<DisconnectedV>, room: Seq<char>) -> NetplayStateV {
    spec_join(
        n,
        StartMethodV::Join(
            StartStateV {
                input_mapping: None,
                game_state: n.initial_game_state,
                session_id: derived_session_id(room, n.rom_hash),
            },
            room,
        ),
    )
}

/// What matching with a random peer produces: the session identifier is
/// the content hash's hexadecimal form alone.
pub open spec fn spec_match_with_random(n: NetplayV<DisconnectedV>) -> NetplayStateV {
    spec_join(
        n,
        StartMethodV::MatchWithRandom(
            StartStateV {
                input_mapping: None,
                game_state: n.initial_game_state,
                session_id: hex_of(n.rom_hash),
            },
        ),
    )
}

/// The resume strategy: two fresh attempts with the `Resume` start method,
/// both reusing the session's peer input mapping and session identifier;
/// `attempt1` is seeded from the newest confirmed snapshot (preferred, it
/// minimizes replay distance), `attempt2` from the older one (fallback, in
/// case the peer has already discarded the newest).
pub open spec fn resuming_of(c: ConnectedV) -> ResumingV {
    ResumingV {
        attempt1: ConnectingStateV::InProgress(
            StartMethodV::Resume(
                StartStateV {
                    input_mapping: c.netplay_session.input_mapping,
                    game_state: c.netplay_session.last_confirmed_game_states.newer,
                    session_id: c.session_id,
                },
            ),
        ),
        attempt2: ConnectingStateV::InProgress(
            StartMethodV::Resume(
                StartStateV {
                    input_mapping: c.netplay_session.input_mapping,
                    game_state: c.netplay_session.last_confirmed_game_states.older,
                    session_id: c.session_id,
                },
            ),
        ),
    }
}

/// One step of a connecting session: the owned attempt steps on the
/// transport's report; on connection the session identifier is recovered
/// from the start method that produced the attempt, on failure the
/// reported reason is carried into the failed state.
pub open spec fn spec_advance_connecting(
    n: NetplayV<ConnectingStateV>,
    event: ConnectingEventV,
) -> NetplayStateV {
    let stepped = connecting_step(n.state, event);
    match stepped {
        ConnectingStateV::Connected(attempt) => NetplayStateV::Connected(
            rebuilt(
                n,
                ConnectedV {
                    netplay_session: attempt.state,
                    session_id: method_session_id(attempt.start_method),
                },
            ),
        ),
        ConnectingStateV::Failed(reason) => NetplayStateV::Failed(
            rebuilt(n, FailedV { reason }),
        ),
        ConnectingStateV::InProgress(_) => NetplayStateV::Connecting(rebuilt(n, stepped)),
    }
}

/// One step of a connected session: with no peer input mapping negotiated
/// yet, the default mapping is assigned and the step's inputs are not
/// consumed against the simulation; otherwise the synchronization engine's
/// outcome decides between rolling the confirmed-snapshot window forward
/// and entering the resume strategy.
pub open spec fn spec_advance_connected(
    n: NetplayV<ConnectedV>,
    outcome: SyncOutcomeV,
) -> NetplayStateV {
    if n.state.netplay_session.input_mapping is Some {
        match outcome {
            SyncOutcomeV::Fault => NetplayStateV::Resuming(rebuilt(n, resuming_of(n.state))),
            SyncOutcomeV::Advanced(window) => NetplayStateV::Connected(
                rebuilt(
                    n,
                    ConnectedV {
                        netplay_session: NetplaySessionV {
                            input_mapping: n.state.netplay_session.input_mapping,
                            last_confirmed_game_states: window,
                        },
                        session_id: n.state.session_id,
                    },
                ),
            ),
        }
    } else {
        NetplayStateV::Connected(
            rebuilt(
                n,
                ConnectedV {
                    netplay_session: NetplaySessionV {
                        input_mapping: Some(default_mapping()),
                        last_confirmed_game_states: n.state.netplay_session.last_confirmed_game_states,
                    },
                    session_id: n.state.session_id,
                },
            ),
        )
    }
}

/// One step of a resuming session: both attempts step independently on
/// their reports; `attempt1` wins ties, an attempt that connected carries
/// the session back into the connecting state, and the discarded attempt's
/// work stops when its value is dropped.
pub open spec fn spec_advance_resuming(
    n: NetplayV<ResumingV>,
    event1: ConnectingEventV,
    event2: ConnectingEventV,
) -> NetplayStateV {
    let attempt1 = connecting_step(n.state.attempt1, event1);
    let attempt2 = connecting_step(n.state.attempt2, event2);
    if attempt1 is Connected {
        NetplayStateV::Connecting(rebuilt(n, attempt1))
    } else if attempt2 is Connected {
        NetplayStateV::Connecting(rebuilt(n, attempt2))
    } else {
        NetplayStateV::Resuming(rebuilt(n, ResumingV { attempt1, attempt2 }))
    }
}

/// One simulation step of the whole lifecycle. Disconnected and failed
/// sessions are untouched; the other states defer to their own step
/// functions on the relevant parts of the report.
pub open spec fn spec_advance(s: NetplayStateV, report: StepReportV) -> NetplayStateV {
    match s {
        NetplayStateV::Disconnected(_) => s,
        NetplayStateV::Connecting(n) => spec_advance_connecting(n, report.attempt1),
        NetplayStateV::Connected(n) => spec_advance_connected(n, report.session),
        NetplayStateV::Resuming(n) => spec_advance_resuming(n, report.attempt1, report.attempt2),
        NetplayStateV::Failed(_) => s,
    }
}

impl NetplayState {
    /// Advances the session by one simulation step. `inputs` is every
    /// participant's input for the step; it is consumed by the
    /// synchronization engine, whose outcome for this step the host hands
    /// back in `report` along with what the transport reported for any
    /// in-flight attempts. The host always receives a valid new lifecycle
    /// value; errors travel as data inside it, never as failures of this
    /// call.
    pub fn advance(self, inputs: [JoypadInput; MAX_PLAYERS], report: StepReport) -> (r: Self)
        ensures
            r@ == spec_advance(self@, report@),
            pool_of(r) == pool_of(self),
    {
        match self {
            NetplayState::Disconnected(_) => self,
            NetplayState::Connecting(netplay) => netplay.advance(report.attempt1),
            NetplayState::Connected(netplay) => netplay.advance(inputs, report.session),
            NetplayState::Resuming(netplay) => netplay.advance(report.attempt1, report.attempt2),
            NetplayState::Failed(_) => self,
        }
    }
}

impl<T: View> Netplay<T> {
    /// Rebuilds a lifecycle value around a new payload, carrying every
    /// shared context field over unchanged.
    fn from<S: View>(state: T, other: Netplay<S>) -> (r: Self)
        ensures
            r@ == rebuilt(other@, state@),
            r.rt == other.rt,
    {
        Self {
            rt: other.rt,
            config: other.config,
            netplay_id: other.netplay_id,
            rom_hash: other.rom_hash,
            initial_game_state: other.initial_game_state,
            state,
        }
    }
}

impl Netplay<Disconnected> {
    /// Creates the session context and an idle lifecycle value. A session
    /// identifier is drawn at random and stored back through `netplay_id`
    /// if the host supplied none; a supplied identifier is kept untouched.
    pub fn new(
        config: NetplayBuildConfiguration,
        netplay_id: &mut Option<String>,
        rom_hash: RomHash,
        initial_game_state: GameState,
    ) -> (r: Self)
        ensures
            (*old(netplay_id)) is Some ==> *final(netplay_id) == *old(netplay_id),
            (*old(netplay_id)) is None ==> ((*final(netplay_id)) matches Some(id)
                && id@.len() == 36),
            (*final(netplay_id)) matches Some(id) && r@.netplay_id == id@,
            r@.config == config@,
            r@.rom_hash == rom_hash@,
            r@.initial_game_state == initial_game_state@,
            r@.state == (DisconnectedV {}),
    {
        let id: String = match netplay_id.take() {
            Some(existing) => existing,
            None => generate_netplay_id(),
        };
        let own_id = id.clone();
        *netplay_id = Some(id);
        Netplay {
            rt: create_task_pool(),
            config,
            netplay_id: own_id,
            rom_hash,
            initial_game_state,
            state: Disconnected {},
        }
    }

    /// Joins the room named `room_name`, deriving the session identifier
    /// from the name and the content hash.
    pub fn join_by_name(self, room_name: &str) -> (r: NetplayState)
        ensures
            r@ == spec_join_by_name(self@, room_name@),
            pool_of(r) == self.rt,
    {
        let initial_state = self.initial_game_state.clone();
        let session_id = room_name.to_owned().concat("_").concat(
            hex_string(&self.rom_hash).as_str(),
        );
        proof {
            reveal_strlit("_");
            assert("_"@ =~= seq!['_']);
        }
        self.join(
            StartMethod::Join(
                StartState { game_state: initial_state, input_mapping: None, session_id },
                room_name.to_owned(),
            ),
        )
    }

    /// Matches with a random peer over the same content. The session
    /// identifier is the content hash's hexadecimal form alone, so two
    /// unrelated random matches over the same content can collide on it; a
    /// rare but real risk, accepted rather than silently fixed here.
    pub fn match_with_random(self) -> (r: NetplayState)
        ensures
            r@ == spec_match_with_random(self@),
            pool_of(r) == self.rt,
    {
        let initial_state = self.initial_game_state.clone();
        let session_id = hex_string(&self.rom_hash);
        self.join(
            StartMethod::MatchWithRandom(
                StartState { game_state: initial_state, input_mapping: None, session_id },
            ),
        )
    }

    /// Starts a connection attempt with the given method and enters the
    /// connecting state.
    pub fn join(self, start_method: StartMethod) -> (r: NetplayState)
        ensures
            r@ == spec_join(self@, start_method@),
            pool_of(r) == self.rt,
    {
        let attempt = ConnectingState::connect(&self, start_method);
        NetplayState::Connecting(Netplay::from(attempt, self))
    }
}

impl Netplay<ConnectingState> {
    /// Cancels the in-flight connection attempt unconditionally. Dropping
    /// the attempt's value is what stops its transport work; no partial
    /// state is retained.
    pub fn cancel(self) -> (r: Netplay<Disconnected>)
        ensures
            r@ == rebuilt(self@, DisconnectedV {}),
            r.rt == self.rt,
    {
        Netplay::from(Disconnected {}, self)
    }

    fn advance(self, event: ConnectingEvent) -> (r: NetplayState)
        ensures
            r@ == spec_advance_connecting(self@, event@),
            pool_of(r) == self.rt,
    {
        let Netplay { rt, config, netplay_id, rom_hash, initial_game_state, state } = self;
        let state = state.advance(event);
        match state {
            ConnectingState::Connected(connected) => {
                let ConnectedAttempt { state: netplay_session, start_method } = connected;
                let session_id = match start_method {
                    StartMethod::Join(StartState { session_id, .. }, _) => session_id,
                    StartMethod::MatchWithRandom(StartState { session_id, .. }) => session_id,
                    StartMethod::Resume(StartState { session_id, .. }) => session_id,
                };
                NetplayState::Connected(
                    Netplay {
                        rt,
                        config,
                        netplay_id,
                        rom_hash,
                        initial_game_state,
                        state: Connected { netplay_session, session_id },
                    },
                )
            },
            ConnectingState::Failed(reason) => NetplayState::Failed(
                Netplay {
                    rt,
                    config,
                    netplay_id,
                    rom_hash,
                    initial_game_state,
                    state: Failed { reason },
                },
            ),
            in_progress => NetplayState::Connecting(
                Netplay {
                    rt,
                    config,
                    netplay_id,
                    rom_hash,
                    initial_game_state,
                    state: in_progress,
                },
            ),
        }
    }
}

impl Resuming {
    /// Runs the resume strategy against a connected session's data: reads
    /// the two confirmed snapshots and spawns one attempt from each, the
    /// newest snapshot in `attempt1`.
    fn new(netplay: &Netplay<Connected>) -> (r: Self)
        ensures
            r@ == resuming_of(netplay@.state),
    {
        let netplay_session = &netplay.state.netplay_session;
        let input_mapping = netplay_session.input_mapping;
        let session_id = netplay.state.session_id.clone();
        Resuming {
            attempt1: ConnectingState::connect(
                netplay,
                StartMethod::Resume(
                    StartState {
                        input_mapping,
                        game_state: netplay_session.last_confirmed_game_states.newer.clone(),
                        session_id: session_id.clone(),
                    },
                ),
            ),
            attempt2: ConnectingState::connect(
                netplay,
                StartMethod::Resume(
                    StartState {
                        input_mapping,
                        game_state: netplay_session.last_confirmed_game_states.older.clone(),
                        session_id,
                    },
                ),
            ),
        }
    }
}

impl Netplay<Connected> {
    /// Leaves the connected session for the resume strategy, racing two
    /// reconnection attempts seeded from the two confirmed snapshots.
    pub fn resume(self) -> (r: Netplay<Resuming>)
        ensures
            r@ == rebuilt(self@, resuming_of(self@.state)),
            r.rt == self.rt,
    {
        let resuming = Resuming::new(&self);
        Netplay::from(resuming, self)
    }

    fn advance(
        self,
        _inputs: [JoypadInput; MAX_PLAYERS],
        outcome: SyncOutcome,
    ) -> (r: NetplayState)
        ensures
            r@ == spec_advance_connected(self@, outcome@),
            pool_of(r) == self.rt,
    {
        if self.state.netplay_session.input_mapping.is_some() {
            match outcome {
                SyncOutcome::Fault => NetplayState::Resuming(self.resume()),
                SyncOutcome::Advanced(window) => {
                    let Netplay { rt, config, netplay_id, rom_hash, initial_game_state, state } =
                        self;
                    let Connected { netplay_session, session_id } = state;
                    NetplayState::Connected(
                        Netplay {
                            rt,
                            config,
                            netplay_id,
                            rom_hash,
                            initial_game_state,
                            state: Connected {
                                netplay_session: NetplaySession {
                                    input_mapping: netplay_session.input_mapping,
                                    last_confirmed_game_states: window,
                                },
                                session_id,
                            },
                        },
                    )
                },
            }
        } else {
            let Netplay { rt, config, netplay_id, rom_hash, initial_game_state, state } = self;
            let Connected { netplay_session, session_id } = state;
            NetplayState::Connected(
                Netplay {
                    rt,
                    config,
                    netplay_id,
                    rom_hash,
                    initial_game_state,
                    state: Connected {
                        netplay_session: NetplaySession {
                            input_mapping: Some(make_default_mapping()),
                            last_confirmed_game_states: netplay_session.last_confirmed_game_states,
                        },
                        session_id,
                    },
                },
            )
        }
    }

    /// Tears the connected session down unconditionally and returns to the
    /// idle state.
    pub fn disconnect(self) -> (r: Netplay<Disconnected>)
        ensures
            r@ == rebuilt(self@, DisconnectedV {}),
            r.rt == self.rt,
    {
        Netplay::from(Disconnected {}, self)
    }
}

impl Netplay<Resuming> {
    fn advance(self, event1: ConnectingEvent, event2: ConnectingEvent) -> (r: NetplayState)
        ensures
            r@ == spec_advance_resuming(self@, event1@, event2@),
            pool_of(r) == self.rt,
    {
        let Netplay { rt, config, netplay_id, rom_hash, initial_game_state, state } = self;
        let Resuming { attempt1, attempt2 } = state;
        let attempt1 = attempt1.advance(event1);
        let attempt2 = attempt2.advance(event2);
        match attempt1 {
            ConnectingState::Connected(winner) => NetplayState::Connecting(
                Netplay {
                    rt,
                    config,
                    netplay_id,
                    rom_hash,
                    initial_game_state,
                    state: ConnectingState::Connected(winner),
                },
            ),
            attempt1 => match attempt2 {
                ConnectingState::Connected(winner) => NetplayState::Connecting(
                    Netplay {
                        rt,
                        config,
                        netplay_id,
                        rom_hash,
                        initial_game_state,
                        state: ConnectingState::Connected(winner),
                    },
                ),
                attempt2 => NetplayState::Resuming(
                    Netplay {
                        rt,
                        config,
                        netplay_id,
                        rom_hash,
                        initial_game_state,
                        state: Resuming { attempt1, attempt2 },
                    },
                ),
            },
        }
    }

    /// Cancels both in-flight resume attempts unconditionally. Dropping
    /// their values stops the transport work they own; no partial state is
    /// retained.
    pub fn cancel(self) -> (r: Netplay<Disconnected>)
        ensures
            r@ == rebuilt(self@, DisconnectedV {}),
            r.rt == self.rt,
    {
        Netplay::from(Disconnected {}, self)
    }
}

impl Netplay<Failed> {
    /// Resolves the failure by returning to the idle state; the failure
    /// reason is discarded. The core never retries on its own.
    pub fn resume(self) -> (r: Netplay<Disconnected>)
        ensures
            r@ == rebuilt(self@, DisconnectedV {}),
            r.rt == self.rt,
    {
        Netplay::from(Disconnected {}, self)
    }
}

} // verus!
