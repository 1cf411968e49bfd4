use vstd::prelude::*;
use crate::game_state::{GameState, GameStateV};
use crate::input::{mapping_view, InputMapping};
use crate::netplay_session::{NetplaySession, NetplaySessionV};
use crate::netplay_state::Netplay;

verus! {

/// The data a connection attempt is established from: the peer input
/// mapping to reuse (absent for fresh connections), the snapshot the
/// simulation starts from, and the session identifier naming the room.
pub struct StartState {
    pub input_mapping: Option<InputMapping>,
    pub game_state: GameState,
    pub session_id: String,
}

/// The mathematical value of a [`StartState`].
pub ghost struct StartStateV {
    pub input_mapping: Option<Seq<u8>>,
    pub game_state: GameStateV,
    pub session_id: Seq<char>,
}

impl View for StartState {
    type V = StartStateV;

    open spec fn view(&self) -> StartStateV {
        StartStateV {
            input_mapping: mapping_view(self.input_mapping),
            game_state: self.game_state@,
            session_id: self.session_id@,
        }
    }
}

/// How a connection attempt should be established: join a named room,
/// match with a random peer, or resume an existing room from a specific
/// historical snapshot.
pub enum StartMethod {
    Join(StartState, String),
    MatchWithRandom(StartState),
    Resume(StartState),
}

/// The mathematical value of a [`StartMethod`].
pub ghost enum StartMethodV {
    Join(StartStateV, Seq<char>),
    MatchWithRandom(StartStateV),
    Resume(StartStateV),
}

impl View for StartMethod {
    type V = StartMethodV;

    open spec fn view(&self) -> StartMethodV {
        match self {
            StartMethod::Join(s, room) => StartMethodV::Join(s@, room@),
            StartMethod::MatchWithRandom(s) => StartMethodV::MatchWithRandom(s@),
            StartMethod::Resume(s) => StartMethodV::Resume(s@),
        }
    }
}

/// The session identifier embedded in a start method.
pub open spec fn method_session_id(m: StartMethodV) -> Seq<char> {
    match m {
        StartMethodV::Join(s, _) => s.session_id,
        StartMethodV::MatchWithRandom(s) => s.session_id,
        StartMethodV::Resume(s) => s.session_id,
    }
}

/// What the signaling transport reports for one attempt when polled for
/// one step: still working, connected with a synchronized session, or
/// failed with a human-readable reason.
pub enum ConnectingEvent {
    Pending,
    Connected(NetplaySession),
    Failed(String),
}

/// The mathematical value of a [`ConnectingEvent`].
pub ghost enum ConnectingEventV {
    Pending,
    Connected(NetplaySessionV),
    Failed(Seq<char>),
}

impl View for ConnectingEvent {
    type V = ConnectingEventV;

    open spec fn view(&self) -> ConnectingEventV {
        match self {
            ConnectingEvent::Pending => ConnectingEventV::Pending,
            ConnectingEvent::Connected(s) => ConnectingEventV::Connected(s@),
            ConnectingEvent::Failed(r) => ConnectingEventV::Failed(r@),
        }
    }
}

/// An attempt that has reported connected: the synchronized session it
/// established, together with the start method that produced it, kept so
/// the lifecycle machine can recover the session identifier.
pub struct ConnectedAttempt {
    pub state: NetplaySession,
    pub start_method: StartMethod,
}

/// The mathematical value of a [`ConnectedAttempt`].
pub ghost struct ConnectedAttemptV {
    pub state: NetplaySessionV,
    pub start_method: StartMethodV,
}

impl View for ConnectedAttempt {
    type V = ConnectedAttemptV;

    open spec fn view(&self) -> ConnectedAttemptV {
        ConnectedAttemptV { state: self.state@, start_method: self.start_method@ }
    }
}

/// The observable state of one connection attempt. The transport half of
/// the attempt runs outside this core on the session's task pool; what it
/// reports on each step arrives as a [`ConnectingEvent`], and this value
/// tracks where the attempt stands.
pub enum ConnectingState {
    InProgress(StartMethod),
    Connected(ConnectedAttempt),
    Failed(String),
}

/// The mathematical value of a [`ConnectingState`].
pub ghost enum ConnectingStateV {
    InProgress(StartMethodV),
    Connected(ConnectedAttemptV),
    Failed(Seq<char>),
}

impl View for ConnectingState {
    type V = ConnectingStateV;

    open spec fn view(&self) -> ConnectingStateV {
        match self {
            ConnectingState::InProgress(m) => ConnectingStateV::InProgress(m@),
            ConnectingState::Connected(c) => ConnectingStateV::Connected(c@),
            ConnectingState::Failed(r) => ConnectingStateV::Failed(r@),
        }
    }
}

/// How one attempt steps when the transport reports `event`: an attempt in
/// progress takes on what was reported, keeping the start method on
/// success; an attempt that has already connected or failed is settled and
/// ignores further reports.
pub open spec fn connecting_step(c: ConnectingStateV, event: ConnectingEventV) -> ConnectingStateV {
    match c {
        ConnectingStateV::InProgress(start_method) => match event {
            ConnectingEventV::Pending => ConnectingStateV::InProgress(start_method),
            ConnectingEventV::Connected(session) => ConnectingStateV::Connected(
                ConnectedAttemptV { state: session, start_method },
            ),
            ConnectingEventV::Failed(reason) => ConnectingStateV::Failed(reason),
        },
        _ => c,
    }
}

impl ConnectingState {
    /// Begins establishing a peer connection. The transport work itself is
    /// spawned outside this core on the context's task pool and never
    /// blocks the caller; the attempt this core owns starts in progress and
    /// is driven by the events the host hands to `advance`.
    pub fn connect<S>(_context: &Netplay<S>, start_method: StartMethod) -> (r: Self)
        ensures
            r@ == ConnectingStateV::InProgress(start_method@),
    {
        ConnectingState::InProgress(start_method)
    }

    /// Advances the attempt by one step, given what the transport reported
    /// for that step.
    pub fn advance(self, event: ConnectingEvent) -> (r: Self)
        ensures
            r@ == connecting_step(self@, event@),
    {
        match self {
            ConnectingState::InProgress(start_method) => match event {
                ConnectingEvent::Pending => ConnectingState::InProgress(start_method),
                ConnectingEvent::Connected(session) => ConnectingState::Connected(
                    ConnectedAttempt { state: session, start_method },
                ),
                ConnectingEvent::Failed(reason) => ConnectingState::Failed(reason),
            },
            settled => settled,
        }
    }
}

} // verus!
