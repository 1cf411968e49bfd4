use vstd::prelude::*;
use crate::game_state::{GameState, GameStateV};
use crate::input::{mapping_view, InputMapping};

verus! {

/// The rolling window of the two most recently confirmed simulation
/// snapshots, ordered oldest to newest. Both peers have acknowledged these
/// states, so either may serve as a rollback or resume anchor.
pub struct SnapshotWindow {
    pub older: GameState,
    pub newer: GameState,
}

/// The mathematical value of a [`SnapshotWindow`].
pub ghost struct SnapshotWindowV {
    pub older: GameStateV,
    pub newer: GameStateV,
}

impl View for SnapshotWindow {
    type V = SnapshotWindowV;

    open spec fn view(&self) -> SnapshotWindowV {
        SnapshotWindowV { older: self.older@, newer: self.newer@ }
    }
}

/// The active synchronized session owned by a connected lifecycle value:
/// the peer input mapping, once negotiated, and the confirmed-snapshot
/// window the resume strategy draws on.
pub struct NetplaySession {
    pub input_mapping: Option<InputMapping>,
    pub last_confirmed_game_states: SnapshotWindow,
}

/// The mathematical value of a [`NetplaySession`].
pub ghost struct NetplaySessionV {
    pub input_mapping: Option<Seq<u8>>,
    pub last_confirmed_game_states: SnapshotWindowV,
}

impl View for NetplaySession {
    type V = NetplaySessionV;

    open spec fn view(&self) -> NetplaySessionV {
        NetplaySessionV {
            input_mapping: mapping_view(self.input_mapping),
            last_confirmed_game_states: self.last_confirmed_game_states@,
        }
    }
}

/// What the rollback synchronization engine reports after consuming one
/// step's inputs: either the session advanced and the confirmed-snapshot
/// window rolled forward, or a desynchronization or communication fault.
pub enum SyncOutcome {
    Advanced(SnapshotWindow),
    Fault,
}

/// The mathematical value of a [`SyncOutcome`].
pub ghost enum SyncOutcomeV {
    Advanced(SnapshotWindowV),
    Fault,
}

impl View for SyncOutcome {
    type V = SyncOutcomeV;

    open spec fn view(&self) -> SyncOutcomeV {
        match self {
            SyncOutcome::Advanced(w) => SyncOutcomeV::Advanced(w@),
            SyncOutcome::Fault => SyncOutcomeV::Fault,
        }
    }
}

} // verus!
