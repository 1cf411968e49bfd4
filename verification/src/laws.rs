use vstd::prelude::*;
use crate::connecting::{connecting_step, ConnectingStateV, StartMethodV, StartStateV};
use crate::input::default_mapping;
use crate::netplay_state::{
    rebuilt, resuming_of, spec_advance, spec_join_by_name, ConnectedV, DisconnectedV, FailedV,
    NetplayStateV, NetplayV, ResumingV, StepReportV,
};
use crate::rom_hash::hex_of;

verus! {

/// The shared context fields of a lifecycle value, with the state-specific
/// payload erased. Two lifecycle values agree on it exactly when no
/// transition between them touched the session identifier, content hash,
/// configuration or initial snapshot.
pub open spec fn context_of<S>(n: NetplayV<S>) -> NetplayV<()> {
    rebuilt(n, ())
}

/// Whatever the step reports, advancing any lifecycle value yields a value
/// in one of the five lifecycle states. Each state owns exactly its own
/// payload: the lifecycle is a tagged union, so no value can hold two
/// states' data at once, and this lemma records that `advance` never
/// produces anything outside the union.
pub proof fn lemma_advance_yields_lifecycle_state(s: NetplayStateV, report: StepReportV)
    ensures
        ({
            let r = spec_advance(s, report);
            ||| r is Disconnected
            ||| r is Connecting
            ||| r is Connected
            ||| r is Resuming
            ||| r is Failed
        }),
{
}

/// Advancing a disconnected session is a no-op, for any step report.
pub proof fn lemma_advance_disconnected_noop(n: NetplayV<DisconnectedV>, report: StepReportV)
    ensures
        spec_advance(NetplayStateV::Disconnected(n), report) == NetplayStateV::Disconnected(n),
{
}

/// Advancing a failed session is a no-op, for any step report: the value,
/// its failure reason included, is returned unchanged. Leaving the failed
/// state takes an explicit user action.
pub proof fn lemma_advance_failed_noop(n: NetplayV<FailedV>, report: StepReportV)
    ensures
        spec_advance(NetplayStateV::Failed(n), report) == NetplayStateV::Failed(n),
        spec_advance(NetplayStateV::Failed(n), report) matches NetplayStateV::Failed(m)
            && m.state.reason == n.state.reason,
{
}

/// A connected session with no negotiated peer input mapping assigns the
/// default mapping (participant slots 0 and 1) in one advance call and
/// stays connected; everything else about it, the shared context included,
/// is untouched.
pub proof fn lemma_advance_assigns_default_mapping(n: NetplayV<ConnectedV>, report: StepReportV)
    requires
        n.state.netplay_session.input_mapping is None,
    ensures
        spec_advance(NetplayStateV::Connected(n), report) matches NetplayStateV::Connected(m)
            && m.state.netplay_session.input_mapping == Some(default_mapping())
            && m.state.netplay_session.last_confirmed_game_states
                == n.state.netplay_session.last_confirmed_game_states
            && m.state.session_id == n.state.session_id
            && context_of(m) == context_of(n),
{
}

/// A connected session whose synchronization step reports a fault enters
/// the resume strategy: the result is resuming with exactly two owned
/// attempts, both in progress under the `Resume` start method, reusing the
/// session's peer input mapping and session identifier; `attempt1` is
/// seeded from the newest confirmed snapshot and `attempt2` from the older
/// one. The shared context is untouched.
pub proof fn lemma_advance_fault_enters_resume(n: NetplayV<ConnectedV>, report: StepReportV)
    requires
        n.state.netplay_session.input_mapping is Some,
        report.session is Fault,
    ensures
        spec_advance(NetplayStateV::Connected(n), report) matches NetplayStateV::Resuming(m)
            && m.state == resuming_of(n.state)
            && context_of(m) == context_of(n),
        resuming_of(n.state).attempt1 == ConnectingStateV::InProgress(
            StartMethodV::Resume(
                (StartStateV {
                    input_mapping: n.state.netplay_session.input_mapping,
                    game_state: n.state.netplay_session.last_confirmed_game_states.newer,
                    session_id: n.state.session_id,
                }),
            ),
        ),
        resuming_of(n.state).attempt2 == ConnectingStateV::InProgress(
            StartMethodV::Resume(
                (StartStateV {
                    input_mapping: n.state.netplay_session.input_mapping,
                    game_state: n.state.netplay_session.last_confirmed_game_states.older,
                    session_id: n.state.session_id,
                }),
            ),
        ),
{
}

/// If, on one step of a resuming session, only the fallback attempt
/// reports connected while the preferred one does not, the session enters
/// the connecting state carrying the fallback attempt's session, context
/// untouched.
pub proof fn lemma_resuming_fallback_wins_alone(n: NetplayV<ResumingV>, report: StepReportV)
    requires
        !(connecting_step(n.state.attempt1, report.attempt1) is Connected),
        connecting_step(n.state.attempt2, report.attempt2) is Connected,
    ensures
        spec_advance(NetplayStateV::Resuming(n), report) matches NetplayStateV::Connecting(m)
            && m.state == connecting_step(n.state.attempt2, report.attempt2)
            && context_of(m) == context_of(n),
{
}

/// If both attempts of a resuming session report connected on the same
/// step, the preferred attempt — the one seeded from the newest confirmed
/// snapshot — wins the tie: the session enters the connecting state
/// carrying `attempt1`'s session, context untouched.
pub proof fn lemma_resuming_tie_prefers_newest(n: NetplayV<ResumingV>, report: StepReportV)
    requires
        connecting_step(n.state.attempt1, report.attempt1) is Connected,
        connecting_step(n.state.attempt2, report.attempt2) is Connected,
    ensures
        spec_advance(NetplayStateV::Resuming(n), report) matches NetplayStateV::Connecting(m)
            && m.state == connecting_step(n.state.attempt1, report.attempt1)
            && context_of(m) == context_of(n),
{
}

/// Joining a room by name produces a connecting session whose derived
/// session identifier is the room name, an underscore, then the content
/// hash in hexadecimal; the start state carries the initial snapshot and
/// no input mapping, and the shared context is untouched.
pub proof fn lemma_join_by_name_session_id(n: NetplayV<DisconnectedV>, room: Seq<char>)
    ensures
        ({
            &&& spec_join_by_name(n, room) matches NetplayStateV::Connecting(m)
            &&& m.state matches ConnectingStateV::InProgress(method)
            &&& method matches StartMethodV::Join(start, joined_room)
            &&& context_of(m) == context_of(n)
            &&& joined_room == room
            &&& start.session_id == room + seq!['_'] + hex_of(n.rom_hash)
            &&& start.game_state == n.initial_game_state
            &&& start.input_mapping is None
        }),
{
}

/// Round trip: disconnecting a connected session and joining a room by
/// name re-enters the connecting state with the same shared context fields
/// as the original session — no transition along the way fabricates or
/// mutates a session identifier, content hash, configuration or initial
/// snapshot. The remaining context field, the task pool handle, is opaque
/// to the value model; that every transition carries it unchanged is
/// stated directly on each transition's contract, as `rt` equality or
/// through `pool_of`.
pub proof fn lemma_disconnect_join_round_trip(n: NetplayV<ConnectedV>, room: Seq<char>)
    ensures
        ({
            let idle = rebuilt(n, DisconnectedV {});
            spec_join_by_name(idle, room) matches NetplayStateV::Connecting(m)
                && context_of(m) == context_of(n)
        }),
{
}

} // verus!
