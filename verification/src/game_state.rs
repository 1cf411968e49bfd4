use vstd::prelude::*;

verus! {

/// A serializable capture of the simulation's full state at one step,
/// tagged with that step's number. Snapshots seed fresh connection attempts
/// and anchor rollback resynchronization.
#[derive(Debug, PartialEq, Eq)]
pub struct GameState {
    /// The simulation step this snapshot was taken at.
    pub frame: u64,
    /// The serialized simulation state.
    pub data: Vec<u8>,
}

/// The mathematical value of a [`GameState`].
pub ghost struct GameStateV {
    pub frame: u64,
    pub data: Seq<u8>,
}

impl View for GameState {
    type V = GameStateV;

    open spec fn view(&self) -> GameStateV {
        GameStateV { frame: self.frame, data: self.data@ }
    }
}

impl Clone for GameState {
    fn clone(&self) -> (r: Self)
        ensures
            r@ == self@,
    {
        let data = self.data.clone();
        proof {
            assert(data@ =~= self.data@);
        }
        GameState { frame: self.frame, data }
    }
}

} // verus!
