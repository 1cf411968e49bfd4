use vstd::prelude::*;

verus! {

/// Number of participants in a netplay session.
pub const MAX_PLAYERS: usize = 2;

/// One participant's controller state for a single simulation step.
#[derive(Clone, Copy, PartialEq, Eq, Structural, Debug)]
pub struct JoypadInput(pub u8);

/// The assignment of participant slots to the connected peers.
#[derive(Clone, Copy, PartialEq, Eq, Debug)]
pub struct InputMapping {
    pub ids: [u8; MAX_PLAYERS],
}

impl View for InputMapping {
    type V = Seq<u8>;

    open spec fn view(&self) -> Seq<u8> {
        self.ids@
    }
}

/// The mathematical value of an optional peer input mapping.
pub open spec fn mapping_view(m: Option<InputMapping>) -> Option<Seq<u8>> {
    match m {
        Some(im) => Some(im@),
        None => None,
    }
}

/// The mapping assigned when a connected session has not negotiated one:
/// participant slots `0` and `1`.
pub open spec fn default_mapping() -> Seq<u8> {
    seq![0u8, 1u8]
}

/// Builds the default mapping, assigning participant slots `0` and `1`.
pub fn make_default_mapping() -> (m: InputMapping)
    ensures
        m@ == default_mapping(),
{
    let ids: [u8; MAX_PLAYERS] = [0, 1];
    proof {
        assert(ids@ =~= default_mapping());
    }
    InputMapping { ids }
}

} // verus!
