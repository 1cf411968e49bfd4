use vstd::prelude::*;

verus! {

/// Build and runtime configuration for netplay, fixed at session-context
/// creation and carried unchanged through every lifecycle transition.
#[derive(PartialEq, Eq, Debug)]
pub struct NetplayBuildConfiguration {
    /// The signaling server the transport contacts to establish peers.
    pub server_url: String,
}

/// The mathematical value of a [`NetplayBuildConfiguration`].
pub ghost struct NetplayBuildConfigurationV {
    pub server_url: Seq<char>,
}

impl View for NetplayBuildConfiguration {
    type V = NetplayBuildConfigurationV;

    open spec fn view(&self) -> NetplayBuildConfigurationV {
        NetplayBuildConfigurationV { server_url: self.server_url@ }
    }
}

} // verus!
