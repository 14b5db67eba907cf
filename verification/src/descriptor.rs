//! What a tool provider tells a host that asks what it is.

use vstd::prelude::*;

verus! {

/// A provider's answer to an introspection query. It never changes while the
/// provider runs.
#[derive(Debug, PartialEq, Eq)]
pub struct ServerDescriptor {
    /// A line for the host's user.
    pub instructions: String,
    /// Whether the provider offers tools.
    pub tools_enabled: bool,
}

/// A `ServerDescriptor` with its text as a sequence of characters.
pub struct ServerDescriptorView {
    pub instructions: Seq<char>,
    pub tools_enabled: bool,
}

impl View for ServerDescriptor {
    type V = ServerDescriptorView;

    open spec fn view(&self) -> ServerDescriptorView {
        ServerDescriptorView {
            instructions: self.instructions@,
            tools_enabled: self.tools_enabled,
        }
    }
}

} // verus!
