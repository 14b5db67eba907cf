//! The UI component catalogue: two fixed answers.

use vstd::prelude::*;
use crate::descriptor::{ServerDescriptor, ServerDescriptorView};

verus! {

/// Provider of the UI component tools.
#[derive(Clone, Copy, Debug)]
pub struct UILibrary;

/// What the provider tells a host about itself.
pub const UI_INSTRUCTIONS: &'static str = "ui mcp";

/// What `get_component_list` answers.
pub const COMPONENT_LIST: &'static str = "Button";

/// What `get_component_source_code` answers.
pub const COMPONENT_SOURCE_CODE: &'static str = "A clickable button";

impl UILibrary {
    /// A provider. One is as good as another.
    pub fn new() -> (library: Self) {
        UILibrary
    }

    /// Describes the provider to a host: its instructions, and that it
    /// offers tools.
    pub fn get_info(&self) -> (info: ServerDescriptor)
        ensures
            info@ == (ServerDescriptorView { instructions: UI_INSTRUCTIONS@, tools_enabled: true }),
    {
        ServerDescriptor { instructions: String::from_str(UI_INSTRUCTIONS), tools_enabled: true }
    }

    /// The components on offer.
    pub fn get_component_list(&self) -> (list: String)
        ensures
            list@ == COMPONENT_LIST@,
    {
        String::from_str(COMPONENT_LIST)
    }

    /// The source of the one component on offer.
    pub fn get_component_source_code(&self) -> (source: String)
        ensures
            source@ == COMPONENT_SOURCE_CODE@,
    {
        String::from_str(COMPONENT_SOURCE_CODE)
    }
}

} // verus!
