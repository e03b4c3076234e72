//! What the plugin tells the host about itself.

use vstd::prelude::*;
use crate::graph::{NodeKind, Tag};
use crate::params::PARAM_COUNT;
use crate::reverb::{reverb_nodes, reverb_tag, ENGINE_CHANNELS};

verus! {

/// The kind of plugin, as hosts sort them.
#[derive(Clone, Copy, Debug, PartialEq, Eq, Structural)]
pub enum PluginCategory {
    /// An audio effect.
    Effect,
}

/// The plugin's description for the host.
pub struct PluginInfo {
    pub name: String,
    pub vendor: String,
    pub unique_id: i32,
    pub version: i32,
    /// Input channels.
    pub inputs: i32,
    /// Output channels.
    pub outputs: i32,
    /// Number of parameters shown to the host.
    pub parameters: i32,
    pub category: PluginCategory,
}

/// The host's view of the reverb: one input channel, two output channels and
/// all of the plugin's parameters.
pub fn plugin_info() -> (i: PluginInfo)
    ensures
        i.name@ == "Dattorro Reverb"@,
        i.vendor@ == "chaosprint"@,
        i.unique_id == 19891010,
        i.version == 1,
        i.inputs == 1,
        i.outputs == ENGINE_CHANNELS,
        i.parameters == PARAM_COUNT,
        i.category == PluginCategory::Effect,
{
    PluginInfo {
        name: "Dattorro Reverb".to_owned(),
        vendor: "chaosprint".to_owned(),
        unique_id: 19891010,
        version: 1,
        inputs: 1,
        outputs: 2,
        parameters: PARAM_COUNT,
        category: PluginCategory::Effect,
    }
}

/// What the plugin announces agrees with the graph it renders with: one
/// input channel feeds the mono input node, and the stereo destination gives
/// the two output channels.
pub proof fn law_info_matches_graph()
    ensures
        reverb_nodes()[reverb_tag(Tag::Input) as int].channels == 1,
        reverb_nodes()[0].kind == NodeKind::Destination,
        reverb_nodes()[0].channels == ENGINE_CHANNELS,
{
}

} // verus!
