//! Verified core of a Dattorro plate-reverb audio plugin: its parameters,
//! the graph it renders with, how parameter changes reach that graph, how a
//! host buffer is cut into blocks, and the editor's state.

pub mod blocks;
pub mod control;
pub mod editor;
pub mod graph;
pub mod info;
pub mod params;
pub mod reverb;
