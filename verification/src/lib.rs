//! LoomWM library: the spatial data model of a node-based infinite canvas
//! and the rules of the compositor built around it.

pub mod ai;
pub mod canvas;
pub mod config;
pub mod protocol;
pub mod scalar;
pub mod text;
pub mod wm;
