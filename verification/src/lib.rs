//! Verified core of a cross-format audio plugin framework: the decisions that the
//! CLAP, VST3, AUv3 and standalone front ends take, stated and proved over plain values.

pub mod editor;
pub mod error;
pub mod format;
pub mod plugin;
pub mod event;
pub mod process;
pub mod vst3;
pub mod clap;
pub mod auv3;
pub mod standalone;
pub mod text;
pub mod parameters;
