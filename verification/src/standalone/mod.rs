//! The standalone front end: a plugin played through the computer's audio and MIDI devices.

pub mod config;
pub mod midi;
pub mod parameters;
pub mod audio;
pub mod runner;
