//! The CLAP front end: the decisions behind the CLAP plugin interface and its extensions.

pub mod event;
pub mod parameters;
pub mod stream;
pub mod extensions;
pub mod factory;
pub mod instance;
pub mod host;
