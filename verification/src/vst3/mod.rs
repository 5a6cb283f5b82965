//! The VST3 front end: the decisions behind the VST3 interfaces a plugin implements.

pub mod block;
pub mod component;
pub mod controller;
pub mod error;
pub mod factory;
pub mod key_codes;
pub mod lifecycle;
pub mod note_expressions;
pub mod parameters;
pub mod stream;
pub mod subcategories;
pub mod view;
