//! The Audio Unit (v3) front end.

pub mod render_event;
pub mod event;
pub mod parameters;
pub mod block;
pub mod wrapper;
