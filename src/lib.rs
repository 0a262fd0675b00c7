//! Interactive control core of a live camera filter: the key bindings, the
//! edge-detection thresholds, the stage switches, the order in which the
//! filter stages run, and the settings snapshot kept between sessions.

pub mod keys;
pub mod flags;
pub mod thresholds;
pub mod pipeline;
pub mod session;
