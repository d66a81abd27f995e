//! Lifecycle of a real-time rendering session, kept apart from the graphics
//! API that carries it out.

pub mod command;
pub mod feature_level;
pub mod game;
pub mod laws;
pub mod session;
pub mod status;
