//! Client core of a password-manager session: the wire codec and the
//! interaction state machine that drives it.

pub mod app;
pub mod armor;
pub mod handler;
pub mod number;
pub mod session_laws;
pub mod tcp;
pub mod text;
pub mod wire_laws;
