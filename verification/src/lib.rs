//! Credential selection, rotation and recovery for a client of the
//! NationStates API.

pub mod api;
pub mod clock;
pub mod credentials;
pub mod ping;
pub mod profile;
pub mod text;
