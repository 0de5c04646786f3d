//! Presence status of a hackspace: a shared open/closed record with the
//! time of its last change, and the request routing that reads and sets it.

pub mod clock;
pub mod status;
pub mod token;
pub mod router;
pub mod response;
pub mod service;
