//! The client's screens.
pub mod forum;
pub mod forums;
pub mod home;
