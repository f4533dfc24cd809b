//! Phone-number lookup against a remote directory service: an interactive
//! sign-in state machine, single-use credential slots, the channel set that
//! joins a UI context to a worker, and the add / fetch / remove cycle that
//! turns phone numbers into user records.

pub mod auth;
pub mod comms;
pub mod enrich;
pub mod error;
pub mod gui;
pub mod phone;
pub mod provider;
pub mod text;
pub mod user;
