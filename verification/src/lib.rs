//! Core of a hub/node inter-process protocol: a binary frame codec for a
//! duplex byte channel, a pending-request correlation table, an API routing
//! and parameter-validation layer, and the session state machine that ties
//! them together. Transport I/O, JSON payload encoding and the async plumbing
//! live outside this crate; everything here is plain verified logic.

use vstd::prelude::*;

pub mod error;
pub mod codec;
pub mod pending;
pub mod text;
pub mod api;
pub mod message;
pub mod endpoint;
pub mod node;
pub mod session;
pub mod config;

verus! {

/// Privilege level attached to a user context.
#[derive(Debug, Clone, Copy, PartialEq, Eq, Structural)]
pub enum UserLevel {
    Admin,
    Root,
    Normal,
}

/// A named user with a privilege level.
#[derive(Debug, Clone)]
pub struct User {
    pub name: String,
    pub level: UserLevel,
}

/// A file handed to an operation as input.
#[derive(Debug, Clone)]
pub struct InputFile {
    pub path: String,
}

} // verus!
