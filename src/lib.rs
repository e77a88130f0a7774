//! Session and broadcast layer of a small multiplayer server: the wire
//! envelope, per-handle mailboxes, the identity registry and the decisions of
//! one connection's protocol state machine.
#![allow(non_snake_case)]

pub mod assets;
pub mod clock;
pub mod config;
pub mod command;
pub mod decimal;
pub mod fields;
pub mod identity;
pub mod model;
pub mod opcode;
pub mod queue;
pub mod session;
