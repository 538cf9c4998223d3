//! Core of a command-line assistant: decoding of streamed events, assembly of
//! content blocks, the confirmation of commands, transcript capture and the turn
//! state machine.

pub mod accumulator;
pub mod agent;
pub mod confirm;
pub mod decode;
pub mod invariants;
pub mod json;
pub mod runner;
pub mod text;
pub mod types;
pub mod wire;
