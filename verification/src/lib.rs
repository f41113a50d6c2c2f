//! Host side of a command-plugin protocol: boundary-safe value types, a
//! movable command handler pairing a name with captured state, and the host
//! state machine that owns at most one loaded module, its registry of named
//! commands and its optional custom prompt.

pub mod abi;
pub mod errors;
pub mod handler;
pub mod host;
pub mod parse;
pub mod render;
pub mod sample;
