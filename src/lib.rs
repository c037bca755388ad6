//! Terminal emulator core: a resumable VT byte parser, the terminal state
//! model with the rules that apply parsed events to it, and the decision
//! logic of the I/O coordinator.

pub mod types;
pub mod traits;
pub mod cursor;
pub mod buffer;
pub mod model;
pub mod state;
pub mod ansi;
pub mod utf8;
pub mod dispatch;
pub mod parser;
pub mod laws;
pub mod events;
pub mod input;
pub mod spawn;
pub mod error;
pub mod session;
