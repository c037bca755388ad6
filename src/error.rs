use vstd::prelude::*;

verus! {

/// Errors of the terminal: PTY failures, wrapped I/O errors, and kinds that
/// signal a bug (the parser itself never fails).
#[derive(Clone, Debug)]
pub enum PhosphorError {
    Pty(String),
    Io(String),
    Parse(String),
    State(String),
    Event(String),
    Config(String),
    Platform(String),
}

pub type Result<T> = std::result::Result<T, PhosphorError>;

} // verus!
