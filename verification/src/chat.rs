//! Values the chat commands hand to the interface.
use vstd::prelude::*;

verus! {

/// A piece of a streamed answer; `done` marks the end of the answer.
#[derive(Debug, Clone)]
pub struct StreamChunk {
    pub content: String,
    pub done: bool,
}

/// A failed command, with its message.
#[derive(Debug)]
pub struct CommandError {
    pub message: String,
}

} // verus!
