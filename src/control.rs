//! Messages to a server that runs under its own task.

use vstd::prelude::*;

verus! {

/// What a running server's task is told to do.
#[derive(Clone, Copy, Debug, PartialEq, Eq, Structural)]
pub enum Action {
    /// Kill the server.
    Stop,
    /// Leave the server running and stop watching it.
    Nothing,
}

impl Default for Action {
    fn default() -> (r: Self)
        ensures
            r == Action::Nothing,
    {
        Action::Nothing
    }
}

impl Action {
    /// Whether the server is to be killed on this message.
    pub fn kills(&self) -> (r: bool)
        ensures
            r == (*self == Action::Stop),
    {
        match self {
            Action::Stop => true,
            Action::Nothing => false,
        }
    }
}

} // verus!
