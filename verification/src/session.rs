//! The first set of session states: waiting for a bio or for a support request.
use vstd::prelude::*;

verus! {

#[derive(Clone, Copy, PartialEq, Eq, Structural, Debug)]
pub enum SessionState {
    Idle,
    WaitBioMessage,
    WaitSupportMessage,
}

impl Default for SessionState {
    fn default() -> (r: SessionState)
        ensures
            r == SessionState::Idle,
    {
        SessionState::Idle
    }
}

} // verus!
