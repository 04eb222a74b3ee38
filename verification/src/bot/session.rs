//! What the bot waits for from a user in a private chat.
use vstd::prelude::*;
use crate::bot::support::SupportCategory;
use crate::oknoid::DropId;

verus! {

#[derive(Clone, Copy, PartialEq, Eq, Structural, Debug)]
pub enum SessionState {
    Idle,
    WaitBioMessage,
    WaitSupportMessage { category: SupportCategory },
    WaitUnitReport { drop_id: DropId },
}

impl Default for SessionState {
    fn default() -> (r: SessionState)
        ensures
            r == SessionState::Idle,
    {
        SessionState::Idle
    }
}

} // verus!
