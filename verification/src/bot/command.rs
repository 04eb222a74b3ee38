//! The bot's commands, as `/snake_case` names.
use vstd::prelude::*;

verus! {

#[derive(Clone, Copy, PartialEq, Eq, Structural, Debug)]
pub enum Command {
    Start,
    Help,
    Support,
    Bio,
    Me,
    Info,
    AdminAdd,
    AdminDel,
    Rep,
    Top,
    Unit,
    UnitReport,
    Drop,
    MainMenu,
}

} // verus!
