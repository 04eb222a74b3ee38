//! The first set of commands, with their arguments parsed by the command parser.
use vstd::prelude::*;

verus! {

#[derive(Clone)]
pub enum Command {
    Start,
    Help,
    Support,
    Bio,
    Me,
    Info(String),
    AdminAdd(String),
    AdminDel(String),
    Rep(String, i64),
}

} // verus!
