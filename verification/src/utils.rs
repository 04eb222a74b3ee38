//! Mentions that borrow the argument text.
use vstd::prelude::*;
use vstd::string::*;
use crate::bot::args::{parse_mention_spec, MentionView};
use crate::oknoid::UserId;
use crate::text::{parse_u64, str_eq, str_skip};

verus! {

/// Whether a callback query carries exactly this data.
pub fn callback_filter(data: Option<&str>, id: &str) -> (r: bool)
    ensures
        r == (match data {
            Some(d) => d@ == id@,
            None => false,
        }),
{
    match data {
        Some(d) => str_eq(d, id),
        None => false,
    }
}

#[derive(Clone, Copy)]
pub enum Mention<'s> {
    Username(&'s str),
    UserId(UserId),
}

impl<'s> View for Mention<'s> {
    type V = MentionView;

    open spec fn view(&self) -> MentionView {
        match self {
            Mention::Username(u) => MentionView::Username(u@),
            Mention::UserId(id) => MentionView::UserId(*id),
        }
    }
}

impl<'s> Mention<'s> {
    /// `@name` is a username (without the `@`); otherwise the text must be a user id.
    pub fn parse(val: &'s str) -> (r: Option<Self>)
        ensures
            match parse_mention_spec(val@) {
                Some(m) => r matches Some(x) && x@ == m,
                None => r is None,
            },
    {
        if val.unicode_len() > 0 && val.get_char(0) == '@' {
            let rest = str_skip(val, 1);
            assert(rest@ =~= val@.drop_first());
            Some(Mention::Username(rest))
        } else {
            match parse_u64(val) {
                Some(id) => Some(Mention::UserId(id)),
                None => None,
            }
        }
    }
}

} // verus!
