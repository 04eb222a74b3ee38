//! Checks that handlers make before they act, and the replies of those checks.
use vstd::prelude::*;
use vstd::string::*;
use crate::bot::args::{Mention, MentionView};
use crate::bot::markup::{callback_button, callback_view, text_reply, Button, Reply, ReplyView, ButtonView};
use crate::bot::scheme::MENU_CALLBACK;
use crate::oknoid::{names_text, IdError, UserId, UsersNames};
use crate::text::{decimal, push_u64, starts_with, str_eq, str_starts_with};

verus! {

pub const USER_BANNED: &'static str = "Вы забанены";

pub const NO_RIGHTS_MSG: &'static str = "У вас недостаточно прав!";

pub const PRIVATE_ONLY_MSG: &'static str = "Действие может быть выполнено только в личных сообщениях.";

pub const USER_NOT_FOUND_MSG: &'static str = "Пользователь не найден!";

pub const MULTIPLE_USERS_MSG: &'static str = "Найдено несколько пользователей, выберите одного и используйте команду повторно, указав id или username:\n";

pub open spec fn menu_button_view() -> ButtonView {
    callback_view("В меню"@, MENU_CALLBACK@)
}

/// The button that leads back to the main menu.
pub fn menu_button() -> (b: Button)
    ensures
        b@ == menu_button_view(),
{
    callback_button("В меню", String::from_str(MENU_CALLBACK))
}

/// Whether a callback query carries exactly this data (`callback_filter`).
pub fn callback_filter(data: Option<&str>, id: &str) -> (r: bool)
    ensures
        r == (match data {
            Some(d) => d@ == id@,
            None => false,
        }),
{
    match data {
        Some(d) => str_eq(d, id),
        None => false,
    }
}

/// Whether a callback query carries data that starts with this prefix
/// (`callback_prefix_filter`).
pub fn callback_prefix_filter(data: Option<&str>, prefix: &str) -> (r: bool)
    ensures
        r == (match data {
            Some(d) => starts_with(d@, prefix@),
            None => false,
        }),
{
    match data {
        Some(d) => str_starts_with(d, prefix),
        None => false,
    }
}

pub enum UtilError {
    FailedGetChat,
    FailedGetUser,
    TelegramError(String),
    NoCallbackData,
    FailedParseCallbackData,
    IdError(IdError),
    UsageError,
}

/// The refusal sent where a check fails; the handler then stops with `UsageError`.
pub open spec fn refusal(text: Seq<char>) -> ReplyView {
    ReplyView { text, html: false, photo: None, keyboard: None }
}

/// Actions that only make sense in a private chat.
pub fn check_private(is_private: bool) -> (r: Option<Reply>)
    ensures
        is_private ==> r is None,
        !is_private ==> (r matches Some(x) && x@ == refusal(PRIVATE_ONLY_MSG@)),
{
    if is_private {
        None
    } else {
        Some(text_reply(String::from_str(PRIVATE_ONLY_MSG)))
    }
}

/// Admin actions: for admins and super admins.
pub fn check_user_privileges(privileged: bool) -> (r: Option<Reply>)
    ensures
        privileged ==> r is None,
        !privileged ==> (r matches Some(x) && x@ == refusal(NO_RIGHTS_MSG@)),
{
    if privileged {
        None
    } else {
        Some(text_reply(String::from_str(NO_RIGHTS_MSG)))
    }
}

/// Super admin actions: for the super admins of the configuration.
pub fn check_user_super_admin(super_admin: bool) -> (r: Option<Reply>)
    ensures
        super_admin ==> r is None,
        !super_admin ==> (r matches Some(x) && x@ == refusal(NO_RIGHTS_MSG@)),
{
    check_user_privileges(super_admin)
}

/// Banned users are refused.
pub fn check_banned(banned: bool) -> (r: Option<Reply>)
    ensures
        !banned ==> r is None,
        banned ==> (r matches Some(x) && x@ == refusal(USER_BANNED@)),
{
    if banned {
        Some(text_reply(String::from_str(USER_BANNED)))
    } else {
        None
    }
}

/// The users that a mention can mean: the one who took the username last,
/// or the id if that user is registered.
pub open spec fn mention_targets(names: crate::oknoid::NamesView, m: MentionView) -> Option<Seq<UserId>> {
    match m {
        MentionView::Username(u) => match names.usernames.get(u) {
            Some(id) => Some(seq![id]),
            None => None,
        },
        MentionView::UserId(id) => if names.names.contains_key(id) {
            Some(seq![id])
        } else {
            None
        },
    }
}

pub fn resolve_mention(names: &UsersNames, mention: &Mention) -> (r: Result<Vec<UserId>, UtilError>)
    ensures
        match mention_targets(names@, mention@) {
            Some(ids) => r matches Ok(v) && v@ == ids,
            None => r matches Err(e) && e is UsageError,
        },
{
    let found = match mention {
        Mention::Username(username) => names.get_id_by_username(username.as_str()),
        Mention::UserId(id) => if names.contains_user(*id) {
            Some(*id)
        } else {
            None
        },
    };
    match found {
        Some(id) => {
            let mut v = Vec::new();
            v.push(id);
            assert(v@ =~= seq![id]);
            Ok(v)
        },
        None => Err(UtilError::UsageError),
    }
}

/// What a mention that should name one user named.
pub enum OneUser {
    Found(UserId),
    /// Nobody: the handler says so.
    NotFound,
    /// Several users: the handler lists them.
    Multiple(Vec<UserId>),
}

/// `get_exactly_one_user`: several candidates are listed, none is reported.
pub fn get_exactly_one_user(targets: Vec<UserId>) -> (r: OneUser)
    ensures
        targets@.len() > 1 ==> (r matches OneUser::Multiple(v) && v@ == targets@),
        targets@.len() == 1 ==> r == OneUser::Found(targets@[0]),
        targets@.len() == 0 ==> r is NotFound,
{
    let mut targets = targets;
    if targets.len() > 1 {
        return OneUser::Multiple(targets);
    }
    match targets.pop() {
        Some(t) => OneUser::Found(t),
        None => OneUser::NotFound,
    }
}

/// The answer when a mention names nobody.
pub fn user_not_found() -> (r: Reply)
    ensures
        r@ == refusal(USER_NOT_FOUND_MSG@),
{
    text_reply(String::from_str(USER_NOT_FOUND_MSG))
}

/// The lines that list the users found: only users with known names.
pub open spec fn users_lines(names: crate::oknoid::NamesView, users: Seq<UserId>) -> Seq<char>
    decreases users.len(),
{
    if users.len() == 0 {
        Seq::empty()
    } else {
        let id = users.last();
        users_lines(names, users.drop_last()) + if names.names.contains_key(id) {
            "> "@ + names_text(names.names[id].1, names.names[id].0) + " id: "@ + decimal(
                id as nat,
            ) + "\n"@
        } else {
            Seq::empty()
        }
    }
}

/// Every user found gets a line, in order, when the index knows the user's names.
pub proof fn lemma_users_lines_in_order(names: crate::oknoid::NamesView, users: Seq<UserId>, id: UserId)
    ensures
        users_lines(names, users.push(id)) == users_lines(names, users) + if names.names.contains_key(id) {
            "> "@ + names_text(names.names[id].1, names.names[id].0) + " id: "@ + decimal(id as nat) + "\n"@
        } else {
            Seq::<char>::empty()
        },
{
    assert(users.push(id).drop_last() =~= users);
}

/// The message that lists several users for the sender to pick one.
pub fn multiple_users_found(names: &UsersNames, users: &Vec<UserId>) -> (r: String)
    ensures
        r@ == MULTIPLE_USERS_MSG@ + users_lines(names@, users@),
{
    let mut message = String::from_str(MULTIPLE_USERS_MSG);
    let mut i: usize = 0;
    while i < users.len()
        invariant
            i <= users@.len(),
            message@ == MULTIPLE_USERS_MSG@ + users_lines(names@, users@.take(i as int)),
        decreases users@.len() - i,
    {
        let user_id = users[i];
        let ghost before = message@;
        assert(users@.take(i + 1).drop_last() =~= users@.take(i as int));
        match names.get_names(user_id) {
            Some(n) => {
                let shown = n.display();
                message.append("> ");
                message.append(shown.as_str());
                message.append(" id: ");
                push_u64(&mut message, user_id);
                message.append("\n");
                assert(message@ =~= before + ("> "@ + names_text(names@.names[user_id].1, names@.names[user_id].0) + " id: "@ + decimal(user_id as nat) + "\n"@));
            },
            None => {
                assert(message@ =~= before + Seq::<char>::empty());
            },
        }
        i = i + 1;
    }
    assert(users@.take(i as int) =~= users@);
    message
}

} // verus!
