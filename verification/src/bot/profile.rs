//! Profiles, bios, admins, reputation, bans and the reputation table.
use vstd::prelude::*;
use vstd::string::*;
use crate::bot::markup::{
    callback_button, callback_view, keyboard_reply, row1, text_reply, Banner, Button, ButtonView,
    Reply, ReplyView,
};
use crate::bot::scheme::{top_data, top_data_spec, BIO_CALLBACK, CANCEL_CALLBACK, MENU_CALLBACK};
use crate::bot::session::SessionState;
use crate::bot::args::{
    mention_arg_spec, mention_value_spec, parse_mention_and_value, parse_mention_arg, Mention,
    MentionView,
};
use crate::bot::utils::{
    check_user_privileges, get_exactly_one_user, mention_targets, menu_button, menu_button_view,
    multiple_users_found, refusal, resolve_mention, user_not_found, OneUser, UtilError,
    NO_RIGHTS_MSG,
};
use crate::bot::{invalid_usage_message, invalid_usage_view};
use crate::oknoid::{
    opt_str_view, opt_string_view, role_name, roles_in_order, usernames_after, Role, UserId, UserInfo, UsersNames,
};
use crate::text::{decimal, int_decimal, is_blank, push_i64, push_u64, str_is_blank};

verus! {

// ---------------------------------------------------------------------------
// Registration and bio
// ---------------------------------------------------------------------------


/// What a user's message leaves to the database once the names index knows
/// the user (`check_registration`).
pub enum Registration {
    /// A user seen for the first time: the record to store.
    Insert(UserInfo),
    /// A known user whose names changed: the names to store.
    UpdateNames,
    /// A known user whose names are as recorded.
    Unchanged,
}

/// Records the names of the user who wrote: a new user is added to the
/// index, a known one gets the current names.
pub fn check_registration(names: &mut UsersNames, user_id: UserId, username: Option<&str>, first_name: &str) -> (r: Registration)
    ensures
        final(names)@.names == old(names)@.names.insert(user_id, (first_name@, opt_str_view(username))),
        final(names)@.usernames == usernames_after(old(names)@, user_id, opt_str_view(username)),
        !old(names)@.names.contains_key(user_id) ==> (r matches Registration::Insert(info)
            && opt_string_view(info.username) == opt_str_view(username) && info.first_name@ == first_name@
            && info.roles@.len() == 0 && !info.is_banned && info.reputation == 0 && info.bio is None),
        old(names)@.names.contains_key(user_id) ==> if old(names)@.names[user_id] == (
            first_name@,
            opt_str_view(username),
        ) {
            r is Unchanged
        } else {
            r is UpdateNames
        },
{
    if names.contains_user(user_id) {
        if names.try_update(user_id, username, first_name) {
            Registration::UpdateNames
        } else {
            Registration::Unchanged
        }
    } else {
        names.add(user_id, username, first_name);
        let u: Option<String> = match username {
            Some(x) => Some(String::from_str(x)),
            None => None,
        };
        Registration::Insert(new_user_info(u, String::from_str(first_name)))
    }
}

/// The record of a user seen for the first time.
pub fn new_user_info(username: Option<String>, first_name: String) -> (r: UserInfo)
    ensures
        r.username == username,
        r.first_name == first_name,
        r.roles@.len() == 0,
        roles_in_order(r.roles@),
        !r.is_banned,
        r.reputation == 0,
        r.bio is None,
{
    UserInfo {
        username,
        first_name,
        roles: Vec::new(),
        is_banned: false,
        reputation: 0,
        bio: None,
    }
}

pub open spec fn cancel_button_view() -> ButtonView {
    callback_view("Отмена"@, CANCEL_CALLBACK@)
}

/// `/bio`: the bot waits for the bio in the next message.
pub fn bio() -> (r: (SessionState, Reply))
    ensures
        r.0 == SessionState::WaitBioMessage,
        r.1@ == (ReplyView {
            text: "Отправьте описание для профиля следующим сообщением."@,
            html: false,
            photo: None,
            keyboard: Some(seq![seq![cancel_button_view()]]),
        }),
{
    let mut k = Vec::new();
    k.push(row1(callback_button("Отмена", String::from_str(CANCEL_CALLBACK))));
    assert(k.deep_view() =~= seq![seq![cancel_button_view()]]);
    (
        SessionState::WaitBioMessage,
        keyboard_reply(String::from_str("Отправьте описание для профиля следующим сообщением."), k),
    )
}

/// What becomes of a message sent while the bot waits for a bio.
pub enum BioMessage {
    /// Not a text: the session keeps waiting.
    NoText(Reply),
    /// Only whitespace: the session keeps waiting.
    Empty(Reply),
    /// The session ends and the text becomes the bio.
    Accept,
}

pub fn on_bio_message(text: Option<&str>) -> (r: BioMessage)
    ensures
        text is None ==> (r matches BioMessage::NoText(x) && x@ == (ReplyView {
            text: "Отправьте сообщение с текстом!"@,
            html: false,
            photo: None,
            keyboard: None,
        })),
        text matches Some(t) && is_blank(t@) ==> (r matches BioMessage::Empty(x) && x@ == (
        ReplyView {
            text: "Описание не может быть пустым! >:("@,
            html: false,
            photo: None,
            keyboard: None,
        })),
        text matches Some(t) && !is_blank(t@) ==> r is Accept,
{
    match text {
        None => BioMessage::NoText(text_reply(String::from_str("Отправьте сообщение с текстом!"))),
        Some(t) => if str_is_blank(t) {
            BioMessage::Empty(text_reply(String::from_str("Описание не может быть пустым! >:(")))
        } else {
            BioMessage::Accept
        },
    }
}

/// The answer once the bio was stored, or could not be.
pub fn bio_saved_reply(saved: bool) -> (r: Reply)
    ensures
        r@ == (ReplyView {
            text: if saved {
                "Описание профиля обновлено."@
            } else {
                "Не удалось изменить описание."@
            },
            html: false,
            photo: None,
            keyboard: Some(seq![seq![menu_button_view()]]),
        }),
{
    let text = if saved {
        String::from_str("Описание профиля обновлено.")
    } else {
        String::from_str("Не удалось изменить описание.")
    };
    let mut k = Vec::new();
    k.push(row1(menu_button()));
    assert(k.deep_view() =~= seq![seq![menu_button_view()]]);
    keyboard_reply(text, k)
}

// ---------------------------------------------------------------------------
// Profiles
// ---------------------------------------------------------------------------

pub open spec fn roles_lines(roles: Seq<Role>) -> Seq<char>
    decreases roles.len(),
{
    if roles.len() == 0 {
        Seq::empty()
    } else {
        roles_lines(roles.drop_last()) + "> "@ + role_name(roles.last()) + "\n"@
    }
}

/// Every role of a profile gets its own line, in order.
pub proof fn lemma_roles_lines_in_order(roles: Seq<Role>, r: Role)
    ensures
        roles_lines(roles.push(r)) == roles_lines(roles) + "> "@ + role_name(r) + "\n"@,
{
    assert(roles.push(r).drop_last() =~= roles);
}

/// The text of a profile: the username (or the first name), the bio if any,
/// the reputation and the roles.
pub open spec fn profile_text(info: UserInfo) -> Seq<char> {
    (match info.username {
        Some(u) => "> Username: "@ + u@ + "\n"@,
        None => "> First name: "@ + info.first_name@ + "\n"@,
    }) + (match info.bio {
        Some(b) => "> Bio: "@ + b@ + "\n"@,
        None => Seq::empty(),
    }) + "> Reputation: "@ + int_decimal(info.reputation as int) + " ⚡\n"@ + roles_lines(
        info.roles@,
    )
}

/// One row: a bio button on one's own profile, then a menu button if asked for.
pub open spec fn profile_row(has_bio: bool, is_me: bool, menu: bool) -> Seq<ButtonView> {
    (if is_me {
        seq![
            callback_view(
                if has_bio {
                    "Изменить bio"@
                } else {
                    "Добавить bio"@
                },
                BIO_CALLBACK@,
            ),
        ]
    } else {
        Seq::empty()
    }) + (if menu {
        seq![callback_view("В меню"@, MENU_CALLBACK@)]
    } else {
        Seq::empty()
    })
}

/// The bio button is on one's own profile only, named by whether there is a
/// bio; the menu button is there only when asked for.
pub proof fn lemma_bio_button_only_on_own_profile(has_bio: bool, menu: bool)
    ensures
        profile_row(has_bio, false, menu) == (if menu {
            seq![menu_button_view()]
        } else {
            Seq::<ButtonView>::empty()
        }),
        profile_row(has_bio, true, menu).len() == (if menu { 2int } else { 1int }),
        profile_row(has_bio, true, menu)[0] == callback_view(
            if has_bio {
                "Изменить bio"@
            } else {
                "Добавить bio"@
            },
            BIO_CALLBACK@,
        ),
        menu ==> profile_row(has_bio, true, menu)[1] == menu_button_view(),
{
    assert(profile_row(has_bio, false, menu) =~= (if menu {
        seq![menu_button_view()]
    } else {
        Seq::<ButtonView>::empty()
    }));
}

/// The profile message (`send_profile`).
pub fn send_profile(info: &UserInfo, is_me: bool, menu_button: bool) -> (r: Reply)
    requires
        roles_in_order(info.roles@),
    ensures
        r@ == (ReplyView {
            text: profile_text(*info),
            html: false,
            photo: None,
            keyboard: Some(seq![profile_row(info.bio is Some, is_me, menu_button)]),
        }),
{
    let mut text = match &info.username {
        Some(u) => {
            let mut t = String::from_str("> Username: ");
            t.append(u.as_str());
            t.append("\n");
            t
        },
        None => {
            let mut t = String::from_str("> First name: ");
            t.append(info.first_name.as_str());
            t.append("\n");
            t
        },
    };
    let ghost head = text@;
    assert(head == (match info.username {
        Some(u) => "> Username: "@ + u@ + "\n"@,
        None => "> First name: "@ + info.first_name@ + "\n"@,
    }));
    match &info.bio {
        Some(b) => {
            text.append("> Bio: ");
            text.append(b.as_str());
            text.append("\n");
        },
        None => {
            assert(text@ =~= head + Seq::<char>::empty());
        },
    }
    text.append("> Reputation: ");
    push_i64(&mut text, info.reputation);
    text.append(" ⚡\n");
    let ghost before_roles = text@;
    assert(before_roles == head + (match info.bio {
        Some(b) => "> Bio: "@ + b@ + "\n"@,
        None => Seq::empty(),
    }) + "> Reputation: "@ + int_decimal(info.reputation as int) + " ⚡\n"@);
    let mut i: usize = 0;
    while i < info.roles.len()
        invariant
            i <= info.roles@.len(),
            text@ == before_roles + roles_lines(info.roles@.take(i as int)),
        decreases info.roles@.len() - i,
    {
        let role = info.roles[i];
        assert(info.roles@.take(i + 1).drop_last() =~= info.roles@.take(i as int));
        let name = role.display();
        text.append("> ");
        text.append(name.as_str());
        text.append("\n");
        i = i + 1;
    }
    assert(info.roles@.take(i as int) =~= info.roles@);
    assert(text@ =~= profile_text(*info));
    let mut row: Vec<Button> = Vec::new();
    if is_me {
        let label = if info.bio.is_some() {
            "Изменить bio"
        } else {
            "Добавить bio"
        };
        row.push(callback_button(label, String::from_str(BIO_CALLBACK)));
    }
    if menu_button {
        row.push(callback_button("В меню", String::from_str(MENU_CALLBACK)));
    }
    assert(row.deep_view() =~= profile_row(info.bio is Some, is_me, menu_button));
    let mut k = Vec::new();
    k.push(row);
    assert(k.deep_view() =~= seq![profile_row(info.bio is Some, is_me, menu_button)]);
    keyboard_reply(text, k)
}

// ---------------------------------------------------------------------------
// Admins, reputation, bans
// ---------------------------------------------------------------------------

/// The answer to `/admin_add`: whether the user was not an admin before.
pub open spec fn add_admin_text(newly: bool) -> Seq<char> {
    if newly {
        "Пользователь назначен админом."@
    } else {
        "Пользователь уже является админом."@
    }
}

pub fn on_add_admin_command(newly: bool) -> (r: String)
    ensures
        r@ == add_admin_text(newly),
{
    if newly {
        String::from_str("Пользователь назначен админом.")
    } else {
        String::from_str("Пользователь уже является админом.")
    }
}

/// The answer to `/admin_del`: whether the user was an admin before.
pub open spec fn del_admin_text(had_role: bool) -> Seq<char> {
    if had_role {
        "Пользователь более не является админом."@
    } else {
        "Пользователь не админ."@
    }
}

pub fn on_del_admin(had_role: bool) -> (r: String)
    ensures
        r@ == del_admin_text(had_role),
{
    if had_role {
        String::from_str("Пользователь более не является админом.")
    } else {
        String::from_str("Пользователь не админ.")
    }
}

/// The answer to `/rep`.
pub open spec fn change_rep_text(new_rep: i64) -> Seq<char> {
    "Обновленная репутация: "@ + int_decimal(new_rep as int)
}

pub fn on_change_rep(new_rep: i64) -> (r: String)
    ensures
        r@ == change_rep_text(new_rep),
{
    let mut s = String::from_str("Обновленная репутация: ");
    push_i64(&mut s, new_rep);
    s
}

/// A ban or unban: whether the stored state must change, and the answer.
/// The answer to a ban (`banned`) or unban, by whether the state changed.
pub open spec fn ban_text(banned: bool, changed: bool) -> Seq<char> {
    if banned {
        if changed {
            "Пользователь забанен."@
        } else {
            "Пользователь уже был забанен."@
        }
    } else {
        if changed {
            "Пользователь более не забанен."@
        } else {
            "Пользователь не был забанен."@
        }
    }
}

pub fn change_banned_state_command(is_banned: bool, banned: bool) -> (r: (bool, String))
    ensures
        r.0 == (is_banned != banned),
        r.1@ == ban_text(banned, r.0),
{
    let changed = is_banned != banned;
    let response = if banned {
        if changed {
            "Пользователь забанен."
        } else {
            "Пользователь уже был забанен."
        }
    } else {
        if changed {
            "Пользователь более не забанен."
        } else {
            "Пользователь не был забанен."
        }
    };
    (changed, String::from_str(response))
}

/// `/ban`: whether the stored state must change, and the answer.
pub fn on_ban_command(is_banned: bool) -> (r: (bool, String))
    ensures
        r.0 == !is_banned,
        r.1@ == if r.0 {
            "Пользователь забанен."@
        } else {
            "Пользователь уже был забанен."@
        },
{
    change_banned_state_command(is_banned, true)
}

/// `/unban`: whether the stored state must change, and the answer.
pub fn on_unban_command(is_banned: bool) -> (r: (bool, String))
    ensures
        r.0 == is_banned,
        r.1@ == if r.0 {
            "Пользователь более не забанен."@
        } else {
            "Пользователь не был забанен."@
        },
{
    change_banned_state_command(is_banned, false)
}

/// After a ban or unban the user's state is the one asked for, whatever it was.
pub proof fn lemma_ban_reaches_target(is_banned: bool, banned: bool)
    ensures
        (if is_banned != banned {
            banned
        } else {
            is_banned
        }) == banned,
{
}

// ---------------------------------------------------------------------------
// Admin commands: the sender's rights first, then the arguments, then the change
// ---------------------------------------------------------------------------

/// The commands that change another user: `/admin_add`, `/admin_del`, `/rep`,
/// `/ban` and `/unban`.
#[derive(Clone, Copy, PartialEq, Eq, Structural, Debug)]
pub enum AdminCommand {
    AddAdmin,
    DelAdmin,
    ChangeRep,
    Ban,
    Unban,
}

/// A question to the database, or a change of it.
#[derive(Clone, Copy, PartialEq, Eq, Structural, Debug)]
pub enum AdminQuery {
    /// Whether the user is a super admin or an admin.
    IsPrivileged(UserId),
    /// Whether the user is a super admin.
    IsSuperAdmin(UserId),
    /// Gives the admin role; answers whether the user did not have it.
    GiveAdmin(UserId),
    /// Takes the admin role; answers whether the user had it.
    TakeAdmin(UserId),
    /// Adds reputation; answers the new reputation.
    AddReputation(UserId, i64),
    IsBanned(UserId),
    SetBanned(UserId, bool),
}

/// The queries that change the database.
pub open spec fn changes_database(q: AdminQuery) -> bool {
    match q {
        AdminQuery::GiveAdmin(_) | AdminQuery::TakeAdmin(_) | AdminQuery::AddReputation(_, _)
        | AdminQuery::SetBanned(_, _) => true,
        _ => false,
    }
}

/// What an admin command's handler does next.
pub enum AdminStep {
    /// Asks or changes the database and feeds the answer back.
    Query(AdminQuery),
    /// Sends the refusal; the handler fails with a usage error.
    Refuse(Reply),
    /// Sends the reply that points to the help; the handler ends.
    InvalidUsage(Reply),
    /// Sends the reply that nobody was found; the handler fails.
    NotFound(Reply),
    /// Sends the list of the users found; the handler fails.
    Multiple(String),
    /// The handler fails.
    Fail(UtilError),
    /// Sends the answer; the handler ends.
    Answer(String),
}

#[derive(Clone, Copy, PartialEq, Eq, Structural, Debug)]
pub enum AdminStage {
    /// Waits for whether the sender may use the command.
    Check,
    /// Waits for the answer to the command's first query.
    Action,
    /// Waits for the ban state to be written.
    Write,
    Done,
}

/// The sender's check that a command asks for: `/rep` is for admins and super
/// admins, the others are for super admins.
pub open spec fn check_query(command: AdminCommand, sender: UserId) -> AdminQuery {
    if command == AdminCommand::ChangeRep {
        AdminQuery::IsPrivileged(sender)
    } else {
        AdminQuery::IsSuperAdmin(sender)
    }
}

/// The arguments a command takes: a mention, and for `/rep` a number.
pub open spec fn admin_args(command: AdminCommand, args: Seq<char>) -> Option<(MentionView, i64)> {
    if command == AdminCommand::ChangeRep {
        mention_value_spec(args)
    } else {
        match mention_arg_spec(args) {
            Some(m) => Some((m, 0)),
            None => None,
        }
    }
}

/// The first query about the user a command names.
pub open spec fn action_query(command: AdminCommand, target: UserId, value: i64) -> AdminQuery {
    match command {
        AdminCommand::AddAdmin => AdminQuery::GiveAdmin(target),
        AdminCommand::DelAdmin => AdminQuery::TakeAdmin(target),
        AdminCommand::ChangeRep => AdminQuery::AddReputation(target, value),
        _ => AdminQuery::IsBanned(target),
    }
}

pub struct AdminFlowView {
    pub command: AdminCommand,
    pub stage: AdminStage,
    /// Whether the sender passed the check.
    pub granted: bool,
    /// The user the command names, once found.
    pub target: UserId,
    /// The reputation change of `/rep`.
    pub value: i64,
}

/// A command that changes another user: the sender is checked first, then
/// the arguments are read and the user found, and only then is the database
/// changed.
pub struct AdminCommandFlow {
    command: AdminCommand,
    stage: AdminStage,
    granted: bool,
    target: UserId,
    value: i64,
}

impl View for AdminCommandFlow {
    type V = AdminFlowView;

    closed spec fn view(&self) -> AdminFlowView {
        AdminFlowView {
            command: self.command,
            stage: self.stage,
            granted: self.granted,
            target: self.target,
            value: self.value,
        }
    }
}

impl AdminCommandFlow {
    /// A flow past the check has a sender who passed it.
    #[verifier::type_invariant]
    spec fn checked_before_acting(&self) -> bool {
        (self.stage == AdminStage::Action || self.stage == AdminStage::Write) ==> self.granted
    }

    /// The first question: whether the sender may use the command.
    pub fn start(command: AdminCommand, sender: UserId) -> (r: (AdminCommandFlow, AdminStep))
        ensures
            r.0@.command == command,
            r.0@.stage == AdminStage::Check,
            !r.0@.granted,
            r.1 == AdminStep::Query(check_query(command, sender)),
            !changes_database(check_query(command, sender)),
    {
        let q = if command == AdminCommand::ChangeRep {
            AdminQuery::IsPrivileged(sender)
        } else {
            AdminQuery::IsSuperAdmin(sender)
        };
        (AdminCommandFlow { command, stage: AdminStage::Check, granted: false, target: 0, value: 0 }, AdminStep::Query(q))
    }

    pub fn stage(&self) -> (r: AdminStage)
        ensures
            r == self@.stage,
    {
        self.stage
    }

    /// Takes whether the sender passed the check; then reads the arguments and
    /// finds the user they name.
    pub fn on_checked(&mut self, allowed: bool, args: &str, names: &UsersNames) -> (step: AdminStep)
        requires
            old(self)@.stage == AdminStage::Check,
        ensures
            final(self)@.command == old(self)@.command,
            final(self)@.granted == allowed,
            step matches AdminStep::Query(q) && changes_database(q) ==> final(self)@.granted,
            !allowed ==> final(self)@.stage == AdminStage::Done && (step matches AdminStep::Refuse(x)
                && x@ == refusal(NO_RIGHTS_MSG@)),
            allowed ==> match admin_args(old(self)@.command, args@) {
                None => final(self)@.stage == AdminStage::Done && (step matches AdminStep::InvalidUsage(
                    x,
                ) && x@ == invalid_usage_view()),
                Some((m, v)) => match mention_targets(names@, m) {
                    None => final(self)@.stage == AdminStage::Done && step == AdminStep::Fail(
                        UtilError::UsageError,
                    ),
                    Some(ids) => {
                        &&& ids.len() == 1
                        &&& final(self)@.stage == AdminStage::Action
                        &&& final(self)@.target == ids[0]
                        &&& final(self)@.value == v
                        &&& step == AdminStep::Query(action_query(old(self)@.command, ids[0], v))
                    },
                },
            },
    {
        self.granted = allowed;
        if let Some(refused) = check_user_privileges(allowed) {
            self.stage = AdminStage::Done;
            return AdminStep::Refuse(refused);
        }
        let parsed: Option<(Mention, i64)> = if self.command == AdminCommand::ChangeRep {
            parse_mention_and_value(args)
        } else {
            match parse_mention_arg(args) {
                Some(m) => Some((m, 0)),
                None => None,
            }
        };
        let (mention, value) = match parsed {
            Some(p) => p,
            None => {
                self.stage = AdminStage::Done;
                return AdminStep::InvalidUsage(invalid_usage_message());
            },
        };
        let targets = match resolve_mention(names, &mention) {
            Ok(v) => v,
            Err(e) => {
                self.stage = AdminStage::Done;
                return AdminStep::Fail(e);
            },
        };
        match get_exactly_one_user(targets) {
            OneUser::Found(target) => {
                self.target = target;
                self.value = value;
                self.stage = AdminStage::Action;
                let q = match self.command {
                    AdminCommand::AddAdmin => AdminQuery::GiveAdmin(target),
                    AdminCommand::DelAdmin => AdminQuery::TakeAdmin(target),
                    AdminCommand::ChangeRep => AdminQuery::AddReputation(target, value),
                    _ => AdminQuery::IsBanned(target),
                };
                AdminStep::Query(q)
            },
            OneUser::NotFound => {
                self.stage = AdminStage::Done;
                AdminStep::NotFound(user_not_found())
            },
            OneUser::Multiple(users) => {
                self.stage = AdminStage::Done;
                AdminStep::Multiple(multiple_users_found(names, &users))
            },
        }
    }

    /// Takes the answer of `GiveAdmin`, `TakeAdmin` or `IsBanned`.
    pub fn on_flag(&mut self, answer: bool) -> (step: AdminStep)
        requires
            old(self)@.stage == AdminStage::Action,
            old(self)@.command != AdminCommand::ChangeRep,
        ensures
            final(self)@.command == old(self)@.command,
            final(self)@.granted == old(self)@.granted,
            final(self)@.target == old(self)@.target,
            old(self)@.granted,
            step matches AdminStep::Query(q) && changes_database(q) ==> final(self)@.granted,
            ({
                let c = old(self)@.command;
                let banned = c == AdminCommand::Ban;
                if c == AdminCommand::AddAdmin {
                    final(self)@.stage == AdminStage::Done && (step matches AdminStep::Answer(x)
                        && x@ == add_admin_text(answer))
                } else if c == AdminCommand::DelAdmin {
                    final(self)@.stage == AdminStage::Done && (step matches AdminStep::Answer(x)
                        && x@ == del_admin_text(answer))
                } else if answer != banned {
                    final(self)@.stage == AdminStage::Write && step == AdminStep::Query(
                        AdminQuery::SetBanned(old(self)@.target, banned),
                    )
                } else {
                    final(self)@.stage == AdminStage::Done && (step matches AdminStep::Answer(x)
                        && x@ == ban_text(banned, false))
                }
            }),
    {
        proof {
            use_type_invariant(&*self);
        }
        match self.command {
            AdminCommand::AddAdmin => {
                self.stage = AdminStage::Done;
                AdminStep::Answer(on_add_admin_command(answer))
            },
            AdminCommand::DelAdmin => {
                self.stage = AdminStage::Done;
                AdminStep::Answer(on_del_admin(answer))
            },
            _ => {
                let banned = self.command == AdminCommand::Ban;
                let (changed, text) = change_banned_state_command(answer, banned);
                if changed {
                    self.stage = AdminStage::Write;
                    AdminStep::Query(AdminQuery::SetBanned(self.target, banned))
                } else {
                    self.stage = AdminStage::Done;
                    AdminStep::Answer(text)
                }
            },
        }
    }

    /// Takes the new reputation of `/rep`.
    pub fn on_reputation(&mut self, new_rep: i64) -> (step: AdminStep)
        requires
            old(self)@.stage == AdminStage::Action,
            old(self)@.command == AdminCommand::ChangeRep,
        ensures
            final(self)@.command == old(self)@.command,
            final(self)@.granted == old(self)@.granted,
            old(self)@.granted,
            final(self)@.stage == AdminStage::Done,
            step matches AdminStep::Answer(x) && x@ == change_rep_text(new_rep),
            step matches AdminStep::Query(q) && changes_database(q) ==> final(self)@.granted,
    {
        proof {
            use_type_invariant(&*self);
        }
        self.stage = AdminStage::Done;
        AdminStep::Answer(on_change_rep(new_rep))
    }

    /// The ban state is written.
    pub fn on_written(&mut self) -> (step: AdminStep)
        requires
            old(self)@.stage == AdminStage::Write,
        ensures
            final(self)@.command == old(self)@.command,
            final(self)@.granted == old(self)@.granted,
            old(self)@.granted,
            final(self)@.stage == AdminStage::Done,
            step matches AdminStep::Answer(x) && x@ == ban_text(
                old(self)@.command == AdminCommand::Ban,
                true,
            ),
    {
        proof {
            use_type_invariant(&*self);
        }
        self.stage = AdminStage::Done;
        let banned = self.command == AdminCommand::Ban;
        let (_, text) = change_banned_state_command(!banned, banned);
        AdminStep::Answer(text)
    }
}

// ---------------------------------------------------------------------------
// The reputation table
// ---------------------------------------------------------------------------

pub const TOP_PAGE_SIZE: u32 = 20;

/// The number of pages that `users` users fill (`users.div_ceil(TOP_PAGE_SIZE)`).
pub open spec fn pages_count_spec(users: u32) -> int {
    (users + 19) / 20
}

/// The rows to fetch for a page: offset and limit.
pub fn top_query(page: u32) -> (r: (u32, u32))
    requires
        page * 20 <= u32::MAX,
    ensures
        r.0 == page * 20,
        r.1 == TOP_PAGE_SIZE,
{
    (page * TOP_PAGE_SIZE, TOP_PAGE_SIZE)
}

pub fn pages_count(users: u32) -> (r: u32)
    ensures
        r == pages_count_spec(users),
{
    users / TOP_PAGE_SIZE + if users % TOP_PAGE_SIZE != 0 {
        1
    } else {
        0
    }
}

/// The pages hold every user, and no page is empty but when there is no user at all.
pub proof fn lemma_pages_cover_users(users: u32)
    ensures
        pages_count_spec(users) * 20 >= users,
        pages_count_spec(users) * 20 < users + 20,
{
}

/// The table offers a next page only when that page holds users.
pub proof fn lemma_next_page_has_users(page: u32, users: u32)
    requires
        page + 1 < pages_count_spec(users),
    ensures
        (page + 1) * 20 < users,
{
}

pub open spec fn top_header(users: u32, page: u32) -> Seq<char> {
    "<b>Таблица репутации OknoMembers:</b> ("@ + decimal(users as nat) + " пользователей, страница "@
        + decimal((page + 1) as nat) + "/"@ + decimal(pages_count_spec(users) as nat) + ")\n"@
}

/// One row of the table; the first three rows of the first page carry a medal.
pub open spec fn top_line(i: int, page: u32, name: Seq<char>, rep: i64) -> Seq<char> {
    let tail = "</b> - "@ + int_decimal(rep as int) + " rep.\n"@;
    if page == 0 && i == 0 {
        "&gt; <tg-emoji emoji-id=\"5388614717164005740\">🪷</tg-emoji> <b>"@ + name + tail
    } else if page == 0 && i == 1 {
        "&gt; <tg-emoji emoji-id=\"5388967879439852799\">🌸</tg-emoji> <b>"@ + name + tail
    } else if page == 0 && i == 2 {
        "&gt; <tg-emoji emoji-id=\"5388956849963837711\">🌸</tg-emoji> <b>"@ + name + tail
    } else {
        "&gt; <b>"@ + name + tail
    }
}

pub open spec fn top_lines(rows: Seq<(UserId, i64, String)>, page: u32) -> Seq<char>
    decreases rows.len(),
{
    if rows.len() == 0 {
        Seq::empty()
    } else {
        top_lines(rows.drop_last(), page) + top_line(
            rows.len() - 1,
            page,
            rows.last().2@,
            rows.last().1,
        )
    }
}

/// Medals go to the first three places of the whole table, on its first
/// page; every other row, on any page, is plain.
pub proof fn lemma_medals_for_top_three_only(i: int, page: u32, name: Seq<char>, rep: i64)
    ensures
        ({
            let tail = "</b> - "@ + int_decimal(rep as int) + " rep.\n"@;
            &&& (page > 0 || i < 0 || i >= 3) ==> top_line(i, page, name, rep) == "&gt; <b>"@ + name + tail
            &&& (page == 0 && i == 0) ==> top_line(i, page, name, rep)
                == "&gt; <tg-emoji emoji-id=\"5388614717164005740\">🪷</tg-emoji> <b>"@ + name + tail
            &&& (page == 0 && i == 1) ==> top_line(i, page, name, rep)
                == "&gt; <tg-emoji emoji-id=\"5388967879439852799\">🌸</tg-emoji> <b>"@ + name + tail
            &&& (page == 0 && i == 2) ==> top_line(i, page, name, rep)
                == "&gt; <tg-emoji emoji-id=\"5388956849963837711\">🌸</tg-emoji> <b>"@ + name + tail
        }),
{
}

/// The rows of a page are listed in order, each at its own place on the page.
pub proof fn lemma_top_rows_in_order(rows: Seq<(UserId, i64, String)>, row: (UserId, i64, String), page: u32)
    ensures
        top_lines(rows.push(row), page) == top_lines(rows, page) + top_line(
            rows.len() as int,
            page,
            row.2@,
            row.1,
        ),
{
    assert(rows.push(row).drop_last() =~= rows);
}

/// Previous page if there is one, next page if there is one, then the menu.
pub open spec fn top_keyboard(users: u32, page: u32) -> Seq<Seq<ButtonView>> {
    (if page > 0 {
        seq![seq![callback_view("< Предыдущая страница"@, top_data_spec((page - 1) as u32))]]
    } else {
        Seq::empty()
    }) + (if page + 1 < pages_count_spec(users) {
        seq![seq![callback_view("Следующая страница >"@, top_data_spec((page + 1) as u32))]]
    } else {
        Seq::empty()
    }) + seq![seq![menu_button_view()]]
}

/// The table's buttons: the previous page exactly when this is not the first
/// page, the next page exactly when users are left beyond this page, and the
/// menu last.
pub proof fn lemma_top_keyboard_pages(users: u32, page: u32)
    ensures
        ({
            let k = top_keyboard(users, page);
            let has_next = (page + 1) * 20 < users;
            &&& k.len() == 1 + (if page > 0 { 1int } else { 0int }) + (if has_next { 1int } else { 0int })
            &&& k.last() == seq![menu_button_view()]
            &&& page > 0 ==> k[0] == seq![
                callback_view("< Предыдущая страница"@, top_data_spec((page - 1) as u32)),
            ]
            &&& has_next ==> k[k.len() - 2] == seq![
                callback_view("Следующая страница >"@, top_data_spec((page + 1) as u32)),
            ]
        }),
{
    let n: int = page + 1;
    let u: int = users as int;
    assert((n < (u + 19) / 20) == (n * 20 < u)) by (nonlinear_arith)
        requires
            n >= 1,
            u >= 0,
    ;
}

fn top_line_exec(text: &mut String, i: usize, page: u32, name: &str, rep: i64)
    ensures
        final(text)@ == old(text)@ + top_line(i as int, page, name@, rep),
{
    let head = if page == 0 && i == 0 {
        "&gt; <tg-emoji emoji-id=\"5388614717164005740\">🪷</tg-emoji> <b>"
    } else if page == 0 && i == 1 {
        "&gt; <tg-emoji emoji-id=\"5388967879439852799\">🌸</tg-emoji> <b>"
    } else if page == 0 && i == 2 {
        "&gt; <tg-emoji emoji-id=\"5388956849963837711\">🌸</tg-emoji> <b>"
    } else {
        "&gt; <b>"
    };
    text.append(head);
    text.append(name);
    text.append("</b> - ");
    push_i64(text, rep);
    text.append(" rep.\n");
}

/// A page of the reputation table (`top`), from the rows fetched for it and
/// the number of users.
pub fn top(page: u32, users_count: u32, rows: &Vec<(UserId, i64, String)>) -> (r: Reply)
    requires
        page * 20 <= u32::MAX,
    ensures
        r@ == (ReplyView {
            text: top_header(users_count, page) + top_lines(rows@, page),
            html: true,
            photo: Some(Banner::Top),
            keyboard: Some(top_keyboard(users_count, page)),
        }),
{
    let pages = pages_count(users_count);
    let mut text = String::from_str("<b>Таблица репутации OknoMembers:</b> (");
    push_u64(&mut text, users_count as u64);
    text.append(" пользователей, страница ");
    push_u64(&mut text, (page + 1) as u64);
    text.append("/");
    push_u64(&mut text, pages as u64);
    text.append(")\n");
    let ghost header = text@;
    assert(header == top_header(users_count, page));
    let mut i: usize = 0;
    while i < rows.len()
        invariant
            i <= rows@.len(),
            text@ == header + top_lines(rows@.take(i as int), page),
        decreases rows@.len() - i,
    {
        assert(rows@.take(i + 1).drop_last() =~= rows@.take(i as int));
        top_line_exec(&mut text, i, page, rows[i].2.as_str(), rows[i].1);
        i = i + 1;
    }
    assert(rows@.take(i as int) =~= rows@);
    let mut k: Vec<Vec<Button>> = Vec::new();
    if page > 0 {
        k.push(row1(callback_button("< Предыдущая страница", top_data(page - 1))));
    }
    if page + 1 < pages {
        k.push(row1(callback_button("Следующая страница >", top_data(page + 1))));
    }
    k.push(row1(menu_button()));
    assert(k.deep_view() =~= top_keyboard(users_count, page));
    Reply { text, html: true, photo: Some(Banner::Top), keyboard: Some(k) }
}

} // verus!
