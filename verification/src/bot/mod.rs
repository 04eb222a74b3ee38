//! The bot: its commands, arguments, session states, callback data and the
//! replies of its handlers.
use vstd::prelude::*;
use vstd::string::*;
use crate::bot::markup::{
    callback_button, callback_view, keyboard_reply, row1, row2, url_button, ActionView, Banner,
    ButtonView, Reply, ReplyView,
};
use crate::bot::scheme::{
    HELP_CALLBACK, ME_CALLBACK, SUPPORT_CALLBACK, TOP_CALLBACK, UNIT_INFO_CALLBACK,
};
use crate::bot::session::SessionState;
use crate::bot::utils::{check_private, menu_button, menu_button_view, refusal, PRIVATE_ONLY_MSG};

pub mod args;
pub mod command;
pub mod markup;
pub mod oknounit;
pub mod profile;
pub mod scheme;
pub mod session;
pub mod support;
pub mod utils;

verus! {

pub const HELP_TEXT: &'static str = "\
        <b>Общая информация:</b>\n\
        Для регистрации нужно прописать /start в личных сообщениях.\n\
        Пользователь указывается как @username или id пользователя.\n\
        \n\
        <b>Команды:</b>\n\
        /help - эта справка.\n\
        /main_menu - главное меню.\n\
        /support - отправть сообщение в тех. поддержку, работает только в ЛС.\n\
        /me - показать свой профиль.\n\
        /info <code>&lt;пользователь&gt;</code> - запросить профиль пользователя.\n\
        /bio - установить описание профиля.\n\
        /top - топ пользователей по репутации.\n\
        /unit - информация о OKNO Unit.\n\
        /feedback <code>&lt;drop id&gt;</code> - оставить фидбек по id дропа.\n\
    ";

pub const HELP_ADMIN_TEXT: &'static str = "\n\
            <b>Команды админов:</b>\n\
            /rep <code>&lt;пользователь&gt;</code> <code>&lt;значение&gt;</code> - изменить репутацию пользователя на указанное значение.\n\
        ";

pub const HELP_SUPER_ADMIN_TEXT: &'static str = "\n\
            <b>Команды СУПЕРадминов:</b>\n\
            /admin_add <code>&lt;пользователь&gt;</code> - добавить админа.\n\
            /admin_del <code>&lt;пользователь&gt;</code> - убрать админа.\n\
            /drop <code>&lt;ссылка&gt;</code> - создать новый дроп.\n\
        ";

pub const MAIN_MENU_TEXT: &'static str = "\
        <b>OknoServant</b> - это ваш <b>помощник</b> в нашем <b>комьюнити</b>. Система <b>репутации</b>, <b>OknoUnit</b> и <b>тех.поддержка</b> - все в одном месте.\n\
        \n\
        <i>С чем я могу вам помочь?</i>";

pub const INVALID_USAGE_MSG: &'static str = "Неправильное использование команды. Ознакомьтесь со справкой.";

/// The reply to a command used the wrong way: it points to the help.
pub open spec fn invalid_usage_view() -> ReplyView {
    ReplyView {
        text: INVALID_USAGE_MSG@,
        html: false,
        photo: None,
        keyboard: Some(seq![seq![callback_view("Справка"@, HELP_CALLBACK@)]]),
    }
}

pub fn invalid_usage_message() -> (r: Reply)
    ensures
        r@ == invalid_usage_view(),
{
    let mut k = Vec::new();
    k.push(row1(callback_button("Справка", String::from_str(HELP_CALLBACK))));
    assert(k.deep_view() =~= seq![seq![callback_view("Справка"@, HELP_CALLBACK@)]]);
    keyboard_reply(String::from_str(INVALID_USAGE_MSG), k)
}

/// Cancelling a dialogue: the session ends.
pub fn on_cancel_callback() -> (r: (SessionState, Reply))
    ensures
        r.0 == SessionState::Idle,
        r.1@ == (ReplyView {
            text: "Отменено."@,
            html: false,
            photo: None,
            keyboard: Some(seq![seq![menu_button_view()]]),
        }),
{
    let mut k = Vec::new();
    k.push(row1(menu_button()));
    assert(k.deep_view() =~= seq![seq![menu_button_view()]]);
    (SessionState::Idle, keyboard_reply(String::from_str("Отменено."), k))
}

/// The help: everyone's commands, then the admins' for admins, then the
/// super admins' for super admins.
pub open spec fn help_text_spec(is_admin: bool, is_super_admin: bool) -> Seq<char> {
    HELP_TEXT@ + (if is_admin {
        HELP_ADMIN_TEXT@
    } else {
        ""@
    }) + (if is_super_admin {
        HELP_SUPER_ADMIN_TEXT@
    } else {
        ""@
    })
}

/// The help message (`send_help_message`); it is sent as HTML.
pub fn send_help_message(is_admin: bool, is_super_admin: bool) -> (r: String)
    ensures
        r@ == help_text_spec(is_admin, is_super_admin),
{
    let mut text = String::from_str(HELP_TEXT);
    text.append(if is_admin { HELP_ADMIN_TEXT } else { "" });
    text.append(if is_super_admin { HELP_SUPER_ADMIN_TEXT } else { "" });
    text
}

/// The commands that the bot lists in Telegram's menu: name and description.
pub fn set_commands() -> (r: Vec<(&'static str, &'static str)>)
    ensures
        r@.len() == 7,
        r@[0].0@ == "menu"@ && r@[0].1@ == "главное меню"@,
        r@[1].0@ == "help"@ && r@[1].1@ == "полная справка"@,
        r@[2].0@ == "support"@ && r@[2].1@ == "отправить сообщение в тех поддержку"@,
        r@[3].0@ == "me"@ && r@[3].1@ == "показать свой профиль"@,
        r@[4].0@ == "bio"@ && r@[4].1@ == "установить описание профиля"@,
        r@[5].0@ == "top"@ && r@[5].1@ == "топ пользователей по репутации"@,
        r@[6].0@ == "unit"@ && r@[6].1@ == "информация о OknoUnit"@,
{
    let mut v = Vec::new();
    v.push(("menu", "главное меню"));
    v.push(("help", "полная справка"));
    v.push(("support", "отправить сообщение в тех поддержку"));
    v.push(("me", "показать свой профиль"));
    v.push(("bio", "установить описание профиля"));
    v.push(("top", "топ пользователей по репутации"));
    v.push(("unit", "информация о OknoUnit"));
    v
}

pub open spec fn main_menu_keyboard() -> Seq<Seq<ButtonView>> {
    seq![
        seq![callback_view("Топ OknoMembers"@, TOP_CALLBACK@)],
        seq![
            callback_view("OknoUnit"@, UNIT_INFO_CALLBACK@),
            callback_view("Тех. поддержка"@, SUPPORT_CALLBACK@),
        ],
        seq![
            ButtonView { text: "t.me/oknogmdv"@, action: ActionView::Url("https://t.me/oknogmdv"@) },
            ButtonView { text: "oknoweb.ru"@, action: ActionView::Url("https://oknoweb.ru"@) },
        ],
        seq![callback_view("Мой профиль"@, ME_CALLBACK@)],
    ]
}

/// The main menu, for private chats only.
pub fn main_menu(is_private: bool) -> (r: Result<Reply, Reply>)
    ensures
        !is_private ==> (r matches Err(x) && x@ == refusal(PRIVATE_ONLY_MSG@)),
        is_private ==> (r matches Ok(x) && x@ == (ReplyView {
            text: MAIN_MENU_TEXT@,
            html: true,
            photo: Some(Banner::Main),
            keyboard: Some(main_menu_keyboard()),
        })),
{
    if let Some(refused) = check_private(is_private) {
        return Err(refused);
    }
    let mut k = Vec::new();
    k.push(row1(callback_button("Топ OknoMembers", String::from_str(TOP_CALLBACK))));
    k.push(row2(
        callback_button("OknoUnit", String::from_str(UNIT_INFO_CALLBACK)),
        callback_button("Тех. поддержка", String::from_str(SUPPORT_CALLBACK)),
    ));
    k.push(row2(
        url_button("t.me/oknogmdv", "https://t.me/oknogmdv"),
        url_button("oknoweb.ru", "https://oknoweb.ru"),
    ));
    k.push(row1(callback_button("Мой профиль", String::from_str(ME_CALLBACK))));
    assert(k.deep_view() =~= main_menu_keyboard());
    Ok(Reply { text: String::from_str(MAIN_MENU_TEXT), html: true, photo: Some(Banner::Main), keyboard: Some(k) })
}

} // verus!
