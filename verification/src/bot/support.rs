//! Support requests: their categories and the replies of the support dialogue.
use vstd::prelude::*;
use vstd::string::*;
use crate::bot::markup::{callback_button, callback_view, keyboard_reply, row1, row2, Banner, Button, ButtonView, Reply, ReplyView};
use crate::bot::scheme::{profile_data, profile_data_spec, support_selected_data, support_selected_data_spec, CANCEL_CALLBACK};
use crate::bot::session::SessionState;
use crate::bot::utils::{menu_button, menu_button_view};
use crate::oknoid::UserId;

verus! {

#[derive(Clone, Copy, PartialEq, Eq, Structural, Debug)]
pub enum SupportCategory {
    ChangeSubmit,
    SuggestDrop,
    Bugreport,
    Other,
}

/// The number of a category, as its buttons carry it.
pub open spec fn category_index(c: SupportCategory) -> nat {
    match c {
        SupportCategory::ChangeSubmit => 0,
        SupportCategory::SuggestDrop => 1,
        SupportCategory::Bugreport => 2,
        SupportCategory::Other => 3,
    }
}

pub open spec fn category_from_index(n: nat) -> Option<SupportCategory> {
    if n == 0 {
        Some(SupportCategory::ChangeSubmit)
    } else if n == 1 {
        Some(SupportCategory::SuggestDrop)
    } else if n == 2 {
        Some(SupportCategory::Bugreport)
    } else if n == 3 {
        Some(SupportCategory::Other)
    } else {
        None
    }
}

pub open spec fn category_name(c: SupportCategory) -> Seq<char> {
    match c {
        SupportCategory::ChangeSubmit => "Изменение сабмита"@,
        SupportCategory::SuggestDrop => "Предложить дроп"@,
        SupportCategory::Bugreport => "Багрепорт"@,
        SupportCategory::Other => "Другое"@,
    }
}

impl SupportCategory {
    pub fn from_usize(val: usize) -> (r: Option<SupportCategory>)
        ensures
            r == category_from_index(val as nat),
    {
        if val == 0 {
            Some(SupportCategory::ChangeSubmit)
        } else if val == 1 {
            Some(SupportCategory::SuggestDrop)
        } else if val == 2 {
            Some(SupportCategory::Bugreport)
        } else if val == 3 {
            Some(SupportCategory::Other)
        } else {
            None
        }
    }

    /// The category's number (`category as usize`).
    pub fn to_usize(self) -> (r: usize)
        ensures
            r == category_index(self),
    {
        match self {
            SupportCategory::ChangeSubmit => 0,
            SupportCategory::SuggestDrop => 1,
            SupportCategory::Bugreport => 2,
            SupportCategory::Other => 3,
        }
    }

    pub fn as_str(self) -> (r: &'static str)
        ensures
            r@ == category_name(self),
    {
        match self {
            SupportCategory::ChangeSubmit => "Изменение сабмита",
            SupportCategory::SuggestDrop => "Предложить дроп",
            SupportCategory::Bugreport => "Багрепорт",
            SupportCategory::Other => "Другое",
        }
    }
}

/// A category's number gives the category back.
pub proof fn lemma_category_index_roundtrip(c: SupportCategory)
    ensures
        category_from_index(category_index(c)) == Some(c),
{
}

pub open spec fn choice_button_view(c: SupportCategory) -> ButtonView {
    callback_view(category_name(c), support_selected_data_spec(c))
}

/// The button that picks a support category.
pub fn choice_button(category: SupportCategory) -> (b: Button)
    ensures
        b@ == choice_button_view(category),
{
    callback_button(category.as_str(), support_selected_data(category))
}

pub const SUPPORT_TEXT: &'static str = "\
        Здесь вы можете обратится напрямую к <b>администрации</b> бота и oknoweb.ru. <b>ВСЕ</b> обращения будут рассмотрены.\n\
        \n\
        <i>На какую тему ваше обращение?</i>";

pub open spec fn support_keyboard() -> Seq<Seq<ButtonView>> {
    seq![
        seq![choice_button_view(SupportCategory::ChangeSubmit)],
        seq![choice_button_view(SupportCategory::Bugreport), choice_button_view(SupportCategory::Other)],
        seq![menu_button_view()],
    ]
}

/// The support screen (`support`): the categories to pick from.
pub fn support() -> (r: Reply)
    ensures
        r@ == (ReplyView {
            text: SUPPORT_TEXT@,
            html: true,
            photo: Some(Banner::Support),
            keyboard: Some(support_keyboard()),
        }),
{
    let mut k: Vec<Vec<Button>> = Vec::new();
    k.push(row1(choice_button(SupportCategory::ChangeSubmit)));
    k.push(row2(choice_button(SupportCategory::Bugreport), choice_button(SupportCategory::Other)));
    k.push(row1(menu_button()));
    assert(k.deep_view() =~= support_keyboard());
    Reply { text: String::from_str(SUPPORT_TEXT), html: true, photo: Some(Banner::Support), keyboard: Some(k) }
}

/// A category was picked: the bot waits for the request.
pub fn on_support_selected_callback(category: SupportCategory) -> (r: (SessionState, Reply))
    ensures
        r.0 == (SessionState::WaitSupportMessage { category }),
        r.1@ == (ReplyView {
            text: "Отправьте сообщение для тех. поддержки."@,
            html: false,
            photo: None,
            keyboard: Some(seq![seq![callback_view("Отмена"@, CANCEL_CALLBACK@)]]),
        }),
{
    let mut k = Vec::new();
    k.push(row1(callback_button("Отмена", String::from_str(CANCEL_CALLBACK))));
    assert(k.deep_view() =~= seq![seq![callback_view("Отмена"@, CANCEL_CALLBACK@)]]);
    (
        SessionState::WaitSupportMessage { category },
        keyboard_reply(String::from_str("Отправьте сообщение для тех. поддержки."), k),
    )
}

/// A support request was forwarded: the note to the support chat, with the
/// sender's profile button, and the answer to the sender.
pub fn on_support_message(category: SupportCategory, user_id: UserId) -> (r: (Reply, Reply))
    ensures
        r.0@ == (ReplyView {
            text: "Категория: "@ + category_name(category),
            html: false,
            photo: None,
            keyboard: Some(seq![seq![callback_view("Описание профиля"@, profile_data_spec(user_id))]]),
        }),
        r.1@ == (ReplyView {
            text: "Сообщение отправлено!"@,
            html: false,
            photo: None,
            keyboard: Some(seq![seq![menu_button_view()]]),
        }),
{
    let mut note = String::from_str("Категория: ");
    note.append(category.as_str());
    let mut k1 = Vec::new();
    k1.push(row1(callback_button("Описание профиля", profile_data(user_id))));
    assert(k1.deep_view() =~= seq![seq![callback_view("Описание профиля"@, profile_data_spec(user_id))]]);
    let mut k2 = Vec::new();
    k2.push(row1(menu_button()));
    assert(k2.deep_view() =~= seq![seq![menu_button_view()]]);
    (keyboard_reply(note, k1), keyboard_reply(String::from_str("Сообщение отправлено!"), k2))
}

} // verus!
