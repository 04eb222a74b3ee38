//! The first support dialogue: one request to the admins' chat.
use vstd::prelude::*;
use vstd::string::*;
use crate::bot::markup::{callback_button, callback_view, keyboard_reply, row1, text_reply, Reply, ReplyView};
use crate::bot::scheme::CANCEL_CALLBACK;
use crate::session::SessionState;

verus! {

/// `/support`: in a private chat the bot waits for the request; elsewhere it refuses.
pub fn on_support(is_private: bool) -> (r: (Option<SessionState>, Reply))
    ensures
        is_private ==> r.0 == Some(SessionState::WaitSupportMessage) && r.1@ == (ReplyView {
            text: "Отправьте сообщение для тех. поддержки."@,
            html: false,
            photo: None,
            keyboard: Some(seq![seq![callback_view("Отмена"@, CANCEL_CALLBACK@)]]),
        }),
        !is_private ==> r.0 is None && r.1@ == (ReplyView {
            text: "Команда может быть использована только в личных сообщениях."@,
            html: false,
            photo: None,
            keyboard: None,
        }),
{
    if is_private {
        let mut k = Vec::new();
        k.push(row1(callback_button("Отмена", String::from_str(CANCEL_CALLBACK))));
        assert(k.deep_view() =~= seq![seq![callback_view("Отмена"@, CANCEL_CALLBACK@)]]);
        (
            Some(SessionState::WaitSupportMessage),
            keyboard_reply(String::from_str("Отправьте сообщение для тех. поддержки."), k),
        )
    } else {
        (None, text_reply(String::from_str("Команда может быть использована только в личных сообщениях.")))
    }
}

/// The request was forwarded: the session ends.
pub fn on_support_message() -> (r: (SessionState, Reply))
    ensures
        r.0 == SessionState::Idle,
        r.1@ == (ReplyView { text: "Сообщение отправлено!"@, html: false, photo: None, keyboard: None }),
{
    (SessionState::Idle, text_reply(String::from_str("Сообщение отправлено!")))
}

/// The request was cancelled: the session ends.
pub fn on_support_cancel() -> (r: (SessionState, Reply))
    ensures
        r.0 == SessionState::Idle,
        r.1@ == (ReplyView { text: "Отменено."@, html: false, photo: None, keyboard: None }),
{
    (SessionState::Idle, text_reply(String::from_str("Отменено.")))
}

} // verus!
