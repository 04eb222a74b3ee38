//! The messages that handlers send: text, an optional banner photo, and an
//! optional inline keyboard of buttons.
use vstd::prelude::*;
use vstd::string::*;

verus! {

pub enum ButtonAction {
    /// Sends the callback data back to the bot.
    Callback(String),
    /// Opens a link.
    Url(String),
}

pub struct Button {
    pub text: String,
    pub action: ButtonAction,
}

pub enum ActionView {
    Callback(Seq<char>),
    Url(Seq<char>),
}

pub struct ButtonView {
    pub text: Seq<char>,
    pub action: ActionView,
}

impl View for Button {
    type V = ButtonView;

    open spec fn view(&self) -> ButtonView {
        ButtonView {
            text: self.text@,
            action: match &self.action {
                ButtonAction::Callback(d) => ActionView::Callback(d@),
                ButtonAction::Url(u) => ActionView::Url(u@),
            },
        }
    }
}

impl DeepView for Button {
    type V = ButtonView;

    open spec fn deep_view(&self) -> ButtonView {
        self@
    }
}

/// The banner pictures of the bot's screens.
#[derive(Clone, Copy, PartialEq, Eq, Structural, Debug)]
pub enum Banner {
    Main,
    Top,
    Unit,
    Support,
}

pub struct Reply {
    pub text: String,
    /// The text is HTML.
    pub html: bool,
    /// Sent as the caption of this banner.
    pub photo: Option<Banner>,
    pub keyboard: Option<Vec<Vec<Button>>>,
}

pub struct ReplyView {
    pub text: Seq<char>,
    pub html: bool,
    pub photo: Option<Banner>,
    pub keyboard: Option<Seq<Seq<ButtonView>>>,
}

impl View for Reply {
    type V = ReplyView;

    open spec fn view(&self) -> ReplyView {
        ReplyView {
            text: self.text@,
            html: self.html,
            photo: self.photo,
            keyboard: match &self.keyboard {
                Some(k) => Some(k.deep_view()),
                None => None,
            },
        }
    }
}

pub open spec fn callback_view(text: Seq<char>, data: Seq<char>) -> ButtonView {
    ButtonView { text, action: ActionView::Callback(data) }
}

pub fn callback_button(text: &str, data: String) -> (b: Button)
    ensures
        b@ == callback_view(text@, data@),
{
    Button { text: String::from_str(text), action: ButtonAction::Callback(data) }
}

pub fn url_button(text: &str, url: &str) -> (b: Button)
    ensures
        b@ == (ButtonView { text: text@, action: ActionView::Url(url@) }),
{
    Button { text: String::from_str(text), action: ButtonAction::Url(String::from_str(url)) }
}

pub fn row1(a: Button) -> (r: Vec<Button>)
    ensures
        r.deep_view() == seq![a@],
{
    let mut r = Vec::new();
    r.push(a);
    assert(r.deep_view() =~= seq![a@]);
    r
}

pub fn row2(a: Button, b: Button) -> (r: Vec<Button>)
    ensures
        r.deep_view() == seq![a@, b@],
{
    let mut r = Vec::new();
    r.push(a);
    r.push(b);
    assert(r.deep_view() =~= seq![a@, b@]);
    r
}

/// A plain text message without keyboard.
pub fn text_reply(text: String) -> (r: Reply)
    ensures
        r@ == (ReplyView { text: text@, html: false, photo: None, keyboard: None }),
{
    Reply { text, html: false, photo: None, keyboard: None }
}

/// A plain text message with a keyboard.
pub fn keyboard_reply(text: String, keyboard: Vec<Vec<Button>>) -> (r: Reply)
    ensures
        r@ == (ReplyView {
            text: text@,
            html: false,
            photo: None,
            keyboard: Some(keyboard.deep_view()),
        }),
{
    Reply { text, html: false, photo: None, keyboard: Some(keyboard) }
}

} // verus!
