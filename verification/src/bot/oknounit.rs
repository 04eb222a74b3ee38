//! OknoUnit: drops (community content) that units leave feedback on, the
//! reports of that feedback, and their acceptance by admins.
use vstd::prelude::*;
use vstd::string::*;
use crate::bot::markup::{
    callback_button, callback_view, keyboard_reply, row1, row2, Banner, Button, ButtonView, Reply,
    ReplyView,
};
use crate::bot::scheme::{
    profile_data, profile_data_spec, unit_accept_data, unit_accept_data_spec, unit_feedback_data,
    unit_feedback_data_spec, CANCEL_CALLBACK, DROPS_HISTORY_CALLBACK, MENU_CALLBACK,
    UNIT_INFO_CALLBACK, UNIT_JOIN_CALLBACK,
};
use crate::bot::session::SessionState;
use crate::bot::{invalid_usage_message, invalid_usage_view};
use crate::bot::support::{choice_button, choice_button_view, SupportCategory};
use crate::bot::utils::{
    check_banned, check_user_privileges, check_user_super_admin, menu_button, menu_button_view,
    refusal, NO_RIGHTS_MSG,
    USER_BANNED,
};
use crate::bot::scheme::{parse_unit_accept_data, unit_accept_fields, DataError, UNIT_ACCEPT_FEEDBACK_CALLBACK_PREFIX};
use crate::oknoid::{UsersNames};
use crate::text::starts_with;
use crate::oknoid::{DropId, DropInfo, UserId};
use crate::text::{char_from, decimal, find_char, int_decimal, lemma_char_from_bounds, push_i64, push_u64};

verus! {

pub const UNIT_ABOUT: &'static str = "\
                <b>OknoUnit</b> - Это статус <b>боевой единицы</b> нашего сообщества. Задача каждого OknoUnit`а - <b>проявлять активность на дропах.</b>\n\
                \n\
                > <b>Дроп</b> - это любое <b>видео</b>, <b>игра</b> или другая единица <b>контента</b> от нашего сообщества.\n\
                \n\
                > За <b>каждый комментарий/отзыв</b> ваша <b>репутация повышается</b>. <b>OknoUnit</b> - один из самых <b>эффективных способов</b> нафармить <b>репутацию.</b>\n\
                \n\
                > Каждый <b>OknoUnit</b> получает <b>уведомления о новых дропах</b> сообщества.\n\
                \n\
                <b>Cоветы:</b> \n\
                > <b>Не пропускайте дропы.</b> Каждый дроп - возможность получить до 3 очков репутации\n\
                \n\
                > <b>Пишите развернутые фидбеки.</b> Мы поощеряем длинный и развернутый фидбек, который вписывается в контекст дропа. Комментарии по типу \"аоаоа прикольно!\" мы не учитываем вовсе.\n\
                \n\
                > <b>Предлагайте свои дропы.</b> Делайте игры, ролики и скидываете их нам в бота. За ролик про джем или OknoSubmit мы щедро отсыпаем 5 и больше баллов\n\
                ";

// ---------------------------------------------------------------------------
// The unit screen
// ---------------------------------------------------------------------------

/// A drop's line in the unit screen: its number, link, whether the unit
/// completed it, and its description if any.
pub open spec fn unit_drop_text(i: int, d: DropInfo, done: bool) -> Seq<char> {
    decimal((i + 1) as nat) + ". "@ + d.link@ + (if done {
        " (выполнен)"@
    } else {
        ""@
    }) + "\n"@ + match d.description {
        Some(x) => "> "@ + x@ + "\n"@,
        None => Seq::empty(),
    }
}

pub open spec fn unit_drops_text(drops: Seq<DropInfo>, done: Seq<bool>) -> Seq<char>
    decreases drops.len(),
{
    if drops.len() == 0 {
        Seq::empty()
    } else {
        unit_drops_text(drops.drop_last(), done) + unit_drop_text(
            drops.len() - 1,
            drops.last(),
            done[drops.len() - 1],
        )
    }
}

/// A report button for each drop that the unit has not completed.
pub open spec fn feedback_rows(drops: Seq<DropInfo>, done: Seq<bool>) -> Seq<Seq<ButtonView>>
    decreases drops.len(),
{
    if drops.len() == 0 {
        Seq::empty()
    } else {
        let i = drops.len() - 1;
        feedback_rows(drops.drop_last(), done) + if !done[i] {
            seq![
                seq![
                    callback_view(
                        "Я оставил фидбек для "@ + decimal((i + 1) as nat),
                        unit_feedback_data_spec(drops.last().id),
                    ),
                ],
            ]
        } else {
            Seq::empty()
        }
    }
}

pub open spec fn unit_info_view(
    is_unit: bool,
    drops: Seq<DropInfo>,
    done: Seq<bool>,
    from_menu: bool,
) -> ReplyView {
    if is_unit {
        ReplyView {
            text: unit_drops_text(drops, done),
            html: false,
            photo: Some(Banner::Unit),
            keyboard: Some(
                feedback_rows(drops, done) + seq![
                    seq![choice_button_view(SupportCategory::SuggestDrop)],
                    seq![callback_view("История дропов"@, DROPS_HISTORY_CALLBACK@)],
                    seq![menu_button_view()],
                ],
            ),
        }
    } else {
        ReplyView {
            text: UNIT_ABOUT@,
            html: true,
            photo: Some(Banner::Unit),
            keyboard: Some(
                seq![seq![callback_view("Стать OknoUnit"@, UNIT_JOIN_CALLBACK@)]] + if from_menu {
                    seq![seq![menu_button_view()]]
                } else {
                    Seq::empty()
                },
            ),
        }
    }
}

/// A drop's line on the unit screen: its place, its link, the mark exactly
/// when it is completed, then its description.
pub proof fn lemma_unit_drop_line(i: int, d: DropInfo)
    ensures
        ({
            let desc = match d.description {
                Some(x) => "> "@ + x@ + "\n"@,
                None => Seq::<char>::empty(),
            };
            &&& unit_drop_text(i, d, false) == decimal((i + 1) as nat) + ". "@ + d.link@ + "\n"@ + desc
            &&& unit_drop_text(i, d, true) == decimal((i + 1) as nat) + ". "@ + d.link@ + " (выполнен)"@
                + "\n"@ + desc
        }),
{
    reveal_strlit("");
    let desc = match d.description {
        Some(x) => "> "@ + x@ + "\n"@,
        None => Seq::<char>::empty(),
    };
    assert(decimal((i + 1) as nat) + ". "@ + d.link@ + ""@ =~= decimal((i + 1) as nat) + ". "@ + d.link@);
}

/// The drops on the unit screen come in order, each with its own completion
/// flag: a drop added at the end adds its line, and a report button for it
/// exactly when it is not completed.
pub proof fn lemma_unit_drops_in_order(drops: Seq<DropInfo>, d: DropInfo, done: Seq<bool>)
    requires
        drops.len() < done.len(),
    ensures
        unit_drops_text(drops.push(d), done) == unit_drops_text(drops, done) + unit_drop_text(
            drops.len() as int,
            d,
            done[drops.len() as int],
        ),
        feedback_rows(drops.push(d), done) == feedback_rows(drops, done) + if done[drops.len() as int] {
            Seq::<Seq<ButtonView>>::empty()
        } else {
            seq![
                seq![
                    callback_view(
                        "Я оставил фидбек для "@ + decimal((drops.len() + 1) as nat),
                        unit_feedback_data_spec(d.id),
                    ),
                ],
            ]
        },
{
    assert(drops.push(d).drop_last() =~= drops);
}

/// Someone who is not a unit is told what units are, and can always join;
/// the menu button follows only when the screen was opened from the menu.
pub proof fn lemma_non_unit_can_join(drops: Seq<DropInfo>, done: Seq<bool>, from_menu: bool)
    ensures
        unit_info_view(false, drops, done, from_menu).text == UNIT_ABOUT@,
        unit_info_view(false, drops, done, from_menu).keyboard matches Some(k) && k.len() == (if from_menu {
            2int
        } else {
            1int
        }) && k[0] == seq![callback_view("Стать OknoUnit"@, UNIT_JOIN_CALLBACK@)] && (from_menu
            ==> k[1] == seq![menu_button_view()]),
{
}

fn unit_drop_exec(text: &mut String, i: usize, d: &DropInfo, done: bool)
    requires
        i < usize::MAX,
    ensures
        final(text)@ == old(text)@ + unit_drop_text(i as int, *d, done),
{
    proof {
        reveal_strlit("");
    }
    let ghost start = old(text)@;
    push_u64(text, (i + 1) as u64);
    text.append(". ");
    text.append(d.link.as_str());
    text.append(if done { " (выполнен)" } else { "" });
    text.append("\n");
    match &d.description {
        Some(x) => {
            text.append("> ");
            text.append(x.as_str());
            text.append("\n");
        },
        None => {
            assert(text@ =~= text@ + Seq::<char>::empty());
        },
    }
    assert(text@ =~= start + unit_drop_text(i as int, *d, done));
}

/// The unit screen (`unit_info`): a unit sees the latest drops, with a report
/// button for each drop not completed yet; anyone else sees what units are.
pub fn unit_info(is_unit: bool, drops: &Vec<DropInfo>, completed: &Vec<bool>, from_menu: bool) -> (r: Reply)
    requires
        is_unit ==> completed@.len() == drops@.len(),
    ensures
        r@ == unit_info_view(is_unit, drops@, completed@, from_menu),
{
    if is_unit {
        let mut text = String::new();
        let mut rows: Vec<Vec<Button>> = Vec::new();
        let mut i: usize = 0;
        while i < drops.len()
            invariant
                i <= drops@.len(),
                completed@.len() == drops@.len(),
                text@ == unit_drops_text(drops@.take(i as int), completed@),
                rows.deep_view() == feedback_rows(drops@.take(i as int), completed@),
            decreases drops@.len() - i,
        {
            assert(drops@.take(i + 1).drop_last() =~= drops@.take(i as int));
            unit_drop_exec(&mut text, i, &drops[i], completed[i]);
            let ghost before = rows.deep_view();
            if !completed[i] {
                let mut label = String::from_str("Я оставил фидбек для ");
                push_u64(&mut label, (i + 1) as u64);
                rows.push(row1(callback_button(label.as_str(), unit_feedback_data(drops[i].id))));
                assert(rows.deep_view() =~= before + seq![
                    seq![
                        callback_view(
                            "Я оставил фидбек для "@ + decimal((i + 1) as nat),
                            unit_feedback_data_spec(drops@[i as int].id),
                        ),
                    ],
                ]);
            } else {
                assert(rows.deep_view() =~= before + Seq::<Seq<ButtonView>>::empty());
            }
            i = i + 1;
        }
        assert(drops@.take(i as int) =~= drops@);
        let ghost fb = rows.deep_view();
        rows.push(row1(choice_button(SupportCategory::SuggestDrop)));
        rows.push(row1(callback_button("История дропов", String::from_str(DROPS_HISTORY_CALLBACK))));
        rows.push(row1(menu_button()));
        assert(rows.deep_view() =~= fb + seq![
            seq![choice_button_view(SupportCategory::SuggestDrop)],
            seq![callback_view("История дропов"@, DROPS_HISTORY_CALLBACK@)],
            seq![menu_button_view()],
        ]);
        Reply { text, html: false, photo: Some(Banner::Unit), keyboard: Some(rows) }
    } else {
        let mut rows: Vec<Vec<Button>> = Vec::new();
        rows.push(row1(callback_button("Стать OknoUnit", String::from_str(UNIT_JOIN_CALLBACK))));
        if from_menu {
            rows.push(row1(menu_button()));
        }
        assert(rows.deep_view() =~= seq![seq![callback_view("Стать OknoUnit"@, UNIT_JOIN_CALLBACK@)]] + if from_menu {
            seq![seq![menu_button_view()]]
        } else {
            Seq::empty()
        });
        Reply { text: String::from_str(UNIT_ABOUT), html: true, photo: Some(Banner::Unit), keyboard: Some(rows) }
    }
}

/// The answer to joining the units: only for a user who was not one yet.
pub fn on_unit_join_callback(newly: bool) -> (r: Option<Reply>)
    ensures
        !newly ==> r is None,
        newly ==> (r matches Some(x) && x@ == (ReplyView {
            text: "Вы стали OknoUnit!"@,
            html: false,
            photo: None,
            keyboard: Some(seq![seq![callback_view("В меню"@, MENU_CALLBACK@)]]),
        })),
{
    if newly {
        let mut k = Vec::new();
        k.push(row1(callback_button("В меню", String::from_str(MENU_CALLBACK))));
        assert(k.deep_view() =~= seq![seq![callback_view("В меню"@, MENU_CALLBACK@)]]);
        Some(keyboard_reply(String::from_str("Вы стали OknoUnit!"), k))
    } else {
        None
    }
}

// ---------------------------------------------------------------------------
// Reports
// ---------------------------------------------------------------------------

/// A drop's link and, on the next line, its description.
pub open spec fn drop_summary(link: Seq<char>, description: Option<Seq<char>>) -> Seq<char> {
    link + match description {
        Some(d) => "\n> "@ + d,
        None => ""@,
    }
}

fn push_drop_summary(text: &mut String, link: &str, description: Option<&str>)
    ensures
        final(text)@ == old(text)@ + drop_summary(
            link@,
            match description {
                Some(d) => Some(d@),
                None => None,
            },
        ),
{
    proof {
        reveal_strlit("");
    }
    text.append(link);
    match description {
        Some(d) => {
            text.append("\n> ");
            text.append(d);
        },
        None => {
            text.append("");
        },
    }
}

pub open spec fn opt_view(o: Option<String>) -> Option<Seq<char>> {
    match o {
        Some(s) => Some(s@),
        None => None,
    }
}

/// The report sent to the support chat beside the unit's screenshot: the
/// drop, a profile button, and buttons that accept it for 1, 2 or 3 points.
fn report_for_support(drop: &DropInfo, drop_id: DropId, user_id: UserId) -> (r: Reply)
    ensures
        r@ == (ReplyView {
            text: "Дроп: "@ + drop_summary(drop.link@, opt_view(drop.description)),
            html: false,
            photo: None,
            keyboard: Some(
                seq![
                    seq![callback_view("Описание профиля"@, profile_data_spec(user_id))],
                    seq![callback_view("Подтвердить +1"@, unit_accept_data_spec(user_id, drop_id, 1))],
                    seq![callback_view("Подтвердить +2"@, unit_accept_data_spec(user_id, drop_id, 2))],
                    seq![callback_view("Подтвердить +3"@, unit_accept_data_spec(user_id, drop_id, 3))],
                ],
            ),
        }),
{
    let mut text = String::from_str("Дроп: ");
    let desc: Option<&str> = match &drop.description {
        Some(d) => Some(d.as_str()),
        None => None,
    };
    push_drop_summary(&mut text, drop.link.as_str(), desc);
    let mut k: Vec<Vec<Button>> = Vec::new();
    k.push(row1(callback_button("Описание профиля", profile_data(user_id))));
    k.push(row1(callback_button("Подтвердить +1", unit_accept_data(user_id, drop_id, 1))));
    k.push(row1(callback_button("Подтвердить +2", unit_accept_data(user_id, drop_id, 2))));
    k.push(row1(callback_button("Подтвердить +3", unit_accept_data(user_id, drop_id, 3))));
    assert(k.deep_view() =~= seq![
        seq![callback_view("Описание профиля"@, profile_data_spec(user_id))],
        seq![callback_view("Подтвердить +1"@, unit_accept_data_spec(user_id, drop_id, 1))],
        seq![callback_view("Подтвердить +2"@, unit_accept_data_spec(user_id, drop_id, 2))],
        seq![callback_view("Подтвердить +3"@, unit_accept_data_spec(user_id, drop_id, 3))],
    ]);
    keyboard_reply(text, k)
}

/// The answer to the unit once the report went to the support chat.
fn report_sent_reply() -> (r: Reply)
    ensures
        r@ == (ReplyView {
            text: "Заявка отправлена! Админы проверят вашу заявку и начислят вам репутацию"@,
            html: false,
            photo: None,
            keyboard: Some(seq![seq![menu_button_view()]]),
        }),
{
    let mut k = Vec::new();
    k.push(row1(menu_button()));
    assert(k.deep_view() =~= seq![seq![menu_button_view()]]);
    keyboard_reply(String::from_str("Заявка отправлена! Админы проверят вашу заявку и начислят вам репутацию"), k)
}

/// A unit's report (`on_unit_report_message`): the note to the support chat
/// beside the forwarded screenshot, and the answer to the unit.
pub fn on_unit_report_message(drop: &DropInfo, drop_id: DropId, user_id: UserId) -> (r: (Reply, Reply))
    ensures
        r.0@ == (ReplyView {
            text: "Дроп: "@ + drop_summary(drop.link@, opt_view(drop.description)),
            html: false,
            photo: None,
            keyboard: Some(
                seq![
                    seq![callback_view("Описание профиля"@, profile_data_spec(user_id))],
                    seq![callback_view("Подтвердить +1"@, unit_accept_data_spec(user_id, drop_id, 1))],
                    seq![callback_view("Подтвердить +2"@, unit_accept_data_spec(user_id, drop_id, 2))],
                    seq![callback_view("Подтвердить +3"@, unit_accept_data_spec(user_id, drop_id, 3))],
                ],
            ),
        }),
        r.1@ == (ReplyView {
            text: "Заявка отправлена! Админы проверят вашу заявку и начислят вам репутацию"@,
            html: false,
            photo: None,
            keyboard: Some(seq![seq![menu_button_view()]]),
        }),
{
    (report_for_support(drop, drop_id, user_id), report_sent_reply())
}

/// The report must name a drop that exists.
pub fn drop_exists_check(exists: bool) -> (r: Option<String>)
    ensures
        exists ==> r is None,
        !exists ==> (r matches Some(t) && t@ == "Дропа с таким id не существует!"@),
{
    if exists {
        None
    } else {
        Some(String::from_str("Дропа с таким id не существует!"))
    }
}

/// A drop that the unit completed is not reported again; otherwise the bot
/// waits for the screenshot of the feedback.
pub fn report_start(completed: bool, drop_id: DropId) -> (r: Result<(SessionState, Reply), String>)
    ensures
        completed ==> (r matches Err(t) && t@ == "Вы уже выполнили этот дроп."@),
        !completed ==> (r matches Ok(x) && x.0 == (SessionState::WaitUnitReport { drop_id })
            && x.1@ == (ReplyView {
            text: "киньте скрин вашего комментария/отзыва"@,
            html: false,
            photo: None,
            keyboard: Some(seq![seq![callback_view("Отмена"@, CANCEL_CALLBACK@)]]),
        })),
{
    if completed {
        return Err(String::from_str("Вы уже выполнили этот дроп."));
    }
    let mut k = Vec::new();
    k.push(row1(callback_button("Отмена", String::from_str(CANCEL_CALLBACK))));
    assert(k.deep_view() =~= seq![seq![callback_view("Отмена"@, CANCEL_CALLBACK@)]]);
    Ok((
        SessionState::WaitUnitReport { drop_id },
        keyboard_reply(String::from_str("киньте скрин вашего комментария/отзыва"), k),
    ))
}

/// Where a unit's request to report on a drop stands: each stage waits for
/// the answer to one question to the database.
#[derive(Clone, Copy, PartialEq, Eq, Structural, Debug)]
pub enum ReportStage {
    /// Waits for whether the unit is banned.
    Banned,
    /// Waits for whether the drop exists.
    Exists,
    /// Waits for whether the unit already completed the drop.
    Completed,
    Done,
}

/// A question to the database.
#[derive(Clone, Copy, PartialEq, Eq, Structural, Debug)]
pub enum ReportQuery {
    IsBanned(UserId),
    DropExists(DropId),
    DropCompleted(DropId, UserId),
}

/// What the handler does next.
pub enum ReportStep {
    /// Asks the database and feeds the answer back.
    Query(ReportQuery),
    /// Sends the refusal to the unit; the handler fails with a usage error.
    Refuse(Reply),
    /// Sends the text to the unit; the handler ends.
    Answer(String),
    /// Sets the session, sends the prompt to the unit; the handler ends.
    Start(SessionState, Reply),
}

/// A unit's request to report on a drop (`unit_report`).
pub struct UnitReportFlow {
    pub drop_id: DropId,
    pub user_id: UserId,
    pub stage: ReportStage,
}

/// The stage after an answer, and whether the report may start there.
pub open spec fn report_next(stage: ReportStage, answer: bool) -> ReportStage {
    match stage {
        ReportStage::Banned => if answer {
            ReportStage::Done
        } else {
            ReportStage::Exists
        },
        ReportStage::Exists => if answer {
            ReportStage::Completed
        } else {
            ReportStage::Done
        },
        _ => ReportStage::Done,
    }
}

impl UnitReportFlow {
    /// The first question: whether the unit is banned.
    pub fn start(drop_id: DropId, user_id: UserId) -> (r: (UnitReportFlow, ReportStep))
        ensures
            r.0.drop_id == drop_id && r.0.user_id == user_id && r.0.stage == ReportStage::Banned,
            r.1 == ReportStep::Query(ReportQuery::IsBanned(user_id)),
    {
        (
            UnitReportFlow { drop_id, user_id, stage: ReportStage::Banned },
            ReportStep::Query(ReportQuery::IsBanned(user_id)),
        )
    }

    /// Takes the answer to the last question.
    pub fn feed(&mut self, answer: bool) -> (step: ReportStep)
        requires
            old(self).stage != ReportStage::Done,
        ensures
            final(self).drop_id == old(self).drop_id,
            final(self).user_id == old(self).user_id,
            final(self).stage == report_next(old(self).stage, answer),
            old(self).stage == ReportStage::Banned && answer ==> (step matches ReportStep::Refuse(x)
                && x@ == refusal(USER_BANNED@)),
            old(self).stage == ReportStage::Banned && !answer ==> step == ReportStep::Query(
                ReportQuery::DropExists(old(self).drop_id),
            ),
            old(self).stage == ReportStage::Exists && !answer ==> (step matches ReportStep::Answer(t)
                && t@ == "Дропа с таким id не существует!"@),
            old(self).stage == ReportStage::Exists && answer ==> step == ReportStep::Query(
                ReportQuery::DropCompleted(old(self).drop_id, old(self).user_id),
            ),
            old(self).stage == ReportStage::Completed && answer ==> (step matches ReportStep::Answer(t)
                && t@ == "Вы уже выполнили этот дроп."@),
            old(self).stage == ReportStage::Completed && !answer ==> (step matches ReportStep::Start(st, x)
                && st == (SessionState::WaitUnitReport { drop_id: old(self).drop_id })
                && x@ == (ReplyView {
                text: "киньте скрин вашего комментария/отзыва"@,
                html: false,
                photo: None,
                keyboard: Some(seq![seq![callback_view("Отмена"@, CANCEL_CALLBACK@)]]),
            })),
    {
        match self.stage {
            ReportStage::Banned => {
                match check_banned(answer) {
                    Some(refused) => {
                        self.stage = ReportStage::Done;
                        ReportStep::Refuse(refused)
                    },
                    None => {
                        self.stage = ReportStage::Exists;
                        ReportStep::Query(ReportQuery::DropExists(self.drop_id))
                    },
                }
            },
            ReportStage::Exists => {
                match drop_exists_check(answer) {
                    Some(t) => {
                        self.stage = ReportStage::Done;
                        ReportStep::Answer(t)
                    },
                    None => {
                        self.stage = ReportStage::Completed;
                        ReportStep::Query(ReportQuery::DropCompleted(self.drop_id, self.user_id))
                    },
                }
            },
            _ => {
                self.stage = ReportStage::Done;
                match report_start(answer, self.drop_id) {
                    Ok((st, prompt)) => ReportStep::Start(st, prompt),
                    Err(t) => ReportStep::Answer(t),
                }
            },
        }
    }
}

/// A unit's report starts only when the unit is not banned, the drop
/// exists and the unit has not completed it; whatever the answers, the
/// request ends after at most three questions.
pub proof fn lemma_report_starts_only_when_allowed(banned: bool, exists: bool, completed: bool)
    ensures
        ({
            let s1 = report_next(ReportStage::Banned, banned);
            let s2 = if s1 == ReportStage::Done { s1 } else { report_next(s1, exists) };
            let s3 = if s2 == ReportStage::Done { s2 } else { report_next(s2, completed) };
            &&& s3 == ReportStage::Done
            &&& (s2 == ReportStage::Completed <==> (!banned && exists))
        }),
{
}

pub const ALREADY_COMPLETED_MSG: &'static str = "Дроп уже был выполнен данным пользователем.";

/// Why an accept button could not be acted on.
#[derive(Clone, Copy, PartialEq, Eq, Structural, Debug)]
pub enum AcceptError {
    /// Its data could not be read.
    Data(DataError),
    /// The unit has no username in the index.
    NoUsername,
}

/// The report that an accept button accepts.
pub struct AcceptTarget {
    pub unit_id: UserId,
    pub drop_id: DropId,
    pub rep: i64,
    /// The unit's username, for the admins' message.
    pub username: String,
}

/// Reads an accept button (`on_unit_accept_report_callback`): its unit, drop
/// and reputation, and the unit's username from the names index.
pub fn prepare_accept_report(data: &str, names: &UsersNames) -> (r: Result<AcceptTarget, AcceptError>)
    requires
        starts_with(data@, UNIT_ACCEPT_FEEDBACK_CALLBACK_PREFIX@),
    ensures
        match unit_accept_fields(data@.skip(UNIT_ACCEPT_FEEDBACK_CALLBACK_PREFIX@.len() as int)) {
            Err(e) => r == Err::<AcceptTarget, AcceptError>(AcceptError::Data(e)),
            Ok(f) => if names@.names.contains_key(f.0) && names@.names[f.0].1 is Some {
                r matches Ok(t) && t.unit_id == f.0 && t.drop_id == f.1 && t.rep == f.2
                    && Some(t.username@) == names@.names[f.0].1
            } else {
                r == Err::<AcceptTarget, AcceptError>(AcceptError::NoUsername)
            },
        },
{
    let (unit_id, drop_id, rep) = match parse_unit_accept_data(data) {
        Ok(f) => f,
        Err(e) => return Err(AcceptError::Data(e)),
    };
    match names.get_names(unit_id) {
        Some(n) => match n.username {
            Some(username) => Ok(AcceptTarget { unit_id, drop_id, rep, username }),
            None => Err(AcceptError::NoUsername),
        },
        None => Err(AcceptError::NoUsername),
    }
}

/// What follows the acceptance of a report.
pub struct ReportAccepted {
    /// Sent to the admins' chat.
    pub admin_text: String,
    /// Sent to the unit.
    pub unit_text: String,
    /// Replaces the buttons of the report.
    pub keyboard: Vec<Vec<Button>>,
}

/// The admins' message once a report is accepted.
pub open spec fn accepted_admin_text(username: Seq<char>, new_rep: i64) -> Seq<char> {
    "Дроп был отмечен как выполненный для @"@ + username + ".\nОбновленная репутация: "@
        + int_decimal(new_rep as int)
}

/// The unit's message once its report is accepted.
pub open spec fn accepted_unit_text(drop_id: DropId) -> Seq<char> {
    "Ваша заявка по дропу "@ + int_decimal(drop_id as int) + " была принята."@
}

/// The buttons that replace those of an accepted report.
pub open spec fn accepted_keyboard(unit_id: UserId) -> Seq<Seq<ButtonView>> {
    seq![seq![callback_view("Описание профиля"@, profile_data_spec(unit_id))]]
}

pub fn report_accepted(username: &str, new_rep: i64, unit_id: UserId, drop_id: DropId) -> (r: ReportAccepted)
    ensures
        r.admin_text@ == accepted_admin_text(username@, new_rep),
        r.unit_text@ == accepted_unit_text(drop_id),
        r.keyboard.deep_view() == accepted_keyboard(unit_id),
{
    let mut admin_text = String::from_str("Дроп был отмечен как выполненный для @");
    admin_text.append(username);
    admin_text.append(".\nОбновленная репутация: ");
    push_i64(&mut admin_text, new_rep);
    let mut unit_text = String::from_str("Ваша заявка по дропу ");
    push_i64(&mut unit_text, drop_id);
    unit_text.append(" была принята.");
    let mut k = Vec::new();
    k.push(row1(callback_button("Описание профиля", profile_data(unit_id))));
    assert(k.deep_view() =~= seq![seq![callback_view("Описание профиля"@, profile_data_spec(unit_id))]]);
    ReportAccepted { admin_text, unit_text, keyboard: k }
}

/// Where the acceptance of a report stands.
#[derive(Clone, Copy, PartialEq, Eq, Structural, Debug)]
pub enum AcceptStage {
    /// Waits for whether the user who pressed the button may accept reports.
    Privileges,
    /// Waits for whether marking the drop completed changed anything.
    Marked,
    /// Waits for the unit's new reputation.
    Reputation,
    Done,
}

/// A question to the database, or an update of it.
#[derive(Clone, Copy, PartialEq, Eq, Structural, Debug)]
pub enum AcceptQuery {
    /// Whether the user is a super admin or an admin.
    IsPrivileged(UserId),
    /// Marks the drop completed by the unit; answers whether it was not yet.
    MarkCompleted(DropId, UserId),
    /// Adds reputation to the unit; answers the unit's new reputation.
    AddReputation(UserId, i64),
}

/// What the accept handler does next.
pub enum AcceptStep {
    /// Asks or updates the database and feeds the answer back.
    Query(AcceptQuery),
    /// Sends the refusal to the chat of the report; the handler fails with a usage error.
    Refuse(Reply),
    /// The handler fails.
    Fail(AcceptError),
    /// Sends the text to the chat of the report; the handler ends.
    Answer(String),
    /// Sends the admins' text to the chat of the report and the unit's text to
    /// the unit, and replaces the report's buttons; the handler ends.
    Accepted(ReportAccepted),
}

/// An admin's press of an accept button under a unit's report
/// (`on_unit_accept_report_callback`): privileges are checked first, then
/// the button is read, then the drop is marked completed, and reputation is
/// added only when that mark is new.
pub struct AcceptReportFlow {
    pub stage: AcceptStage,
    /// The report being accepted, once the button was read.
    pub target: Option<AcceptTarget>,
}

impl AcceptReportFlow {
    /// The first question: whether the user who pressed the button may accept reports.
    pub fn start(user_id: UserId) -> (r: (AcceptReportFlow, AcceptStep))
        ensures
            r.0.stage == AcceptStage::Privileges,
            r.0.target is None,
            r.1 == AcceptStep::Query(AcceptQuery::IsPrivileged(user_id)),
    {
        (
            AcceptReportFlow { stage: AcceptStage::Privileges, target: None },
            AcceptStep::Query(AcceptQuery::IsPrivileged(user_id)),
        )
    }

    /// Takes whether the user may accept reports, and reads the button.
    pub fn on_privileges(&mut self, privileged: bool, data: &str, names: &UsersNames) -> (step: AcceptStep)
        requires
            old(self).stage == AcceptStage::Privileges,
            starts_with(data@, UNIT_ACCEPT_FEEDBACK_CALLBACK_PREFIX@),
        ensures
            !privileged ==> final(self).stage == AcceptStage::Done && (step matches AcceptStep::Refuse(x)
                && x@ == refusal(NO_RIGHTS_MSG@)),
            privileged ==> match unit_accept_fields(
                data@.skip(UNIT_ACCEPT_FEEDBACK_CALLBACK_PREFIX@.len() as int),
            ) {
                Err(e) => final(self).stage == AcceptStage::Done && step == AcceptStep::Fail(
                    AcceptError::Data(e),
                ),
                Ok(f) => if names@.names.contains_key(f.0) && names@.names[f.0].1 is Some {
                    &&& final(self).stage == AcceptStage::Marked
                    &&& final(self).target matches Some(t) && t.unit_id == f.0 && t.drop_id == f.1
                        && t.rep == f.2 && Some(t.username@) == names@.names[f.0].1
                    &&& step == AcceptStep::Query(AcceptQuery::MarkCompleted(f.1, f.0))
                } else {
                    final(self).stage == AcceptStage::Done && step == AcceptStep::Fail(
                        AcceptError::NoUsername,
                    )
                },
            },
    {
        if let Some(refused) = check_user_privileges(privileged) {
            self.stage = AcceptStage::Done;
            return AcceptStep::Refuse(refused);
        }
        match prepare_accept_report(data, names) {
            Ok(t) => {
                let q = AcceptQuery::MarkCompleted(t.drop_id, t.unit_id);
                self.stage = AcceptStage::Marked;
                self.target = Some(t);
                AcceptStep::Query(q)
            },
            Err(e) => {
                self.stage = AcceptStage::Done;
                AcceptStep::Fail(e)
            },
        }
    }

    /// Takes whether the drop was newly marked completed.
    pub fn on_marked(&mut self, newly: bool) -> (step: AcceptStep)
        requires
            old(self).stage == AcceptStage::Marked,
            old(self).target is Some,
        ensures
            final(self).target == old(self).target,
            !newly ==> final(self).stage == AcceptStage::Done && (step matches AcceptStep::Answer(x)
                && x@ == ALREADY_COMPLETED_MSG@),
            newly ==> final(self).stage == AcceptStage::Reputation && (old(self).target matches Some(t)
                && step == AcceptStep::Query(AcceptQuery::AddReputation(t.unit_id, t.rep))),
    {
        if !newly {
            self.stage = AcceptStage::Done;
            return AcceptStep::Answer(String::from_str(ALREADY_COMPLETED_MSG));
        }
        self.stage = AcceptStage::Reputation;
        match &self.target {
            Some(t) => AcceptStep::Query(AcceptQuery::AddReputation(t.unit_id, t.rep)),
            None => AcceptStep::Answer(String::from_str(ALREADY_COMPLETED_MSG)),
        }
    }

    /// Takes the unit's new reputation: the report is accepted.
    pub fn on_reputation(&mut self, new_rep: i64) -> (step: AcceptStep)
        requires
            old(self).stage == AcceptStage::Reputation,
            old(self).target is Some,
        ensures
            final(self).stage == AcceptStage::Done,
            final(self).target == old(self).target,
            old(self).target matches Some(t) && step matches AcceptStep::Accepted(a)
                && a.admin_text@ == accepted_admin_text(t.username@, new_rep)
                && a.unit_text@ == accepted_unit_text(t.drop_id)
                && a.keyboard.deep_view() == accepted_keyboard(t.unit_id),
    {
        self.stage = AcceptStage::Done;
        match &self.target {
            Some(t) => AcceptStep::Accepted(report_accepted(t.username.as_str(), new_rep, t.unit_id, t.drop_id)),
            None => AcceptStep::Answer(String::from_str(ALREADY_COMPLETED_MSG)),
        }
    }
}

// ---------------------------------------------------------------------------
// New drops
// ---------------------------------------------------------------------------

/// `args.split(' ')`: the first field is the link, the second (if any) the
/// description. `None` when there is no link, that is when the first field is
/// empty: `/drop` takes a link.
pub open spec fn drop_args_spec(s: Seq<char>) -> Option<(Seq<char>, Option<Seq<char>>)> {
    let i = char_from(s, ' ', 0);
    if i == 0 {
        None
    } else if i < s.len() {
        Some((s.take(i), Some(s.subrange(i + 1, char_from(s, ' ', i + 1)))))
    } else {
        Some((s, None))
    }
}

pub fn parse_drop_args<'a>(args: &'a str) -> (r: Option<(&'a str, Option<&'a str>)>)
    ensures
        match drop_args_spec(args@) {
            None => r is None,
            Some((link, None)) => r matches Some((l, None)) && l@ == link,
            Some((link, Some(d))) => r matches Some((l, Some(x))) && l@ == link && x@ == d,
        },
{
    let n = args.unicode_len();
    let i = find_char(args, ' ', 0);
    proof {
        lemma_char_from_bounds(args@, ' ', 0);
    }
    if i == 0 {
        None
    } else if i < n {
        let j = find_char(args, ' ', i + 1);
        proof {
            lemma_char_from_bounds(args@, ' ', i + 1);
        }
        assert(args@.subrange(0, i as int) =~= args@.take(i as int));
        Some((args.substring_char(0, i), Some(args.substring_char(i + 1, j))))
    } else {
        assert(args@.subrange(0, n as int) =~= args@);
        Some((args.substring_char(0, n), None))
    }
}

/// The announcement of a new drop to the units.
pub open spec fn new_drop_text_spec(link: Seq<char>, description: Option<Seq<char>>) -> Seq<char> {
    "Новый дроп сообщества!\n"@ + drop_summary(link, description)
}

pub fn new_drop_text(link: &str, description: Option<&str>) -> (r: String)
    ensures
        r@ == new_drop_text_spec(
            link@,
            match description {
                Some(d) => Some(d@),
                None => None,
            },
        ),
{
    let mut s = String::from_str("Новый дроп сообщества!\n");
    push_drop_summary(&mut s, link, description);
    s
}

/// The button under the announcement of a new drop.
pub open spec fn new_drop_keyboard_spec(drop_id: DropId) -> Seq<Seq<ButtonView>> {
    seq![seq![callback_view("Я оставил фидбек"@, unit_feedback_data_spec(drop_id))]]
}

pub fn new_drop_keyboard(drop_id: DropId) -> (r: Vec<Vec<Button>>)
    ensures
        r.deep_view() == new_drop_keyboard_spec(drop_id),
{
    let mut k = Vec::new();
    k.push(row1(callback_button("Я оставил фидбек", unit_feedback_data(drop_id))));
    assert(k.deep_view() =~= seq![seq![callback_view("Я оставил фидбек"@, unit_feedback_data_spec(drop_id))]]);
    k
}

/// The answer to the super admin who created a drop.
pub open spec fn drop_created_text_spec(drop_id: DropId) -> Seq<char> {
    "Новый дроп создан с id: "@ + int_decimal(drop_id as int)
}

pub fn drop_created_text(drop_id: DropId) -> (r: String)
    ensures
        r@ == drop_created_text_spec(drop_id),
{
    let mut s = String::from_str("Новый дроп создан с id: ");
    push_i64(&mut s, drop_id);
    s
}

/// Where the creation of a drop stands.
#[derive(Clone, Copy, PartialEq, Eq, Structural, Debug)]
pub enum DropStage {
    /// Waits for whether the sender is a super admin.
    Check,
    /// Waits for the id of the stored drop.
    Adding,
    Done,
}

/// What the `/drop` handler does next.
pub enum DropStep {
    /// Asks whether the user is a super admin.
    IsSuperAdmin(UserId),
    /// Sends the refusal; the handler fails with a usage error.
    Refuse(Reply),
    /// Sends the reply that points to the help; the handler ends.
    InvalidUsage(Reply),
    /// Stores a drop with this link and description; answers its id.
    AddDrop(String, Option<String>),
    /// Sends `text` with `keyboard` to every unit, then `created` to the
    /// sender; the handler ends.
    Announce { text: String, keyboard: Vec<Vec<Button>>, created: String },
}

pub struct DropFlowView {
    pub stage: DropStage,
    /// Whether the sender passed the check.
    pub granted: bool,
    pub link: Seq<char>,
    pub description: Option<Seq<char>>,
}

/// `/drop <link> [description]` (`on_drop_command`): the sender is checked
/// first, then the arguments are read, and only then is the drop stored.
pub struct DropFlow {
    stage: DropStage,
    granted: bool,
    link: String,
    description: Option<String>,
}

impl View for DropFlow {
    type V = DropFlowView;

    closed spec fn view(&self) -> DropFlowView {
        DropFlowView {
            stage: self.stage,
            granted: self.granted,
            link: self.link@,
            description: opt_view(self.description),
        }
    }
}

impl DropFlow {
    /// A flow that stores a drop has a sender who passed the check.
    #[verifier::type_invariant]
    spec fn checked_before_storing(&self) -> bool {
        self.stage == DropStage::Adding ==> self.granted
    }

    /// The first question: whether the sender is a super admin.
    pub fn start(sender: UserId) -> (r: (DropFlow, DropStep))
        ensures
            r.0@.stage == DropStage::Check,
            !r.0@.granted,
            r.1 == DropStep::IsSuperAdmin(sender),
    {
        (
            DropFlow { stage: DropStage::Check, granted: false, link: String::new(), description: None },
            DropStep::IsSuperAdmin(sender),
        )
    }

    pub fn stage(&self) -> (r: DropStage)
        ensures
            r == self@.stage,
    {
        self.stage
    }

    /// Takes whether the sender is a super admin; then reads the arguments.
    pub fn on_checked(&mut self, allowed: bool, args: &str) -> (step: DropStep)
        requires
            old(self)@.stage == DropStage::Check,
        ensures
            final(self)@.granted == allowed,
            !allowed ==> final(self)@.stage == DropStage::Done && (step matches DropStep::Refuse(x)
                && x@ == refusal(NO_RIGHTS_MSG@)),
            allowed ==> match drop_args_spec(args@) {
                None => final(self)@.stage == DropStage::Done && (step matches DropStep::InvalidUsage(
                    x,
                ) && x@ == invalid_usage_view()),
                Some((link, d)) => {
                    &&& final(self)@.stage == DropStage::Adding
                    &&& final(self)@.link == link
                    &&& final(self)@.description == d
                    &&& step matches DropStep::AddDrop(l, x) && l@ == link && opt_view(x) == d
                },
            },
            step is AddDrop ==> final(self)@.granted,
    {
        self.granted = allowed;
        if let Some(refused) = check_user_super_admin(allowed) {
            self.stage = DropStage::Done;
            return DropStep::Refuse(refused);
        }
        match parse_drop_args(args) {
            None => {
                self.stage = DropStage::Done;
                DropStep::InvalidUsage(invalid_usage_message())
            },
            Some((link, description)) => {
                let d: Option<String> = match description {
                    Some(x) => Some(String::from_str(x)),
                    None => None,
                };
                let d2: Option<String> = match description {
                    Some(x) => Some(String::from_str(x)),
                    None => None,
                };
                self.link = String::from_str(link);
                self.description = d;
                self.stage = DropStage::Adding;
                DropStep::AddDrop(String::from_str(link), d2)
            },
        }
    }

    /// Takes the id of the stored drop: the units are told of it.
    pub fn on_added(&mut self, drop_id: DropId) -> (step: DropStep)
        requires
            old(self)@.stage == DropStage::Adding,
        ensures
            old(self)@.granted,
            final(self)@.stage == DropStage::Done,
            step matches DropStep::Announce { text, keyboard, created } && text@ == new_drop_text_spec(
                old(self)@.link,
                old(self)@.description,
            ) && keyboard.deep_view() == new_drop_keyboard_spec(drop_id) && created@
                == drop_created_text_spec(drop_id),
    {
        proof {
            use_type_invariant(&*self);
        }
        self.stage = DropStage::Done;
        let text = match &self.description {
            Some(d) => new_drop_text(self.link.as_str(), Some(d.as_str())),
            None => new_drop_text(self.link.as_str(), None),
        };
        DropStep::Announce { text, keyboard: new_drop_keyboard(drop_id), created: drop_created_text(drop_id) }
    }
}


// ---------------------------------------------------------------------------
// The history of drops
// ---------------------------------------------------------------------------

pub open spec fn history_line(d: DropInfo, done: bool) -> Seq<char> {
    "ID:"@ + int_decimal(d.id as int) + " <a href=\""@ + d.link@ + "\">ссылка</a>"@ + (if done {
        "(выполнено)"@
    } else {
        ""@
    }) + "\n"@ + match d.description {
        Some(x) => "> "@ + x@ + "\n"@,
        None => Seq::empty(),
    }
}

pub open spec fn history_lines(drops: Seq<DropInfo>, done: Seq<bool>) -> Seq<char>
    decreases drops.len(),
{
    if drops.len() == 0 {
        Seq::empty()
    } else {
        history_lines(drops.drop_last(), done) + history_line(
            drops.last(),
            done[drops.len() - 1],
        )
    }
}

/// A drop's line in the history: its id, its link, the mark exactly when it
/// is completed, then its description.
pub proof fn lemma_history_line(d: DropInfo)
    ensures
        ({
            let head = "ID:"@ + int_decimal(d.id as int) + " <a href=\""@ + d.link@ + "\">ссылка</a>"@;
            let desc = match d.description {
                Some(x) => "> "@ + x@ + "\n"@,
                None => Seq::<char>::empty(),
            };
            &&& history_line(d, false) == head + "\n"@ + desc
            &&& history_line(d, true) == head + "(выполнено)"@ + "\n"@ + desc
        }),
{
    reveal_strlit("");
    let head = "ID:"@ + int_decimal(d.id as int) + " <a href=\""@ + d.link@ + "\">ссылка</a>"@;
    assert(head + ""@ =~= head);
}

/// Every drop given is in the history, in order, each with its own
/// completion flag: a drop added at the end adds its line.
pub proof fn lemma_history_lists_every_drop(drops: Seq<DropInfo>, d: DropInfo, done: Seq<bool>)
    requires
        drops.len() < done.len(),
    ensures
        history_lines(drops.push(d), done) == history_lines(drops, done) + history_line(
            d,
            done[drops.len() as int],
        ),
{
    assert(drops.push(d).drop_last() =~= drops);
}

pub open spec fn history_header() -> Seq<char> {
    "Используйте /feedback &lt;id&gt; для подачи заявки:\n"@
}

fn history_line_exec(text: &mut String, d: &DropInfo, done: bool)
    ensures
        final(text)@ == old(text)@ + history_line(*d, done),
{
    proof {
        reveal_strlit("");
    }
    let ghost before = old(text)@;
    text.append("ID:");
    push_i64(text, d.id);
    text.append(" <a href=\"");
    text.append(d.link.as_str());
    text.append("\">ссылка</a>");
    text.append(if done { "(выполнено)" } else { "" });
    text.append("\n");
    match &d.description {
        Some(x) => {
            text.append("> ");
            text.append(x.as_str());
            text.append("\n");
        },
        None => {},
    }
    assert(text@ =~= before + history_line(*d, done));
}

/// The history of drops (`on_drops_history_callback`).
pub fn on_drops_history_callback(drops: &Vec<DropInfo>, completed: &Vec<bool>) -> (r: Reply)
    requires
        completed@.len() == drops@.len(),
    ensures
        r@ == (ReplyView {
            text: history_header() + history_lines(drops@, completed@),
            html: true,
            photo: Some(Banner::Unit),
            keyboard: Some(seq![seq![callback_view("Назад"@, UNIT_INFO_CALLBACK@), menu_button_view()]]),
        }),
{
    proof {
        reveal_strlit("");
    }
    let mut text = String::from_str("Используйте /feedback &lt;id&gt; для подачи заявки:\n");
    let mut i: usize = 0;
    while i < drops.len()
        invariant
            i <= drops@.len(),
            completed@.len() == drops@.len(),
            text@ == history_header() + history_lines(drops@.take(i as int), completed@),
        decreases drops@.len() - i,
    {
        assert(drops@.take(i + 1).drop_last() =~= drops@.take(i as int));
        history_line_exec(&mut text, &drops[i], completed[i]);
        i = i + 1;
    }
    assert(drops@.take(i as int) =~= drops@);
    let mut k = Vec::new();
    k.push(row2(callback_button("Назад", String::from_str(UNIT_INFO_CALLBACK)), menu_button()));
    assert(k.deep_view() =~= seq![seq![callback_view("Назад"@, UNIT_INFO_CALLBACK@), menu_button_view()]]);
    Reply { text, html: true, photo: Some(Banner::Unit), keyboard: Some(k) }
}

} // verus!
