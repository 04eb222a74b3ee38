//! Callback data: the strings that buttons carry, how they are read back,
//! and which handler an update reaches.
use vstd::prelude::*;
use vstd::string::*;
use crate::bot::command::Command;
use crate::bot::session::SessionState;
use crate::bot::support::{category_from_index, category_index, SupportCategory};
use crate::oknoid::{DropId, UserId};
use crate::text::{
    lemma_char_from_at, lemma_decimal_has_no, lemma_parse_i64_decimal,
    lemma_parse_u32_decimal, lemma_parse_u64_decimal, lemma_parse_usize_decimal, is_digit, decimal, int_decimal, parse_i64, parse_i64_spec, parse_u32, parse_u32_spec, parse_u64,
    parse_u64_spec, parse_usize, parse_usize_spec, push_i64, push_u64, split3, starts_with,
    str_eq, str_skip, str_starts_with, three_fields,
};

verus! {

pub const CANCEL_CALLBACK: &'static str = "cancel";

pub const HELP_CALLBACK: &'static str = "help";

pub const BIO_CALLBACK: &'static str = "bio";

pub const PROFILE_CALLBACK_PREFIX: &'static str = "profile";

pub const SUPPORT_SELECTED_CALLBACK_PREFIX: &'static str = "support-selected";

pub const UNIT_JOIN_CALLBACK: &'static str = "unit-join";

pub const UNIT_FEEDBACK_CALLBACK_PREFIX: &'static str = "unit-feedback";

pub const UNIT_ACCEPT_FEEDBACK_CALLBACK_PREFIX: &'static str = "unit-accept";

pub const DROPS_HISTORY_CALLBACK: &'static str = "drops-history";

pub const MENU_CALLBACK: &'static str = "menu";

pub const SUPPORT_CALLBACK: &'static str = "support";

pub const ME_CALLBACK: &'static str = "me";

pub const UNIT_INFO_CALLBACK: &'static str = "unit-info";

pub const TOP_CALLBACK_PREFIX: &'static str = "top";

pub const TOP_CALLBACK: &'static str = "top0";

// ---------------------------------------------------------------------------
// Building callback data
// ---------------------------------------------------------------------------

pub open spec fn profile_data_spec(id: UserId) -> Seq<char> {
    PROFILE_CALLBACK_PREFIX@ + decimal(id as nat)
}

pub open spec fn top_data_spec(page: u32) -> Seq<char> {
    TOP_CALLBACK_PREFIX@ + decimal(page as nat)
}

pub open spec fn unit_feedback_data_spec(drop_id: DropId) -> Seq<char> {
    UNIT_FEEDBACK_CALLBACK_PREFIX@ + int_decimal(drop_id as int)
}

pub open spec fn unit_accept_data_spec(unit: UserId, drop_id: DropId, rep: i64) -> Seq<char> {
    UNIT_ACCEPT_FEEDBACK_CALLBACK_PREFIX@ + decimal(unit as nat) + seq!['-'] + int_decimal(
        drop_id as int,
    ) + seq!['-'] + int_decimal(rep as int)
}

pub open spec fn support_selected_data_spec(c: SupportCategory) -> Seq<char> {
    SUPPORT_SELECTED_CALLBACK_PREFIX@ + decimal(category_index(c))
}

/// The data of a button that shows a user's profile.
pub fn profile_data(id: UserId) -> (r: String)
    ensures
        r@ == profile_data_spec(id),
{
    let mut s = String::from_str(PROFILE_CALLBACK_PREFIX);
    push_u64(&mut s, id);
    s
}

/// The data of a button that opens a page of the reputation table.
pub fn top_data(page: u32) -> (r: String)
    ensures
        r@ == top_data_spec(page),
{
    let mut s = String::from_str(TOP_CALLBACK_PREFIX);
    push_u64(&mut s, page as u64);
    s
}

/// The data of a button that starts a report on a drop.
pub fn unit_feedback_data(drop_id: DropId) -> (r: String)
    ensures
        r@ == unit_feedback_data_spec(drop_id),
{
    let mut s = String::from_str(UNIT_FEEDBACK_CALLBACK_PREFIX);
    push_i64(&mut s, drop_id);
    s
}

/// The data of a button that accepts a unit's report and grants reputation.
pub fn unit_accept_data(unit: UserId, drop_id: DropId, rep: i64) -> (r: String)
    ensures
        r@ == unit_accept_data_spec(unit, drop_id, rep),
{
    proof {
        reveal_strlit("-");
    }
    let mut s = String::from_str(UNIT_ACCEPT_FEEDBACK_CALLBACK_PREFIX);
    push_u64(&mut s, unit);
    s.append("-");
    push_i64(&mut s, drop_id);
    s.append("-");
    push_i64(&mut s, rep);
    s
}

/// The data of a button that picks a support category.
pub fn support_selected_data(c: SupportCategory) -> (r: String)
    ensures
        r@ == support_selected_data_spec(c),
{
    let mut s = String::from_str(SUPPORT_SELECTED_CALLBACK_PREFIX);
    push_u64(&mut s, c.to_usize() as u64);
    s
}

// ---------------------------------------------------------------------------
// Reading callback data
// ---------------------------------------------------------------------------

/// Why callback data could not be read.
#[derive(Clone, Copy, PartialEq, Eq, Structural, Debug)]
pub enum DataError {
    /// The data does not have the expected shape.
    FailedParse,
    /// A number in the data does not parse.
    InvalidNumber,
    /// The number names no support category.
    UnknownCategory,
}

/// The user id of a profile button.
pub fn parse_profile_data(data: &str) -> (r: Result<UserId, DataError>)
    requires
        starts_with(data@, PROFILE_CALLBACK_PREFIX@),
    ensures
        ({
            let rest = data@.skip(PROFILE_CALLBACK_PREFIX@.len() as int);
            match parse_u64_spec(rest) {
                Some(id) => r == Ok::<UserId, DataError>(id),
                None => r == Err::<UserId, DataError>(DataError::FailedParse),
            }
        }),
{
    match parse_u64(str_skip(data, PROFILE_CALLBACK_PREFIX.unicode_len())) {
        Some(id) => Ok(id),
        None => Err(DataError::FailedParse),
    }
}

/// The page of a reputation table button.
pub fn parse_top_data(data: &str) -> (r: Result<u32, DataError>)
    requires
        starts_with(data@, TOP_CALLBACK_PREFIX@),
    ensures
        ({
            let rest = data@.skip(TOP_CALLBACK_PREFIX@.len() as int);
            match parse_u32_spec(rest) {
                Some(p) => r == Ok::<u32, DataError>(p),
                None => r == Err::<u32, DataError>(DataError::InvalidNumber),
            }
        }),
{
    match parse_u32(str_skip(data, TOP_CALLBACK_PREFIX.unicode_len())) {
        Some(p) => Ok(p),
        None => Err(DataError::InvalidNumber),
    }
}

/// The drop of a report button.
pub fn parse_unit_feedback_data(data: &str) -> (r: Result<DropId, DataError>)
    requires
        starts_with(data@, UNIT_FEEDBACK_CALLBACK_PREFIX@),
    ensures
        ({
            let rest = data@.skip(UNIT_FEEDBACK_CALLBACK_PREFIX@.len() as int);
            match parse_i64_spec(rest) {
                Some(d) => r == Ok::<DropId, DataError>(d),
                None => r == Err::<DropId, DataError>(DataError::InvalidNumber),
            }
        }),
{
    match parse_i64(str_skip(data, UNIT_FEEDBACK_CALLBACK_PREFIX.unicode_len())) {
        Some(d) => Ok(d),
        None => Err(DataError::InvalidNumber),
    }
}

/// What an accept button carries: the unit, the drop and the reputation to grant.
pub open spec fn unit_accept_fields(rest: Seq<char>) -> Result<(UserId, DropId, i64), DataError> {
    match three_fields(rest, '-') {
        None => Err(DataError::FailedParse),
        Some(t) => match (parse_u64_spec(t.0), parse_i64_spec(t.1), parse_i64_spec(t.2)) {
            (Some(u), Some(d), Some(v)) => Ok((u, d, v)),
            _ => Err(DataError::InvalidNumber),
        },
    }
}

/// The unit, drop and reputation of an accept button: three fields between dashes.
pub fn parse_unit_accept_data(data: &str) -> (r: Result<(UserId, DropId, i64), DataError>)
    requires
        starts_with(data@, UNIT_ACCEPT_FEEDBACK_CALLBACK_PREFIX@),
    ensures
        r == unit_accept_fields(data@.skip(UNIT_ACCEPT_FEEDBACK_CALLBACK_PREFIX@.len() as int)),
{
    let rest = str_skip(data, UNIT_ACCEPT_FEEDBACK_CALLBACK_PREFIX.unicode_len());
    let (a, b, c) = match split3(rest, '-') {
        Some(t) => t,
        None => return Err(DataError::FailedParse),
    };
    match (parse_u64(a), parse_i64(b), parse_i64(c)) {
        (Some(u), Some(d), Some(v)) => Ok((u, d, v)),
        _ => Err(DataError::InvalidNumber),
    }
}

/// The category of a support category button.
pub fn parse_support_selected_data(data: &str) -> (r: Result<SupportCategory, DataError>)
    requires
        starts_with(data@, SUPPORT_SELECTED_CALLBACK_PREFIX@),
    ensures
        ({
            let rest = data@.skip(SUPPORT_SELECTED_CALLBACK_PREFIX@.len() as int);
            match parse_usize_spec(rest) {
                Some(i) => match category_from_index(i as nat) {
                    Some(c) => r == Ok::<SupportCategory, DataError>(c),
                    None => r == Err::<SupportCategory, DataError>(DataError::UnknownCategory),
                },
                None => r == Err::<SupportCategory, DataError>(DataError::FailedParse),
            }
        }),
{
    match parse_usize(str_skip(data, SUPPORT_SELECTED_CALLBACK_PREFIX.unicode_len())) {
        Some(i) => match SupportCategory::from_usize(i) {
            Some(c) => Ok(c),
            None => Err(DataError::UnknownCategory),
        },
        None => Err(DataError::FailedParse),
    }
}

// ---------------------------------------------------------------------------
// Routing
// ---------------------------------------------------------------------------

/// The handler that a callback query reaches.
#[derive(Clone, Copy, PartialEq, Eq, Structural, Debug)]
pub enum CallbackRoute {
    Cancel,
    Help,
    Bio,
    MainMenu,
    UnitInfo,
    Me,
    Support,
    UnitJoin,
    DropsHistory,
    Profile,
    SupportSelected,
    UnitReport,
    UnitAcceptReport,
    Top,
}

/// Exact data are tried first, in this order, then the prefixes.
pub open spec fn route_callback_spec(data: Seq<char>) -> Option<CallbackRoute> {
    if data == CANCEL_CALLBACK@ {
        Some(CallbackRoute::Cancel)
    } else if data == HELP_CALLBACK@ {
        Some(CallbackRoute::Help)
    } else if data == BIO_CALLBACK@ {
        Some(CallbackRoute::Bio)
    } else if data == MENU_CALLBACK@ {
        Some(CallbackRoute::MainMenu)
    } else if data == UNIT_INFO_CALLBACK@ {
        Some(CallbackRoute::UnitInfo)
    } else if data == ME_CALLBACK@ {
        Some(CallbackRoute::Me)
    } else if data == SUPPORT_CALLBACK@ {
        Some(CallbackRoute::Support)
    } else if data == UNIT_JOIN_CALLBACK@ {
        Some(CallbackRoute::UnitJoin)
    } else if data == DROPS_HISTORY_CALLBACK@ {
        Some(CallbackRoute::DropsHistory)
    } else if starts_with(data, PROFILE_CALLBACK_PREFIX@) {
        Some(CallbackRoute::Profile)
    } else if starts_with(data, SUPPORT_SELECTED_CALLBACK_PREFIX@) {
        Some(CallbackRoute::SupportSelected)
    } else if starts_with(data, UNIT_FEEDBACK_CALLBACK_PREFIX@) {
        Some(CallbackRoute::UnitReport)
    } else if starts_with(data, UNIT_ACCEPT_FEEDBACK_CALLBACK_PREFIX@) {
        Some(CallbackRoute::UnitAcceptReport)
    } else if starts_with(data, TOP_CALLBACK_PREFIX@) {
        Some(CallbackRoute::Top)
    } else {
        None
    }
}

/// Which handler a callback query with this data reaches; none without data.
pub fn route_callback(data: Option<&str>) -> (r: Option<CallbackRoute>)
    ensures
        r == (match data {
            Some(d) => route_callback_spec(d@),
            None => None,
        }),
{
    let d = match data {
        Some(d) => d,
        None => return None,
    };
    if str_eq(d, CANCEL_CALLBACK) {
        Some(CallbackRoute::Cancel)
    } else if str_eq(d, HELP_CALLBACK) {
        Some(CallbackRoute::Help)
    } else if str_eq(d, BIO_CALLBACK) {
        Some(CallbackRoute::Bio)
    } else if str_eq(d, MENU_CALLBACK) {
        Some(CallbackRoute::MainMenu)
    } else if str_eq(d, UNIT_INFO_CALLBACK) {
        Some(CallbackRoute::UnitInfo)
    } else if str_eq(d, ME_CALLBACK) {
        Some(CallbackRoute::Me)
    } else if str_eq(d, SUPPORT_CALLBACK) {
        Some(CallbackRoute::Support)
    } else if str_eq(d, UNIT_JOIN_CALLBACK) {
        Some(CallbackRoute::UnitJoin)
    } else if str_eq(d, DROPS_HISTORY_CALLBACK) {
        Some(CallbackRoute::DropsHistory)
    } else if str_starts_with(d, PROFILE_CALLBACK_PREFIX) {
        Some(CallbackRoute::Profile)
    } else if str_starts_with(d, SUPPORT_SELECTED_CALLBACK_PREFIX) {
        Some(CallbackRoute::SupportSelected)
    } else if str_starts_with(d, UNIT_FEEDBACK_CALLBACK_PREFIX) {
        Some(CallbackRoute::UnitReport)
    } else if str_starts_with(d, UNIT_ACCEPT_FEEDBACK_CALLBACK_PREFIX) {
        Some(CallbackRoute::UnitAcceptReport)
    } else if str_starts_with(d, TOP_CALLBACK_PREFIX) {
        Some(CallbackRoute::Top)
    } else {
        None
    }
}

/// The handler that a message reaches.
#[derive(Clone, Copy, PartialEq, Eq, Structural, Debug)]
pub enum MessageRoute {
    Command(Command),
    SupportMessage(SupportCategory),
    BioMessage,
    UnitReportMessage(DropId),
}

/// A command goes to its handler whatever the session waits for; any other
/// message goes to what the session waits for, if anything.
pub open spec fn route_message_spec(command: Option<Command>, state: SessionState) -> Option<MessageRoute> {
    match command {
        Some(c) => Some(MessageRoute::Command(c)),
        None => match state {
            SessionState::WaitSupportMessage { category } => Some(
                MessageRoute::SupportMessage(category),
            ),
            SessionState::WaitBioMessage => Some(MessageRoute::BioMessage),
            SessionState::WaitUnitReport { drop_id } => Some(
                MessageRoute::UnitReportMessage(drop_id),
            ),
            SessionState::Idle => None,
        },
    }
}

pub fn route_message(command: Option<Command>, state: SessionState) -> (r: Option<MessageRoute>)
    ensures
        r == route_message_spec(command, state),
{
    match command {
        Some(c) => Some(MessageRoute::Command(c)),
        None => match state {
            SessionState::WaitSupportMessage { category } => Some(
                MessageRoute::SupportMessage(category),
            ),
            SessionState::WaitBioMessage => Some(MessageRoute::BioMessage),
            SessionState::WaitUnitReport { drop_id } => Some(
                MessageRoute::UnitReportMessage(drop_id),
            ),
            SessionState::Idle => None,
        },
    }
}

// ---------------------------------------------------------------------------
// Every button's data reaches the handler it is meant for, which reads
// back what the button was built with.
// ---------------------------------------------------------------------------


/// The callback names, character by character.
proof fn lemma_callback_names_spelled()
    ensures
        CANCEL_CALLBACK@ == seq!['c', 'a', 'n', 'c', 'e', 'l'],
        HELP_CALLBACK@ == seq!['h', 'e', 'l', 'p'],
        BIO_CALLBACK@ == seq!['b', 'i', 'o'],
        PROFILE_CALLBACK_PREFIX@ == seq!['p', 'r', 'o', 'f', 'i', 'l', 'e'],
        SUPPORT_SELECTED_CALLBACK_PREFIX@ == seq!['s', 'u', 'p', 'p', 'o', 'r', 't', '-', 's', 'e', 'l', 'e', 'c', 't', 'e', 'd'],
        UNIT_JOIN_CALLBACK@ == seq!['u', 'n', 'i', 't', '-', 'j', 'o', 'i', 'n'],
        UNIT_FEEDBACK_CALLBACK_PREFIX@ == seq!['u', 'n', 'i', 't', '-', 'f', 'e', 'e', 'd', 'b', 'a', 'c', 'k'],
        UNIT_ACCEPT_FEEDBACK_CALLBACK_PREFIX@ == seq!['u', 'n', 'i', 't', '-', 'a', 'c', 'c', 'e', 'p', 't'],
        DROPS_HISTORY_CALLBACK@ == seq!['d', 'r', 'o', 'p', 's', '-', 'h', 'i', 's', 't', 'o', 'r', 'y'],
        MENU_CALLBACK@ == seq!['m', 'e', 'n', 'u'],
        SUPPORT_CALLBACK@ == seq!['s', 'u', 'p', 'p', 'o', 'r', 't'],
        ME_CALLBACK@ == seq!['m', 'e'],
        UNIT_INFO_CALLBACK@ == seq!['u', 'n', 'i', 't', '-', 'i', 'n', 'f', 'o'],
        TOP_CALLBACK_PREFIX@ == seq!['t', 'o', 'p'],
        TOP_CALLBACK@ == seq!['t', 'o', 'p', '0'],
{
    reveal_strlit("cancel");
    reveal_strlit("help");
    reveal_strlit("bio");
    reveal_strlit("profile");
    reveal_strlit("support-selected");
    reveal_strlit("unit-join");
    reveal_strlit("unit-feedback");
    reveal_strlit("unit-accept");
    reveal_strlit("drops-history");
    reveal_strlit("menu");
    reveal_strlit("support");
    reveal_strlit("me");
    reveal_strlit("unit-info");
    reveal_strlit("top");
    reveal_strlit("top0");
}

proof fn lemma_prefixed(prefix: Seq<char>, rest: Seq<char>)
    ensures
        starts_with(prefix + rest, prefix),
        (prefix + rest).skip(prefix.len() as int) == rest,
        forall|i: int| 0 <= i < prefix.len() ==> #[trigger] (prefix + rest)[i] == prefix[i],
{
    assert((prefix + rest).take(prefix.len() as int) =~= prefix);
    assert((prefix + rest).skip(prefix.len() as int) =~= rest);
}

/// The fixed callback data reach their handlers, and the first page of
/// the reputation table is page 0.
pub proof fn lemma_fixed_callbacks_route()
    ensures
        route_callback_spec(CANCEL_CALLBACK@) == Some(CallbackRoute::Cancel),
        route_callback_spec(HELP_CALLBACK@) == Some(CallbackRoute::Help),
        route_callback_spec(BIO_CALLBACK@) == Some(CallbackRoute::Bio),
        route_callback_spec(MENU_CALLBACK@) == Some(CallbackRoute::MainMenu),
        route_callback_spec(UNIT_INFO_CALLBACK@) == Some(CallbackRoute::UnitInfo),
        route_callback_spec(ME_CALLBACK@) == Some(CallbackRoute::Me),
        route_callback_spec(SUPPORT_CALLBACK@) == Some(CallbackRoute::Support),
        route_callback_spec(UNIT_JOIN_CALLBACK@) == Some(CallbackRoute::UnitJoin),
        route_callback_spec(DROPS_HISTORY_CALLBACK@) == Some(CallbackRoute::DropsHistory),
        route_callback_spec(TOP_CALLBACK@) == Some(CallbackRoute::Top),
        TOP_CALLBACK@ == top_data_spec(0),
{
    lemma_callback_names_spelled();
    assert(CANCEL_CALLBACK@.len() == 6 && HELP_CALLBACK@.len() == 4 && BIO_CALLBACK@.len() == 3);
    assert(MENU_CALLBACK@.len() == 4 && UNIT_INFO_CALLBACK@.len() == 9 && ME_CALLBACK@.len() == 2);
    assert(SUPPORT_CALLBACK@.len() == 7 && UNIT_JOIN_CALLBACK@.len() == 9);
    assert(DROPS_HISTORY_CALLBACK@.len() == 13 && TOP_CALLBACK@.len() == 4);
    assert(HELP_CALLBACK@[0] == 'h' && MENU_CALLBACK@[0] == 'm');
    assert(UNIT_INFO_CALLBACK@[5] == 'i' && UNIT_JOIN_CALLBACK@[5] == 'j');
    assert(TOP_CALLBACK@[0] == 't' && HELP_CALLBACK@[0] == 'h');
    assert(decimal(0) == seq!['0']);
    assert(TOP_CALLBACK@ =~= top_data_spec(0));
    lemma_prefixed(TOP_CALLBACK_PREFIX@, decimal(0));
    assert(TOP_CALLBACK@[0] == 't');
}

/// A profile button reaches the profile handler, which reads its user back.
pub proof fn lemma_profile_data_roundtrip(id: UserId)
    ensures
        route_callback_spec(profile_data_spec(id)) == Some(CallbackRoute::Profile),
        starts_with(profile_data_spec(id), PROFILE_CALLBACK_PREFIX@),
        parse_u64_spec(profile_data_spec(id).skip(PROFILE_CALLBACK_PREFIX@.len() as int)) == Some(
            id,
        ),
{
    lemma_callback_names_spelled();
    let d = profile_data_spec(id);
    lemma_prefixed(PROFILE_CALLBACK_PREFIX@, decimal(id as nat));
    lemma_parse_u64_decimal(id);
    assert(d[0] == 'p');
}

/// A page button of the reputation table reaches the table's handler,
/// which reads the page back.
pub proof fn lemma_top_data_roundtrip(page: u32)
    ensures
        route_callback_spec(top_data_spec(page)) == Some(CallbackRoute::Top),
        starts_with(top_data_spec(page), TOP_CALLBACK_PREFIX@),
        parse_u32_spec(top_data_spec(page).skip(TOP_CALLBACK_PREFIX@.len() as int)) == Some(page),
{
    lemma_callback_names_spelled();
    let d = top_data_spec(page);
    lemma_prefixed(TOP_CALLBACK_PREFIX@, decimal(page as nat));
    lemma_parse_u32_decimal(page);
    assert(d[0] == 't');
}

/// A report button reaches the report handler, which reads its drop back.
pub proof fn lemma_unit_feedback_data_roundtrip(drop_id: DropId)
    ensures
        route_callback_spec(unit_feedback_data_spec(drop_id)) == Some(CallbackRoute::UnitReport),
        starts_with(unit_feedback_data_spec(drop_id), UNIT_FEEDBACK_CALLBACK_PREFIX@),
        parse_i64_spec(
            unit_feedback_data_spec(drop_id).skip(UNIT_FEEDBACK_CALLBACK_PREFIX@.len() as int),
        ) == Some(drop_id),
{
    lemma_callback_names_spelled();
    let d = unit_feedback_data_spec(drop_id);
    lemma_prefixed(UNIT_FEEDBACK_CALLBACK_PREFIX@, int_decimal(drop_id as int));
    lemma_parse_i64_decimal(drop_id);
    assert(d[0] == 'u' && d[5] == 'f');
}

/// A support category button reaches the category handler, which reads
/// its category back.
pub proof fn lemma_support_selected_data_roundtrip(c: SupportCategory)
    ensures
        route_callback_spec(support_selected_data_spec(c)) == Some(CallbackRoute::SupportSelected),
        starts_with(support_selected_data_spec(c), SUPPORT_SELECTED_CALLBACK_PREFIX@),
        ({
            let rest = support_selected_data_spec(c).skip(
                SUPPORT_SELECTED_CALLBACK_PREFIX@.len() as int,
            );
            &&& parse_usize_spec(rest) == Some(category_index(c) as usize)
            &&& category_from_index(category_index(c)) == Some(c)
        }),
{
    lemma_callback_names_spelled();
    let d = support_selected_data_spec(c);
    lemma_prefixed(SUPPORT_SELECTED_CALLBACK_PREFIX@, decimal(category_index(c)));
    lemma_parse_usize_decimal(category_index(c) as usize);
    assert(d[0] == 's');
    assert(d.len() > SUPPORT_CALLBACK@.len());
}

/// Three dash-free fields joined by dashes split back into themselves.
proof fn lemma_three_fields_join(a: Seq<char>, b: Seq<char>, c: Seq<char>)
    requires
        forall|j: int| 0 <= j < a.len() ==> #[trigger] a[j] != '-',
        forall|j: int| 0 <= j < b.len() ==> #[trigger] b[j] != '-',
        forall|j: int| 0 <= j < c.len() ==> #[trigger] c[j] != '-',
    ensures
        three_fields(a + seq!['-'] + b + seq!['-'] + c, '-') == Some((a, b, c)),
{
    let rest = a + seq!['-'] + b + seq!['-'] + c;
    let i1 = a.len() as int;
    let i2 = i1 + 1 + b.len();
    assert forall|j: int| 0 <= j < i1 implies #[trigger] rest[j] != '-' by {
        assert(rest[j] == a[j]);
    }
    assert(rest[i1] == '-');
    lemma_char_from_at(rest, '-', 0, i1);
    assert forall|j: int| i1 + 1 <= j < i2 implies #[trigger] rest[j] != '-' by {
        assert(rest[j] == b[j - i1 - 1]);
    }
    assert(rest[i2] == '-');
    lemma_char_from_at(rest, '-', i1 + 1, i2);
    assert forall|j: int| i2 + 1 <= j < rest.len() implies #[trigger] rest[j] != '-' by {
        assert(rest[j] == c[j - i2 - 1]);
    }
    lemma_char_from_at(rest, '-', i2 + 1, rest.len() as int);
    assert(rest.take(i1) =~= a);
    assert(rest.subrange(i1 + 1, i2) =~= b);
    assert(rest.skip(i2 + 1) =~= c);
}

/// An accept button reaches the accept handler, which reads back its
/// unit, drop and reputation, when the drop id and the reputation are not
/// negative (a minus sign would add a field).
pub proof fn lemma_unit_accept_data_roundtrip(unit: UserId, drop_id: DropId, rep: i64)
    requires
        drop_id >= 0,
        rep >= 0,
    ensures
        route_callback_spec(unit_accept_data_spec(unit, drop_id, rep)) == Some(
            CallbackRoute::UnitAcceptReport,
        ),
        starts_with(unit_accept_data_spec(unit, drop_id, rep), UNIT_ACCEPT_FEEDBACK_CALLBACK_PREFIX@),
        unit_accept_fields(
            unit_accept_data_spec(unit, drop_id, rep).skip(
                UNIT_ACCEPT_FEEDBACK_CALLBACK_PREFIX@.len() as int,
            ),
        ) == Ok::<(UserId, DropId, i64), DataError>((unit, drop_id, rep)),
{
    let a = decimal(unit as nat);
    let b = decimal(drop_id as nat);
    let c = decimal(rep as nat);
    let rest = a + seq!['-'] + b + seq!['-'] + c;
    let d = unit_accept_data_spec(unit, drop_id, rep);
    assert(d =~= UNIT_ACCEPT_FEEDBACK_CALLBACK_PREFIX@ + rest);
    lemma_prefixed(UNIT_ACCEPT_FEEDBACK_CALLBACK_PREFIX@, rest);
    assert(!is_digit('-'));
    lemma_decimal_has_no(unit as nat, '-');
    lemma_decimal_has_no(drop_id as nat, '-');
    lemma_decimal_has_no(rep as nat, '-');
    lemma_three_fields_join(a, b, c);
    lemma_parse_u64_decimal(unit);
    lemma_parse_i64_decimal(drop_id);
    lemma_parse_i64_decimal(rep);
    lemma_accept_routes(rest);
}

proof fn lemma_accept_routes(rest: Seq<char>)
    ensures
        route_callback_spec(UNIT_ACCEPT_FEEDBACK_CALLBACK_PREFIX@ + rest) == Some(
            CallbackRoute::UnitAcceptReport,
        ),
{
    lemma_callback_names_spelled();
    let d = UNIT_ACCEPT_FEEDBACK_CALLBACK_PREFIX@ + rest;
    lemma_prefixed(UNIT_ACCEPT_FEEDBACK_CALLBACK_PREFIX@, rest);
    assert(d[0] == 'u' && d[5] == 'a');
}

} // verus!
