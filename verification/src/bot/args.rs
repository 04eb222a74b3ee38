//! Command arguments: whitespace-separated tokens, and user mentions.
use vstd::prelude::*;
use crate::oknoid::{UserId, UsersNames};
use crate::text::{
    decimal, is_blank, is_ws, lemma_decimal_digits, lemma_non_ws_from_at, lemma_non_ws_from_bounds, lemma_ws_from_bounds, non_ws_from, lemma_parse_i64_decimal,
    lemma_parse_u64_decimal, lemma_ws_from_at, int_decimal, is_digit, args_after_command, head_before_ws, parse_i32, parse_i32_spec, parse_i64, parse_i64_spec, parse_u32,
    parse_u32_spec, parse_u64, parse_u64_spec, parse_usize, parse_usize_spec, split_once_ws,
    str_skip, str_trim_start, tail_after_ws, trim_start,
};
use vstd::string::*;

verus! {

/// The argument is neither `@username` nor a user id.
#[derive(Debug, Clone, Copy, PartialEq, Eq, Structural)]
pub struct InvalidMentionError;

/// A user named by `@username` or by id.
#[derive(Clone)]
pub enum Mention {
    Username(String),
    UserId(UserId),
}

pub enum MentionView {
    Username(Seq<char>),
    UserId(UserId),
}

impl View for Mention {
    type V = MentionView;

    open spec fn view(&self) -> MentionView {
        match self {
            Mention::Username(u) => MentionView::Username(u@),
            Mention::UserId(id) => MentionView::UserId(*id),
        }
    }
}

/// `@name` is a username (the `@` dropped); otherwise the text must be a user id.
pub open spec fn parse_mention_spec(s: Seq<char>) -> Option<MentionView> {
    if s.len() > 0 && s[0] == '@' {
        Some(MentionView::Username(s.drop_first()))
    } else {
        match parse_u64_spec(s) {
            Some(id) => Some(MentionView::UserId(id)),
            None => None,
        }
    }
}

impl Mention {
    /// The user a mention names, by the names index for a username.
    pub fn resolve(&self, names: &UsersNames) -> (r: Option<UserId>)
        ensures
            r == (match self@ {
                MentionView::Username(u) => names@.usernames.get(u),
                MentionView::UserId(id) => Some(id),
            }),
    {
        match self {
            Mention::Username(username) => names.get_id_by_username(username.as_str()),
            Mention::UserId(id) => Some(*id),
        }
    }

    pub fn from_str(val: &str) -> (r: Result<Mention, InvalidMentionError>)
        ensures
            parse_mention_spec(val@) matches Some(m) ==> (r matches Ok(x) && x@ == m),
            parse_mention_spec(val@) is None ==> r == Err::<Mention, InvalidMentionError>(
                InvalidMentionError,
            ),
    {
        if val.unicode_len() > 0 && val.get_char(0) == '@' {
            let rest = str_skip(val, 1);
            assert(rest@ =~= val@.drop_first());
            Ok(Mention::Username(String::from_str(rest)))
        } else {
            match parse_u64(val) {
                Some(id) => Ok(Mention::UserId(id)),
                None => Err(InvalidMentionError),
            }
        }
    }
}

/// A value that a command argument can hold.
pub trait ArgValue: Sized {
    /// Whether `r` is what parsing the token `s` gives.
    spec fn parses_as(s: Seq<char>, r: Option<Self>) -> bool;

    fn parse_arg(s: &str) -> (r: Option<Self>)
        ensures
            Self::parses_as(s@, r),
    ;
}

impl ArgValue for i64 {
    open spec fn parses_as(s: Seq<char>, r: Option<i64>) -> bool {
        r == parse_i64_spec(s)
    }

    fn parse_arg(s: &str) -> (r: Option<i64>) {
        parse_i64(s)
    }
}

impl ArgValue for i32 {
    open spec fn parses_as(s: Seq<char>, r: Option<i32>) -> bool {
        r == parse_i32_spec(s)
    }

    fn parse_arg(s: &str) -> (r: Option<i32>) {
        parse_i32(s)
    }
}

/// Any token is a valid `String`.
impl ArgValue for String {
    open spec fn parses_as(s: Seq<char>, r: Option<String>) -> bool {
        r matches Some(x) && x@ == s
    }

    fn parse_arg(s: &str) -> (r: Option<String>) {
        Some(String::from_str(s))
    }
}

impl ArgValue for u64 {
    open spec fn parses_as(s: Seq<char>, r: Option<u64>) -> bool {
        r == parse_u64_spec(s)
    }

    fn parse_arg(s: &str) -> (r: Option<u64>) {
        parse_u64(s)
    }
}

impl ArgValue for u32 {
    open spec fn parses_as(s: Seq<char>, r: Option<u32>) -> bool {
        r == parse_u32_spec(s)
    }

    fn parse_arg(s: &str) -> (r: Option<u32>) {
        parse_u32(s)
    }
}

impl ArgValue for usize {
    open spec fn parses_as(s: Seq<char>, r: Option<usize>) -> bool {
        r == parse_usize_spec(s)
    }

    fn parse_arg(s: &str) -> (r: Option<usize>) {
        parse_usize(s)
    }
}

impl ArgValue for Mention {
    open spec fn parses_as(s: Seq<char>, r: Option<Mention>) -> bool {
        match parse_mention_spec(s) {
            Some(m) => r matches Some(x) && x@ == m,
            None => r is None,
        }
    }

    fn parse_arg(s: &str) -> (r: Option<Mention>) {
        match Mention::from_str(s) {
            Ok(m) => Some(m),
            Err(_) => None,
        }
    }
}

/// The first token of the arguments (with leading whitespace already gone).
pub open spec fn first_token(s: Seq<char>) -> Seq<char> {
    head_before_ws(s)
}

/// What remains of the arguments after their first token.
pub open spec fn after_first_token(s: Seq<char>) -> Seq<char> {
    trim_start(tail_after_ws(s))
}

/// Reads whitespace-separated arguments one by one.
pub struct ParserState<'s> {
    source: &'s str,
}

impl<'s> View for ParserState<'s> {
    type V = Seq<char>;

    /// The arguments not read yet.
    closed spec fn view(&self) -> Seq<char> {
        self.source@
    }
}

impl<'s> ParserState<'s> {
    pub fn new(source: &'s str) -> (r: Self)
        ensures
            r@ == trim_start(source@),
    {
        ParserState { source: str_trim_start(source) }
    }

    /// Takes the next token, and parses it as a `T`.
    pub fn parse<T: ArgValue>(&mut self) -> (r: Option<T>)
        ensures
            T::parses_as(first_token(old(self)@), r),
            final(self)@ == after_first_token(old(self)@),
    {
        let current = match split_once_ws(self.source) {
            Some((head, tail)) => {
                self.source = tail;
                head
            },
            None => {
                let all = self.source;
                self.source = "";
                proof {
                    reveal_strlit("");
                    assert(all@ =~= head_before_ws(all@)) by {
                        crate::text::lemma_ws_from_bounds(all@, 0);
                    }
                    assert(self.source@ =~= tail_after_ws(all@));
                }
                all
            },
        };
        self.source = str_trim_start(self.source);
        T::parse_arg(current)
    }

    pub fn is_empty(&self) -> (r: bool)
        ensures
            r == (self@.len() == 0),
    {
        self.source.unicode_len() == 0
    }
}

/// The arguments of a command message: the text after the command and the
/// whitespace that follows it.
pub open spec fn get_args_spec(text: Option<Seq<char>>) -> Seq<char> {
    match text {
        Some(t) => args_after_command(t),
        None => Seq::empty(),
    }
}

pub fn get_args<'a>(text: Option<&'a str>) -> (r: &'a str)
    ensures
        r@ == get_args_spec(
            match text {
                Some(t) => Some(t@),
                None => None,
            },
        ),
{
    proof {
        reveal_strlit("");
    }
    match text {
        Some(t) => match split_once_ws(t) {
            Some((_, args)) => str_trim_start(args),
            None => "",
        },
        None => "",
    }
}

/// The arguments hold exactly one token, a mention.
pub open spec fn mention_arg_spec(args: Seq<char>) -> Option<MentionView> {
    let s0 = trim_start(args);
    match parse_mention_spec(first_token(s0)) {
        Some(m) => if after_first_token(s0).len() == 0 {
            Some(m)
        } else {
            None
        },
        None => None,
    }
}

/// The arguments hold exactly two tokens, a mention and a number (the `/rep`
/// arguments).
pub open spec fn mention_value_spec(args: Seq<char>) -> Option<(MentionView, i64)> {
    let s0 = trim_start(args);
    let s1 = after_first_token(s0);
    let s2 = after_first_token(s1);
    match (parse_mention_spec(first_token(s0)), parse_i64_spec(first_token(s1))) {
        (Some(m), Some(v)) => if s2.len() == 0 {
            Some((m, v))
        } else {
            None
        },
        _ => None,
    }
}

/// Reads one mention, then requires that nothing remains.
pub fn parse_mention_arg(args: &str) -> (r: Option<Mention>)
    ensures
        match mention_arg_spec(args@) {
            Some(m) => r matches Some(x) && x@ == m,
            None => r is None,
        },
{
    let mut state = ParserState::new(args);
    let m = match state.parse::<Mention>() {
        Some(m) => m,
        None => return None,
    };
    if state.is_empty() {
        Some(m)
    } else {
        None
    }
}

/// Reads a mention and a number, then requires that nothing remains.
pub fn parse_mention_and_value(args: &str) -> (r: Option<(Mention, i64)>)
    ensures
        match mention_value_spec(args@) {
            Some((m, v)) => r matches Some(x) && x.0@ == m && x.1 == v,
            None => r is None,
        },
{
    let mut state = ParserState::new(args);
    let m = match state.parse::<Mention>() {
        Some(m) => m,
        None => return None,
    };
    let v = match state.parse::<i64>() {
        Some(v) => v,
        None => return None,
    };
    if state.is_empty() {
        Some((m, v))
    } else {
        None
    }
}

// ---------------------------------------------------------------------------
// The tokens of the arguments, and what a parser reads of them.
// ---------------------------------------------------------------------------

/// Trimming the start of a text leaves a text that starts with no whitespace.
pub proof fn lemma_trim_start_trimmed(s: Seq<char>)
    ensures
        trim_start(s).len() <= s.len(),
        trim_start(trim_start(s)) == trim_start(s),
        trim_start(s).len() > 0 ==> !is_ws(trim_start(s)[0]),
        trim_start(s).len() == 0 <==> is_blank(s),
{
    let n = non_ws_from(s, 0);
    lemma_non_ws_from_bounds(s, 0);
    let t = trim_start(s);
    if t.len() > 0 {
        assert(t[0] == s[n]);
        lemma_non_ws_from_at(t, 0, 0);
    } else {
        lemma_non_ws_from_at(t, 0, 0);
    }
    assert(t.skip(0) =~= t);
    if t.len() > 0 {
        assert(!is_ws(s[n]));
    } else {
        assert forall|i: int| 0 <= i < s.len() implies is_ws(#[trigger] s[i]) by {}
    }
    if is_blank(s) && n < s.len() {
        assert(is_ws(s[n]));
    }
}

/// Taking a token leaves a shorter, trimmed text.
pub proof fn lemma_after_first_token_shorter(t: Seq<char>)
    requires
        t.len() > 0,
    ensures
        after_first_token(t).len() < t.len(),
        trim_start(after_first_token(t)) == after_first_token(t),
{
    lemma_ws_from_bounds(t, 0);
    lemma_trim_start_trimmed(tail_after_ws(t));
}

/// The whitespace-separated tokens of `s`, in order (`s.split_whitespace()`).
pub open spec fn tokens(s: Seq<char>) -> Seq<Seq<char>>
    decreases s.len(),
{
    let t = trim_start(s);
    if t.len() == 0 {
        Seq::empty()
    } else {
        proof {
            lemma_trim_start_trimmed(s);
            lemma_after_first_token_shorter(t);
        }
        seq![first_token(t)] + tokens(after_first_token(t))
    }
}

/// What remains to be read after `k` tokens were taken from `v`.
pub open spec fn after_tokens(v: Seq<char>, k: nat) -> Seq<char>
    decreases k,
{
    if k == 0 {
        v
    } else {
        after_first_token(after_tokens(v, (k - 1) as nat))
    }
}

proof fn lemma_after_tokens_shift(v: Seq<char>, k: nat)
    ensures
        after_tokens(v, k + 1) == after_tokens(after_first_token(v), k),
    decreases k,
{
    if k > 0 {
        lemma_after_tokens_shift(v, (k - 1) as nat);
        assert(after_tokens(v, k + 1) == after_first_token(after_tokens(v, k)));
        assert(after_tokens(after_first_token(v), k) == after_first_token(
            after_tokens(after_first_token(v), (k - 1) as nat),
        ));
    } else {
        assert(after_tokens(v, 1) == after_first_token(after_tokens(v, 0)));
    }
}

proof fn lemma_nothing_left(k: nat)
    ensures
        after_tokens(Seq::<char>::empty(), k) == Seq::<char>::empty(),
        first_token(Seq::<char>::empty()) == Seq::<char>::empty(),
    decreases k,
{
    let e = Seq::<char>::empty();
    assert(e.take(0) =~= e);
    assert(e.skip(0) =~= e);
    if k > 0 {
        lemma_nothing_left((k - 1) as nat);
    }
}

proof fn lemma_reads_trimmed(v: Seq<char>, k: nat)
    requires
        trim_start(v) == v,
    ensures
        k < tokens(v).len() ==> after_tokens(v, k).len() > 0 && first_token(after_tokens(v, k))
            == tokens(v)[k as int],
        k >= tokens(v).len() ==> after_tokens(v, k).len() == 0,
    decreases k,
{
    if v.len() == 0 {
        assert(v =~= Seq::<char>::empty());
        lemma_nothing_left(k);
    } else {
        assert(tokens(v) == seq![first_token(v)] + tokens(after_first_token(v)));
    }
    if v.len() > 0 && k > 0 {
        lemma_after_first_token_shorter(v);
        lemma_after_tokens_shift(v, (k - 1) as nat);
        lemma_reads_trimmed(after_first_token(v), (k - 1) as nat);
    }
}

/// A parser made from `s` (whose state is `trim_start(s)`), after `k` reads,
/// reads the `k`-th token of `s`; once the tokens are used up it is empty,
/// and every further read parses the empty text.
pub proof fn lemma_parser_reads_tokens_in_order(s: Seq<char>, k: nat)
    ensures
        k < tokens(s).len() ==> first_token(after_tokens(trim_start(s), k)) == tokens(s)[k as int],
        k >= tokens(s).len() ==> first_token(after_tokens(trim_start(s), k)) == Seq::<char>::empty(),
        (after_tokens(trim_start(s), k).len() == 0) == (k >= tokens(s).len()),
{
    lemma_trim_start_trimmed(s);
    let t = trim_start(s);
    assert(tokens(t) == tokens(s));
    lemma_reads_trimmed(t, k);
    if k >= tokens(s).len() {
        lemma_nothing_left(0);
    }
}

/// The terms in which `parse_mention_arg` and `parse_mention_and_value` are
/// stated, read as tokens: the first and second reads give the first and
/// second tokens (or nothing), and the arguments are used up after one read
/// exactly when there is at most one token, after two when at most two.
pub proof fn lemma_arguments_as_tokens(s: Seq<char>)
    ensures
        ({
            let s0 = trim_start(s);
            let s1 = after_first_token(s0);
            let n = tokens(s).len();
            &&& first_token(s0) == (if n > 0 { tokens(s)[0] } else { Seq::<char>::empty() })
            &&& first_token(s1) == (if n > 1 { tokens(s)[1] } else { Seq::<char>::empty() })
            &&& (s1.len() == 0) == (n <= 1)
            &&& (after_first_token(s1).len() == 0) == (n <= 2)
        }),
{
    let s0 = trim_start(s);
    lemma_parser_reads_tokens_in_order(s, 0);
    lemma_parser_reads_tokens_in_order(s, 1);
    lemma_parser_reads_tokens_in_order(s, 2);
    assert(after_tokens(s0, 1) == after_first_token(after_tokens(s0, 0)));
    assert(after_tokens(s0, 2) == after_first_token(after_tokens(s0, 1)));
}

/// A new parser is empty exactly when its source is nothing but whitespace.
pub proof fn lemma_new_parser_empty_iff_blank(s: Seq<char>)
    ensures
        (trim_start(s).len() == 0) == is_blank(s),
        (trim_start(s).len() == 0) == (tokens(s).len() == 0),
{
    lemma_trim_start_trimmed(s);
}

/// The tokens are words: non-empty runs of characters other than whitespace.
pub proof fn lemma_tokens_are_words(s: Seq<char>)
    ensures
        forall|i: int| 0 <= i < tokens(s).len() ==> is_word(#[trigger] tokens(s)[i]),
    decreases s.len(),
{
    let t = trim_start(s);
    lemma_trim_start_trimmed(s);
    if t.len() > 0 {
        lemma_after_first_token_shorter(t);
        lemma_tokens_are_words(after_first_token(t));
        lemma_ws_from_bounds(t, 0);
        let w = first_token(t);
        assert(w.len() > 0);
        assert forall|j: int| 0 <= j < w.len() implies !is_ws(#[trigger] w[j]) by {
            assert(w[j] == t[j]);
        }
        assert forall|i: int| 0 <= i < tokens(s).len() implies is_word(#[trigger] tokens(s)[i]) by {
            if i > 0 {
                assert(tokens(s)[i] == tokens(after_first_token(t))[i - 1]);
            }
        }
    }
}

// ---------------------------------------------------------------------------
// Arguments written as separate words are read back one by one.
// ---------------------------------------------------------------------------

/// A word: non-empty, without whitespace.
pub open spec fn is_word(t: Seq<char>) -> bool {
    t.len() > 0 && forall|i: int| 0 <= i < t.len() ==> !is_ws(#[trigger] t[i])
}

/// A word followed by a space and more text is read as the first token,
/// and the rest without its leading whitespace remains; a word alone is read
/// and nothing remains.
pub proof fn lemma_word_then_rest(t: Seq<char>, r: Seq<char>)
    requires
        is_word(t),
    ensures
        first_token(t + seq![' '] + r) == t,
        after_first_token(t + seq![' '] + r) == trim_start(r),
        trim_start(t + seq![' '] + r) == t + seq![' '] + r,
        first_token(t) == t,
        after_first_token(t).len() == 0,
        trim_start(t) == t,
{
    let s = t + seq![' '] + r;
    assert forall|j: int| 0 <= j < t.len() implies !is_ws(#[trigger] s[j]) by {
        assert(s[j] == t[j]);
    }
    assert(is_ws(s[t.len() as int]));
    lemma_ws_from_at(s, 0, t.len() as int);
    assert(s.take(t.len() as int) =~= t);
    assert(s.skip(t.len() as int + 1) =~= r);
    lemma_non_ws_from_at(s, 0, 0);
    assert(s.skip(0) =~= s);
    lemma_ws_from_at(t, 0, t.len() as int);
    assert(t.take(t.len() as int) =~= t);
    lemma_non_ws_from_at(t, 0, 0);
    assert(t.skip(0) =~= t);
    let e = Seq::<char>::empty();
    lemma_non_ws_from_at(e, 0, 0);
}

/// The arguments of a command are what follows the command word and
/// the space after it, without leading whitespace.
pub proof fn lemma_args_after_command_word(command: Seq<char>, args: Seq<char>)
    requires
        is_word(command),
    ensures
        get_args_spec(Some(command + seq![' '] + args)) == trim_start(args),
{
    let s = command + seq![' '] + args;
    lemma_word_then_rest(command, args);
    assert forall|j: int| 0 <= j < command.len() implies !is_ws(#[trigger] s[j]) by {
        assert(s[j] == command[j]);
    }
    lemma_ws_from_at(s, 0, command.len() as int);
}

/// `@name` alone is read as that username.
pub proof fn lemma_username_arg_roundtrip(name: Seq<char>)
    requires
        forall|i: int| 0 <= i < name.len() ==> !is_ws(#[trigger] name[i]),
    ensures
        ({
            let s = seq!['@'] + name;
            let s0 = trim_start(s);
            &&& first_token(s0) == s
            &&& after_first_token(s0).len() == 0
            &&& parse_mention_spec(first_token(s0)) == Some(MentionView::Username(name))
        }),
{
    let s = seq!['@'] + name;
    assert(!is_ws('@'));
    assert forall|i: int| 0 <= i < s.len() implies !is_ws(#[trigger] s[i]) by {
        if i > 0 {
            assert(s[i] == name[i - 1]);
        }
    }
    lemma_word_then_rest(s, Seq::empty());
    assert(s.drop_first() =~= name);
}

/// A user id written in decimal alone is read as that id.
pub proof fn lemma_user_id_arg_roundtrip(id: UserId)
    ensures
        ({
            let s = decimal(id as nat);
            let s0 = trim_start(s);
            &&& first_token(s0) == s
            &&& after_first_token(s0).len() == 0
            &&& parse_mention_spec(first_token(s0)) == Some(MentionView::UserId(id))
        }),
{
    let s = decimal(id as nat);
    lemma_decimal_digits(id as nat);
    assert forall|i: int| 0 <= i < s.len() implies !is_ws(#[trigger] s[i]) by {
        assert(is_digit(s[i]));
    }
    lemma_word_then_rest(s, Seq::empty());
    lemma_parse_u64_decimal(id);
    assert(is_digit(s[0]));
}

/// `@name value` is read as the username and the value (the `/rep` arguments).
pub proof fn lemma_mention_value_args_roundtrip(name: Seq<char>, v: i64)
    requires
        forall|i: int| 0 <= i < name.len() ==> !is_ws(#[trigger] name[i]),
    ensures
        ({
            let s = seq!['@'] + name + seq![' '] + int_decimal(v as int);
            let s0 = trim_start(s);
            let s1 = after_first_token(s0);
            &&& parse_mention_spec(first_token(s0)) == Some(MentionView::Username(name))
            &&& parse_i64_spec(first_token(s1)) == Some(v)
            &&& after_first_token(s1).len() == 0
        }),
{
    let m = seq!['@'] + name;
    let d = int_decimal(v as int);
    assert(!is_ws('@'));
    assert forall|i: int| 0 <= i < m.len() implies !is_ws(#[trigger] m[i]) by {
        if i > 0 {
            assert(m[i] == name[i - 1]);
        }
    }
    lemma_word_then_rest(m, d);
    assert(m.drop_first() =~= name);
    let mag: nat = if v < 0 { (-v) as nat } else { v as nat };
    lemma_decimal_digits(mag);
    assert(!is_ws('-'));
    assert forall|i: int| 0 <= i < d.len() implies !is_ws(#[trigger] d[i]) by {
        if v < 0 {
            if i > 0 {
                assert(d[i] == decimal(mag)[i - 1]);
                assert(is_digit(decimal(mag)[i - 1]));
            }
        } else {
            assert(is_digit(d[i]));
        }
    }
    assert(d.len() > 0);
    assert(!is_ws(d[0]));
    lemma_non_ws_from_at(d, 0, 0);
    assert(d.skip(0) =~= d);
    lemma_word_then_rest(d, Seq::empty());
    lemma_parse_i64_decimal(v);
}

} // verus!
