use oktebot::bot::args::{
    get_args, parse_mention_and_value, parse_mention_arg, InvalidMentionError, Mention,
    ParserState,
};
use oktebot::oknoid::UsersNames;
use oktebot::utils::Mention as Legacy;

fn username_of(m: &Mention) -> Option<String> {
    match m {
        Mention::Username(u) => Some(u.clone()),
        Mention::UserId(_) => None,
    }
}

fn id_of(m: &Mention) -> Option<u64> {
    match m {
        Mention::Username(_) => None,
        Mention::UserId(id) => Some(*id),
    }
}

#[test]
fn parser_state_reads_tokens_in_order() {
    let mut state = ParserState::new("   @alice  42\t-7  ");
    let m: Option<Mention> = state.parse::<Mention>();
    assert_eq!(username_of(&m.unwrap()), Some("alice".to_string()));
    assert!(!state.is_empty());
    assert_eq!(state.parse::<i64>(), Some(42));
    assert_eq!(state.parse::<i64>(), Some(-7));
    assert!(state.is_empty());
    assert_eq!(state.parse::<i64>(), None);
}

#[test]
fn parser_state_new_trims_only_the_start() {
    let state = ParserState::new(" \n\t ");
    assert!(state.is_empty());
    let state = ParserState::new("x");
    assert!(!state.is_empty());
}

#[test]
fn parser_state_unicode_whitespace_separates() {
    let mut state = ParserState::new("\u{3000}12\u{00A0}34");
    assert_eq!(state.parse::<u64>(), Some(12));
    assert_eq!(state.parse::<u64>(), Some(34));
    assert!(state.is_empty());
}

#[test]
fn parser_state_bad_token_is_consumed() {
    let mut state = ParserState::new("abc 5");
    assert_eq!(state.parse::<i64>(), None);
    assert_eq!(state.parse::<i64>(), Some(5));
}

#[test]
fn integer_grammar_matches_str_parse() {
    for s in ["0", "+5", "-5", "+", "-", "", "12a", "9223372036854775807", "9223372036854775808",
        "-9223372036854775808", "-9223372036854775809", "18446744073709551615",
        "18446744073709551616", "007", "+-1", "4294967295", "4294967296", "١٢"] {
        let mut st = ParserState::new(s);
        assert_eq!(st.parse::<i64>(), s.parse::<i64>().ok(), "i64 {s:?}");
        let mut st = ParserState::new(s);
        assert_eq!(st.parse::<u64>(), s.parse::<u64>().ok(), "u64 {s:?}");
        let mut st = ParserState::new(s);
        assert_eq!(st.parse::<u32>(), s.parse::<u32>().ok(), "u32 {s:?}");
        let mut st = ParserState::new(s);
        assert_eq!(st.parse::<usize>(), s.parse::<usize>().ok(), "usize {s:?}");
    }
}

#[test]
fn mention_from_str() {
    let m = Mention::from_str("@bob").ok().unwrap();
    assert_eq!(username_of(&m), Some("bob".to_string()));
    let m = Mention::from_str("@").ok().unwrap();
    assert_eq!(username_of(&m), Some(String::new()));
    let m = Mention::from_str("123").ok().unwrap();
    assert_eq!(id_of(&m), Some(123));
    let m = Mention::from_str("+123").ok().unwrap();
    assert_eq!(id_of(&m), Some(123));
    assert!(matches!(Mention::from_str("bob"), Err(InvalidMentionError)));
    assert!(matches!(Mention::from_str("-1"), Err(InvalidMentionError)));
    assert!(matches!(Mention::from_str(""), Err(InvalidMentionError)));
}

#[test]
fn mention_resolve() {
    let mut names = UsersNames::new();
    names.add(7, Some("seven"), "Seven");
    let m = Mention::from_str("@seven").ok().unwrap();
    assert_eq!(m.resolve(&names), Some(7));
    let m = Mention::from_str("@nobody").ok().unwrap();
    assert_eq!(m.resolve(&names), None);
    let m = Mention::from_str("99").ok().unwrap();
    assert_eq!(m.resolve(&names), Some(99));
}

#[test]
fn get_args_skips_the_command() {
    assert_eq!(get_args(Some("/info   @bob ")), "@bob ");
    assert_eq!(get_args(Some("/info")), "");
    assert_eq!(get_args(Some("/rep @a 5")), "@a 5");
    assert_eq!(get_args(Some("/x\n\n y")), "y");
    assert_eq!(get_args(None), "");
}

#[test]
fn parse_mention_arg_needs_exactly_one() {
    assert_eq!(username_of(&parse_mention_arg("  @bob ").unwrap()), Some("bob".to_string()));
    assert_eq!(id_of(&parse_mention_arg("15").unwrap()), Some(15));
    assert!(parse_mention_arg("").is_none());
    assert!(parse_mention_arg("@a @b").is_none());
    assert!(parse_mention_arg("bob").is_none());
}

#[test]
fn parse_mention_and_value_needs_exactly_two() {
    let (m, v) = parse_mention_and_value("@bob -3").unwrap();
    assert_eq!(username_of(&m), Some("bob".to_string()));
    assert_eq!(v, -3);
    assert!(parse_mention_and_value("@bob").is_none());
    assert!(parse_mention_and_value("@bob 1 2").is_none());
    assert!(parse_mention_and_value("@bob x").is_none());
    let (m, v) = parse_mention_and_value("12 +4").unwrap();
    assert_eq!(id_of(&m), Some(12));
    assert_eq!(v, 4);
}

#[test]
fn legacy_mention_parse() {
    match Legacy::parse("@carol") {
        Some(Legacy::Username(u)) => assert_eq!(u, "carol"),
        _ => panic!("expected a username"),
    }
    match Legacy::parse("77") {
        Some(Legacy::UserId(id)) => assert_eq!(id, 77),
        _ => panic!("expected an id"),
    }
    assert!(Legacy::parse("carol").is_none());
}

#[test]
fn parser_state_reads_numbers_and_strings() {
    let mut st = ParserState::new("  42 abc");
    assert_eq!(st.parse::<i32>(), Some(42));
    assert_eq!(st.parse::<String>(), Some(String::from("abc")));
    assert!(st.is_empty());
    assert_eq!(st.parse::<String>(), Some(String::new()));
    assert_eq!(st.parse::<i32>(), None);
}

#[test]
fn parser_state_splits_after_ideographic_space() {
    let mut st = ParserState::new("a\u{3000}b");
    assert_eq!(st.parse::<String>(), Some("a".to_string()));
    assert_eq!(st.parse::<String>(), Some("b".to_string()));
    assert!(st.is_empty());
}

#[test]
fn i32_grammar_matches_str_parse() {
    for s in ["0", "+7", "-7", "2147483647", "2147483648", "-2147483648", "-2147483649", "", "-", "x1"] {
        let mut st = ParserState::new(s);
        assert_eq!(st.parse::<i32>(), s.parse::<i32>().ok(), "i32 {s:?}");
    }
}
