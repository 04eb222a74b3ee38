use oktebot::bot::command::Command;
use oktebot::bot::scheme::{
    parse_profile_data, parse_support_selected_data, parse_top_data, parse_unit_accept_data,
    parse_unit_feedback_data, profile_data, route_callback, route_message, support_selected_data,
    top_data, unit_accept_data, unit_feedback_data, CallbackRoute, DataError, MessageRoute,
    TOP_CALLBACK,
};
use oktebot::bot::session::SessionState;
use oktebot::bot::support::SupportCategory;
use oktebot::bot::utils::{callback_filter, callback_prefix_filter};

#[test]
fn data_formats() {
    assert_eq!(profile_data(42), "profile42");
    assert_eq!(top_data(3), "top3");
    assert_eq!(unit_feedback_data(-5), "unit-feedback-5");
    assert_eq!(unit_accept_data(7, 12, 3), "unit-accept7-12-3");
    assert_eq!(support_selected_data(SupportCategory::Bugreport), "support-selected2");
    assert_eq!(top_data(0), TOP_CALLBACK);
}

#[test]
fn roundtrips_reach_their_handlers() {
    for id in [0u64, 9, u64::MAX] {
        let d = profile_data(id);
        assert_eq!(route_callback(Some(&d)), Some(CallbackRoute::Profile));
        assert_eq!(parse_profile_data(&d), Ok(id));
    }
    for page in [0u32, 1, u32::MAX] {
        let d = top_data(page);
        assert_eq!(route_callback(Some(&d)), Some(CallbackRoute::Top));
        assert_eq!(parse_top_data(&d), Ok(page));
    }
    for drop in [0i64, 77, -3, i64::MIN] {
        let d = unit_feedback_data(drop);
        assert_eq!(route_callback(Some(&d)), Some(CallbackRoute::UnitReport));
        assert_eq!(parse_unit_feedback_data(&d), Ok(drop));
    }
    for rep in [1i64, 2, 3] {
        let d = unit_accept_data(1234, 56, rep);
        assert_eq!(route_callback(Some(&d)), Some(CallbackRoute::UnitAcceptReport));
        assert_eq!(parse_unit_accept_data(&d), Ok((1234, 56, rep)));
    }
    for c in [SupportCategory::ChangeSubmit, SupportCategory::SuggestDrop, SupportCategory::Bugreport, SupportCategory::Other] {
        let d = support_selected_data(c);
        assert_eq!(route_callback(Some(&d)), Some(CallbackRoute::SupportSelected));
        assert_eq!(parse_support_selected_data(&d), Ok(c));
    }
}

#[test]
fn negative_drop_breaks_accept_data() {
    let d = unit_accept_data(1, -2, 1);
    assert_eq!(route_callback(Some(&d)), Some(CallbackRoute::UnitAcceptReport));
    assert_eq!(parse_unit_accept_data(&d), Err(DataError::FailedParse));
}

#[test]
fn malformed_data() {
    assert_eq!(parse_profile_data("profilex"), Err(DataError::FailedParse));
    assert_eq!(parse_top_data("top-1"), Err(DataError::InvalidNumber));
    assert_eq!(parse_unit_accept_data("unit-accept1-2"), Err(DataError::FailedParse));
    assert_eq!(parse_unit_accept_data("unit-accept1-2-3-4"), Err(DataError::FailedParse));
    assert_eq!(parse_unit_accept_data("unit-accepta-2-3"), Err(DataError::InvalidNumber));
    assert_eq!(parse_support_selected_data("support-selected4"), Err(DataError::UnknownCategory));
    assert_eq!(parse_support_selected_data("support-selectedx"), Err(DataError::FailedParse));
}

#[test]
fn fixed_routes() {
    let cases = [
        ("cancel", CallbackRoute::Cancel),
        ("help", CallbackRoute::Help),
        ("bio", CallbackRoute::Bio),
        ("menu", CallbackRoute::MainMenu),
        ("unit-info", CallbackRoute::UnitInfo),
        ("me", CallbackRoute::Me),
        ("support", CallbackRoute::Support),
        ("unit-join", CallbackRoute::UnitJoin),
        ("drops-history", CallbackRoute::DropsHistory),
    ];
    for (d, r) in cases {
        assert_eq!(route_callback(Some(d)), Some(r));
    }
    assert_eq!(route_callback(Some("unknown")), None);
    assert_eq!(route_callback(Some("mee")), None);
    assert_eq!(route_callback(None), None);
}

#[test]
fn message_routes() {
    assert_eq!(
        route_message(Some(Command::Top), SessionState::WaitBioMessage),
        Some(MessageRoute::Command(Command::Top))
    );
    assert_eq!(route_message(None, SessionState::WaitBioMessage), Some(MessageRoute::BioMessage));
    assert_eq!(
        route_message(None, SessionState::WaitUnitReport { drop_id: 4 }),
        Some(MessageRoute::UnitReportMessage(4))
    );
    assert_eq!(
        route_message(None, SessionState::WaitSupportMessage { category: SupportCategory::Other }),
        Some(MessageRoute::SupportMessage(SupportCategory::Other))
    );
    assert_eq!(route_message(None, SessionState::Idle), None);
    assert_eq!(SessionState::default(), SessionState::Idle);
}

#[test]
fn filters() {
    assert!(callback_filter(Some("help"), "help"));
    assert!(!callback_filter(Some("help2"), "help"));
    assert!(!callback_filter(None, "help"));
    assert!(callback_prefix_filter(Some("top12"), "top"));
    assert!(!callback_prefix_filter(Some("to"), "top"));
    assert!(!callback_prefix_filter(None, "top"));
    assert!(oktebot::utils::callback_filter(Some("x"), "x"));
}

#[test]
fn support_categories() {
    for i in 0usize..4 {
        let c = SupportCategory::from_usize(i).unwrap();
        assert_eq!(c.to_usize(), i);
    }
    assert!(SupportCategory::from_usize(4).is_none());
    assert_eq!(SupportCategory::SuggestDrop.as_str(), "Предложить дроп");
}
