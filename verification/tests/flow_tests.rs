use oktebot::bot::oknounit::{
    prepare_accept_report, AcceptError, AcceptQuery, AcceptReportFlow, AcceptStage, AcceptStep,
    ReportQuery, ReportStage, ReportStep, UnitReportFlow,
};
use oktebot::bot::scheme::{unit_accept_data, DataError};
use oktebot::bot::session::SessionState;
use oktebot::oknoid::UsersNames;

fn run(banned: bool, exists: bool, completed: bool) -> (ReportStep, usize) {
    let (mut flow, mut step) = UnitReportFlow::start(5, 9);
    let mut questions = 0;
    loop {
        match step {
            ReportStep::Query(q) => {
                questions += 1;
                let answer = match q {
                    ReportQuery::IsBanned(id) => {
                        assert_eq!(id, 9);
                        banned
                    }
                    ReportQuery::DropExists(d) => {
                        assert_eq!(d, 5);
                        exists
                    }
                    ReportQuery::DropCompleted(d, id) => {
                        assert_eq!((d, id), (5, 9));
                        completed
                    }
                };
                step = flow.feed(answer);
            }
            other => {
                assert_eq!(flow.stage, ReportStage::Done);
                return (other, questions);
            }
        }
    }
}

#[test]
fn report_flow_outcomes() {
    for banned in [false, true] {
        for exists in [false, true] {
            for completed in [false, true] {
                let (step, questions) = run(banned, exists, completed);
                assert!(questions <= 3);
                match step {
                    ReportStep::Refuse(r) => {
                        assert!(banned);
                        assert_eq!(r.text, "Вы забанены");
                        assert_eq!(questions, 1);
                    }
                    ReportStep::Answer(t) => {
                        assert!(!banned);
                        if !exists {
                            assert_eq!(t, "Дропа с таким id не существует!");
                        } else {
                            assert!(completed);
                            assert_eq!(t, "Вы уже выполнили этот дроп.");
                        }
                    }
                    ReportStep::Start(state, prompt) => {
                        assert!(!banned && exists && !completed);
                        assert_eq!(state, SessionState::WaitUnitReport { drop_id: 5 });
                        assert_eq!(prompt.text, "киньте скрин вашего комментария/отзыва");
                    }
                    ReportStep::Query(_) => unreachable!(),
                }
            }
        }
    }
}

#[test]
fn accept_report_targets() {
    let mut names = UsersNames::new();
    names.add(31, Some("unit"), "Unit");
    names.add(32, None, "Nameless");
    let t = prepare_accept_report(&unit_accept_data(31, 5, 2), &names).ok().unwrap();
    assert_eq!((t.unit_id, t.drop_id, t.rep, t.username.as_str()), (31, 5, 2, "unit"));
    assert!(matches!(prepare_accept_report(&unit_accept_data(32, 5, 2), &names), Err(AcceptError::NoUsername)));
    assert!(matches!(prepare_accept_report(&unit_accept_data(33, 5, 2), &names), Err(AcceptError::NoUsername)));
    assert!(matches!(
        prepare_accept_report("unit-accept31-5", &names),
        Err(AcceptError::Data(DataError::FailedParse))
    ));
    assert!(matches!(
        prepare_accept_report("unit-accept31-x-1", &names),
        Err(AcceptError::Data(DataError::InvalidNumber))
    ));
}

/// Runs an accept press: the database answers `privileged`, `newly` and
/// gives the new reputation `rep + 10`; returns the last step and the
/// questions asked.
fn accept(data: &str, names: &UsersNames, privileged: bool, newly: bool) -> (AcceptStep, Vec<AcceptQuery>) {
    let (mut flow, mut step) = AcceptReportFlow::start(77);
    let mut asked = Vec::new();
    loop {
        match step {
            AcceptStep::Query(q) => {
                asked.push(q);
                step = match q {
                    AcceptQuery::IsPrivileged(user) => {
                        assert_eq!(user, 77);
                        flow.on_privileges(privileged, data, names)
                    }
                    AcceptQuery::MarkCompleted(_, _) => flow.on_marked(newly),
                    AcceptQuery::AddReputation(_, rep) => flow.on_reputation(rep + 10),
                };
            }
            other => {
                assert_eq!(flow.stage, AcceptStage::Done);
                return (other, asked);
            }
        }
    }
}

#[test]
fn accept_flow_outcomes() {
    let mut names = UsersNames::new();
    names.add(31, Some("unit"), "Unit");
    let data = unit_accept_data(31, 5, 2);

    let (step, asked) = accept(&data, &names, false, true);
    assert!(matches!(step, AcceptStep::Refuse(ref r) if r.text == "У вас недостаточно прав!"));
    assert_eq!(asked, vec![AcceptQuery::IsPrivileged(77)]);

    let (step, asked) = accept("unit-accept31-5", &names, true, true);
    assert!(matches!(step, AcceptStep::Fail(AcceptError::Data(DataError::FailedParse))));
    assert_eq!(asked.len(), 1);

    let (step, asked) = accept(&unit_accept_data(40, 5, 2), &names, true, true);
    assert!(matches!(step, AcceptStep::Fail(AcceptError::NoUsername)));
    assert_eq!(asked.len(), 1);

    let (step, asked) = accept(&data, &names, true, false);
    assert!(matches!(step, AcceptStep::Answer(ref t) if t == "Дроп уже был выполнен данным пользователем."));
    assert_eq!(asked, vec![AcceptQuery::IsPrivileged(77), AcceptQuery::MarkCompleted(5, 31)]);

    let (step, asked) = accept(&data, &names, true, true);
    assert_eq!(
        asked,
        vec![AcceptQuery::IsPrivileged(77), AcceptQuery::MarkCompleted(5, 31), AcceptQuery::AddReputation(31, 2)]
    );
    match step {
        AcceptStep::Accepted(a) => {
            assert_eq!(a.admin_text, "Дроп был отмечен как выполненный для @unit.\nОбновленная репутация: 12");
            assert_eq!(a.unit_text, "Ваша заявка по дропу 5 была принята.");
            assert_eq!(a.keyboard.len(), 1);
        }
        _ => panic!("the report is accepted"),
    }
}

use oktebot::bot::oknounit::{DropFlow, DropStage, DropStep};
use oktebot::bot::profile::{
    check_registration, AdminCommand, AdminCommandFlow, AdminQuery, AdminStage, AdminStep,
    Registration,
};
use oktebot::oknoid::{roles_ordered, Role};

/// Runs an admin command against a database whose answers are given: whether
/// the sender passes the check, the flag answer, and the reputation before the
/// change. Returns the last step and the queries made.
fn admin(
    command: AdminCommand,
    args: &str,
    names: &UsersNames,
    allowed: bool,
    flag: bool,
) -> (AdminStep, Vec<AdminQuery>) {
    let (mut flow, mut step) = AdminCommandFlow::start(command, 900);
    let mut queries = Vec::new();
    loop {
        match step {
            AdminStep::Query(q) => {
                queries.push(q);
                step = match q {
                    AdminQuery::IsPrivileged(_) | AdminQuery::IsSuperAdmin(_) => {
                        flow.on_checked(allowed, args, names)
                    }
                    AdminQuery::GiveAdmin(_) | AdminQuery::TakeAdmin(_) | AdminQuery::IsBanned(_) => {
                        flow.on_flag(flag)
                    }
                    AdminQuery::AddReputation(_, v) => flow.on_reputation(100 + v),
                    AdminQuery::SetBanned(_, _) => flow.on_written(),
                };
            }
            other => {
                assert_eq!(flow.stage(), AdminStage::Done);
                return (other, queries);
            }
        }
    }
}

fn changes(q: &AdminQuery) -> bool {
    matches!(
        q,
        AdminQuery::GiveAdmin(_) | AdminQuery::TakeAdmin(_) | AdminQuery::AddReputation(_, _) | AdminQuery::SetBanned(_, _)
    )
}

#[test]
fn admin_commands_are_refused_without_rights() {
    let mut names = UsersNames::new();
    names.add(5, Some("target"), "T");
    for (command, args) in [
        (AdminCommand::AddAdmin, "@target"),
        (AdminCommand::DelAdmin, "@target"),
        (AdminCommand::ChangeRep, "@target 5"),
        (AdminCommand::Ban, "@target"),
        (AdminCommand::Unban, "5"),
    ] {
        let (step, queries) = admin(command, args, &names, false, true);
        assert!(matches!(step, AdminStep::Refuse(ref r) if r.text == "У вас недостаточно прав!"));
        assert_eq!(queries.len(), 1);
        assert!(!queries.iter().any(changes));
        let expected = if command == AdminCommand::ChangeRep {
            AdminQuery::IsPrivileged(900)
        } else {
            AdminQuery::IsSuperAdmin(900)
        };
        assert_eq!(queries[0], expected);
    }
}

#[test]
fn admin_commands_act_when_allowed() {
    let mut names = UsersNames::new();
    names.add(5, Some("target"), "T");

    let (step, q) = admin(AdminCommand::AddAdmin, "@target", &names, true, true);
    assert!(matches!(step, AdminStep::Answer(ref t) if t == "Пользователь назначен админом."));
    assert_eq!(q[1], AdminQuery::GiveAdmin(5));

    let (step, q) = admin(AdminCommand::DelAdmin, "5", &names, true, false);
    assert!(matches!(step, AdminStep::Answer(ref t) if t == "Пользователь не админ."));
    assert_eq!(q[1], AdminQuery::TakeAdmin(5));

    let (step, q) = admin(AdminCommand::ChangeRep, "@target -3", &names, true, true);
    assert!(matches!(step, AdminStep::Answer(ref t) if t == "Обновленная репутация: 97"));
    assert_eq!(q[1], AdminQuery::AddReputation(5, -3));

    let (step, q) = admin(AdminCommand::Ban, "@target", &names, true, false);
    assert!(matches!(step, AdminStep::Answer(ref t) if t == "Пользователь забанен."));
    assert_eq!(q[1..], [AdminQuery::IsBanned(5), AdminQuery::SetBanned(5, true)]);

    let (step, q) = admin(AdminCommand::Unban, "@target", &names, true, false);
    assert!(matches!(step, AdminStep::Answer(ref t) if t == "Пользователь не был забанен."));
    assert_eq!(q.len(), 2);

    let (step, q) = admin(AdminCommand::ChangeRep, "@target", &names, true, true);
    assert!(matches!(step, AdminStep::InvalidUsage(ref r) if r.text == "Неправильное использование команды. Ознакомьтесь со справкой."));
    assert_eq!(q.len(), 1);

    let (step, _) = admin(AdminCommand::AddAdmin, "@nobody", &names, true, true);
    assert!(matches!(step, AdminStep::Fail(_)));
}

#[test]
fn drop_flow_steps() {
    let (mut flow, step) = DropFlow::start(900);
    assert!(matches!(step, DropStep::IsSuperAdmin(900)));
    assert!(matches!(flow.on_checked(false, "https://x.y"), DropStep::Refuse(_)));
    assert_eq!(flow.stage(), DropStage::Done);

    let (mut flow, _) = DropFlow::start(900);
    assert!(matches!(flow.on_checked(true, ""), DropStep::InvalidUsage(_)));

    let (mut flow, _) = DropFlow::start(900);
    match flow.on_checked(true, "https://x.y nice") {
        DropStep::AddDrop(link, description) => {
            assert_eq!(link, "https://x.y");
            assert_eq!(description.as_deref(), Some("nice"));
        }
        _ => panic!("the drop is stored"),
    }
    match flow.on_added(12) {
        DropStep::Announce { text, keyboard, created } => {
            assert_eq!(text, "Новый дроп сообщества!\nhttps://x.y\n> nice");
            assert_eq!(keyboard.len(), 1);
            assert_eq!(created, "Новый дроп создан с id: 12");
        }
        _ => panic!("the units are told"),
    }
}

#[test]
fn registration_decisions() {
    let mut names = UsersNames::new();
    match check_registration(&mut names, 1, Some("ann"), "Ann") {
        Registration::Insert(info) => {
            assert_eq!(info.username.as_deref(), Some("ann"));
            assert_eq!(info.first_name, "Ann");
            assert!(info.roles.is_empty() && !info.is_banned && info.reputation == 0 && info.bio.is_none());
        }
        _ => panic!("a new user is inserted"),
    }
    assert!(matches!(check_registration(&mut names, 1, Some("ann"), "Ann"), Registration::Unchanged));
    assert!(matches!(check_registration(&mut names, 1, None, "Ann"), Registration::UpdateNames));
    assert_eq!(names.get_id_by_username("ann"), None);
}

#[test]
fn role_order() {
    assert!(roles_ordered(&vec![]));
    assert!(roles_ordered(&vec![Role::Admin, Role::OknoUnit]));
    assert!(roles_ordered(&vec![Role::Admin, Role::SuperAdmin, Role::OknoUnit]));
    assert!(!roles_ordered(&vec![Role::OknoUnit, Role::Admin]));
    assert!(!roles_ordered(&vec![Role::Admin, Role::Admin]));
}
