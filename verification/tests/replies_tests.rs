use oktebot::bot::args::Mention;
use oktebot::bot::markup::{Banner, Button, ButtonAction, Reply};
use oktebot::bot::oknounit::{
    drop_created_text, drop_exists_check, new_drop_keyboard, new_drop_text, on_drops_history_callback,
    on_unit_join_callback, on_unit_report_message, parse_drop_args, report_accepted, report_start,
    unit_info, UNIT_ABOUT,
};
use oktebot::bot::profile::{
    bio, on_add_admin_command, on_ban_command, on_bio_message, on_change_rep, on_del_admin,
    on_unban_command, pages_count, send_profile, top, top_query, BioMessage,
};
use oktebot::bot::session::SessionState;
use oktebot::bot::support::{on_support_message, on_support_selected_callback, support, SupportCategory};
use oktebot::bot::utils::{
    check_banned, check_private, check_user_privileges, get_exactly_one_user, multiple_users_found,
    resolve_mention, OneUser, UtilError,
};
use oktebot::bot::{invalid_usage_message, main_menu, on_cancel_callback, send_help_message, set_commands};
use oktebot::config::{config_path, default_storage_path, Banners, Config};
use oktebot::oknoid::{DropInfo, Role, UserInfo, UsersNames};

fn data(b: &Button) -> String {
    match &b.action {
        ButtonAction::Callback(d) => d.clone(),
        ButtonAction::Url(u) => format!("url:{u}"),
    }
}

fn keyboard(r: &Reply) -> Vec<Vec<(String, String)>> {
    r.keyboard
        .as_ref()
        .map(|k| k.iter().map(|row| row.iter().map(|b| (b.text.clone(), data(b))).collect()).collect())
        .unwrap_or_default()
}

fn drop(id: i64, link: &str, desc: Option<&str>) -> DropInfo {
    DropInfo { id, link: link.to_string(), description: desc.map(str::to_string) }
}

#[test]
fn help_sections() {
    let plain = send_help_message(false, false);
    let admin = send_help_message(true, false);
    let both = send_help_message(true, true);
    assert!(plain.starts_with("<b>Общая информация:</b>\nДля регистрации"));
    assert!(!plain.contains("/rep"));
    assert!(admin.starts_with(&plain) && admin.contains("/rep"));
    assert!(!admin.contains("/admin_add"));
    assert!(both.starts_with(&admin) && both.contains("/admin_add") && both.contains("/drop"));
}

#[test]
fn menu_and_usage() {
    let r = main_menu(true).ok().unwrap();
    assert!(r.html);
    assert_eq!(r.photo, Some(Banner::Main));
    assert_eq!(
        keyboard(&r),
        vec![
            vec![("Топ OknoMembers".to_string(), "top0".to_string())],
            vec![("OknoUnit".to_string(), "unit-info".to_string()), ("Тех. поддержка".to_string(), "support".to_string())],
            vec![
                ("t.me/oknogmdv".to_string(), "url:https://t.me/oknogmdv".to_string()),
                ("oknoweb.ru".to_string(), "url:https://oknoweb.ru".to_string())
            ],
            vec![("Мой профиль".to_string(), "me".to_string())],
        ]
    );
    let refused = main_menu(false).err().unwrap();
    assert_eq!(refused.text, "Действие может быть выполнено только в личных сообщениях.");
    let r = invalid_usage_message();
    assert_eq!(r.text, "Неправильное использование команды. Ознакомьтесь со справкой.");
    assert_eq!(keyboard(&r), vec![vec![("Справка".to_string(), "help".to_string())]]);
    let (state, r) = on_cancel_callback();
    assert_eq!(state, SessionState::Idle);
    assert_eq!(r.text, "Отменено.");
    assert_eq!(keyboard(&r), vec![vec![("В меню".to_string(), "menu".to_string())]]);
    let cmds = set_commands();
    assert_eq!(cmds.len(), 7);
    assert_eq!(cmds[0], ("menu", "главное меню"));
    assert_eq!(cmds[6], ("unit", "информация о OknoUnit"));
}

#[test]
fn top_page_texts_and_buttons() {
    assert_eq!(pages_count(0), 0);
    assert_eq!(pages_count(20), 1);
    assert_eq!(pages_count(21), 2);
    assert_eq!(top_query(2), (40, 20));
    let rows = vec![(1u64, 10i64, "a".to_string()), (2, 9, "b".to_string()), (3, 8, "c".to_string()), (4, -1, "d".to_string())];
    let r = top(0, 45, &rows);
    assert!(r.html);
    assert_eq!(r.photo, Some(Banner::Top));
    assert_eq!(
        r.text,
        "<b>Таблица репутации OknoMembers:</b> (45 пользователей, страница 1/3)\n\
         &gt; <tg-emoji emoji-id=\"5388614717164005740\">🪷</tg-emoji> <b>a</b> - 10 rep.\n\
         &gt; <tg-emoji emoji-id=\"5388967879439852799\">🌸</tg-emoji> <b>b</b> - 9 rep.\n\
         &gt; <tg-emoji emoji-id=\"5388956849963837711\">🌸</tg-emoji> <b>c</b> - 8 rep.\n\
         &gt; <b>d</b> - -1 rep.\n"
    );
    assert_eq!(
        keyboard(&r),
        vec![
            vec![("Следующая страница >".to_string(), "top1".to_string())],
            vec![("В меню".to_string(), "menu".to_string())]
        ]
    );
    let r = top(2, 45, &vec![(9, 1, "z".to_string())]);
    assert!(r.text.ends_with("&gt; <b>z</b> - 1 rep.\n"));
    assert_eq!(
        keyboard(&r),
        vec![
            vec![("< Предыдущая страница".to_string(), "top1".to_string())],
            vec![("В меню".to_string(), "menu".to_string())]
        ]
    );
    let r = top(1, 45, &vec![]);
    assert_eq!(keyboard(&r).len(), 3);
}

#[test]
fn profile_texts() {
    let info = UserInfo {
        username: Some("bob".to_string()),
        first_name: "Bob".to_string(),
        roles: vec![Role::Admin, Role::OknoUnit],
        is_banned: false,
        reputation: 12,
        bio: Some("hi".to_string()),
    };
    let r = send_profile(&info, true, true);
    assert_eq!(r.text, "> Username: bob\n> Bio: hi\n> Reputation: 12 ⚡\n> админ\n> OKNO UNIT\n");
    assert_eq!(
        keyboard(&r),
        vec![vec![("Изменить bio".to_string(), "bio".to_string()), ("В меню".to_string(), "menu".to_string())]]
    );
    let info = UserInfo { username: None, first_name: "Ann".to_string(), roles: vec![], is_banned: false, reputation: -2, bio: None };
    let r = send_profile(&info, false, false);
    assert_eq!(r.text, "> First name: Ann\n> Reputation: -2 ⚡\n");
    assert_eq!(keyboard(&r), vec![vec![]]);
    let r = send_profile(&info, true, false);
    assert_eq!(keyboard(&r), vec![vec![("Добавить bio".to_string(), "bio".to_string())]]);
}

#[test]
fn bio_dialogue() {
    let (state, r) = bio();
    assert_eq!(state, SessionState::WaitBioMessage);
    assert_eq!(r.text, "Отправьте описание для профиля следующим сообщением.");
    assert!(matches!(on_bio_message(None), BioMessage::NoText(r) if r.text == "Отправьте сообщение с текстом!"));
    assert!(matches!(on_bio_message(Some(" \n\t")), BioMessage::Empty(r) if r.text == "Описание не может быть пустым! >:("));
    assert!(matches!(on_bio_message(Some(" x ")), BioMessage::Accept));
}

#[test]
fn admin_rep_ban_texts() {
    assert_eq!(on_add_admin_command(true), "Пользователь назначен админом.");
    assert_eq!(on_add_admin_command(false), "Пользователь уже является админом.");
    assert_eq!(on_del_admin(true), "Пользователь более не является админом.");
    assert_eq!(on_del_admin(false), "Пользователь не админ.");
    assert_eq!(on_change_rep(-15), "Обновленная репутация: -15");
    assert_eq!(on_ban_command(false), (true, "Пользователь забанен.".to_string()));
    assert_eq!(on_ban_command(true), (false, "Пользователь уже был забанен.".to_string()));
    assert_eq!(on_unban_command(true), (true, "Пользователь более не забанен.".to_string()));
    assert_eq!(on_unban_command(false), (false, "Пользователь не был забанен.".to_string()));
}

#[test]
fn unit_screens() {
    let drops = vec![drop(9, "l9", Some("d9")), drop(8, "l8", None), drop(7, "l7", None)];
    let r = unit_info(true, &drops, &vec![false, true, false], false);
    assert_eq!(r.text, "1. l9\n> d9\n2. l8 (выполнен)\n3. l7\n");
    assert!(!r.html);
    assert_eq!(
        keyboard(&r),
        vec![
            vec![("Я оставил фидбек для 1".to_string(), "unit-feedback9".to_string())],
            vec![("Я оставил фидбек для 3".to_string(), "unit-feedback7".to_string())],
            vec![("Предложить дроп".to_string(), "support-selected1".to_string())],
            vec![("История дропов".to_string(), "drops-history".to_string())],
            vec![("В меню".to_string(), "menu".to_string())],
        ]
    );
    let r = unit_info(false, &vec![], &vec![], true);
    assert_eq!(r.text, UNIT_ABOUT);
    assert!(r.text.contains("Комментарии по типу \"аоаоа прикольно!\" мы не учитываем вовсе."));
    assert_eq!(
        keyboard(&r),
        vec![vec![("Стать OknoUnit".to_string(), "unit-join".to_string())], vec![("В меню".to_string(), "menu".to_string())]]
    );
    assert!(on_unit_join_callback(false).is_none());
    assert_eq!(on_unit_join_callback(true).unwrap().text, "Вы стали OknoUnit!");
    let r = on_drops_history_callback(&drops, &vec![true, false, false]);
    assert_eq!(
        r.text,
        "Используйте /feedback &lt;id&gt; для подачи заявки:\n\
         ID:9 <a href=\"l9\">ссылка</a>(выполнено)\n> d9\n\
         ID:8 <a href=\"l8\">ссылка</a>\n\
         ID:7 <a href=\"l7\">ссылка</a>\n"
    );
}

#[test]
fn reports_and_drops() {
    let (support_note, answer) = on_unit_report_message(&drop(5, "link", Some("about")), 5, 31);
    assert_eq!(support_note.text, "Дроп: link\n> about");
    assert_eq!(
        keyboard(&support_note),
        vec![
            vec![("Описание профиля".to_string(), "profile31".to_string())],
            vec![("Подтвердить +1".to_string(), "unit-accept31-5-1".to_string())],
            vec![("Подтвердить +2".to_string(), "unit-accept31-5-2".to_string())],
            vec![("Подтвердить +3".to_string(), "unit-accept31-5-3".to_string())],
        ]
    );
    assert_eq!(answer.text, "Заявка отправлена! Админы проверят вашу заявку и начислят вам репутацию");
    assert_eq!(drop_exists_check(false).unwrap(), "Дропа с таким id не существует!");
    assert!(drop_exists_check(true).is_none());
    assert_eq!(report_start(true, 3).err().unwrap(), "Вы уже выполнили этот дроп.");
    let (state, prompt) = report_start(false, 3).ok().unwrap();
    assert_eq!(state, SessionState::WaitUnitReport { drop_id: 3 });
    assert_eq!(prompt.text, "киньте скрин вашего комментария/отзыва");
    let acc = report_accepted("bob", 20, 31, 5);
    assert_eq!(acc.admin_text, "Дроп был отмечен как выполненный для @bob.\nОбновленная репутация: 20");
    assert_eq!(acc.unit_text, "Ваша заявка по дропу 5 была принята.");
    assert_eq!(parse_drop_args("https://x.y some text"), Some(("https://x.y", Some("some"))));
    assert_eq!(parse_drop_args("https://x.y"), Some(("https://x.y", None)));
    assert_eq!(parse_drop_args(""), None);
    assert_eq!(parse_drop_args(" x"), None);
    assert_eq!(parse_drop_args("a  b"), Some(("a", Some(""))));
    assert_eq!(new_drop_text("L", Some("D")), "Новый дроп сообщества!\nL\n> D");
    assert_eq!(new_drop_text("L", None), "Новый дроп сообщества!\nL");
    assert_eq!(new_drop_keyboard(4)[0][0].text, "Я оставил фидбек");
    assert_eq!(drop_created_text(4), "Новый дроп создан с id: 4");
}

#[test]
fn support_dialogue() {
    let r = support();
    assert_eq!(r.photo, Some(Banner::Support));
    assert_eq!(
        keyboard(&r),
        vec![
            vec![("Изменение сабмита".to_string(), "support-selected0".to_string())],
            vec![("Багрепорт".to_string(), "support-selected2".to_string()), ("Другое".to_string(), "support-selected3".to_string())],
            vec![("В меню".to_string(), "menu".to_string())],
        ]
    );
    let (state, prompt) = on_support_selected_callback(SupportCategory::Bugreport);
    assert_eq!(state, SessionState::WaitSupportMessage { category: SupportCategory::Bugreport });
    assert_eq!(prompt.text, "Отправьте сообщение для тех. поддержки.");
    let (note, answer) = on_support_message(SupportCategory::Other, 12);
    assert_eq!(note.text, "Категория: Другое");
    assert_eq!(keyboard(&note), vec![vec![("Описание профиля".to_string(), "profile12".to_string())]]);
    assert_eq!(answer.text, "Сообщение отправлено!");
}

#[test]
fn checks_and_mentions() {
    assert!(check_private(true).is_none());
    assert!(check_user_privileges(true).is_none());
    assert_eq!(check_user_privileges(false).unwrap().text, "У вас недостаточно прав!");
    assert_eq!(check_banned(true).unwrap().text, "Вы забанены");
    assert!(check_banned(false).is_none());
    let mut names = UsersNames::new();
    names.add(1, Some("ann"), "Ann");
    names.add(2, None, "Ann");
    assert_eq!(resolve_mention(&names, &Mention::Username("ann".to_string())).ok().unwrap(), vec![1]);
    assert_eq!(resolve_mention(&names, &Mention::UserId(2)).ok().unwrap(), vec![2]);
    assert!(matches!(resolve_mention(&names, &Mention::UserId(3)), Err(UtilError::UsageError)));
    assert!(matches!(get_exactly_one_user(vec![4]), OneUser::Found(4)));
    assert!(matches!(get_exactly_one_user(vec![]), OneUser::NotFound));
    assert!(matches!(get_exactly_one_user(vec![1, 2]), OneUser::Multiple(v) if v == vec![1, 2]));
    assert_eq!(
        multiple_users_found(&names, &vec![1, 9, 2]),
        "Найдено несколько пользователей, выберите одного и используйте команду повторно, указав id или username:\n> @ann id: 1\n> Ann id: 2\n"
    );
}

#[test]
fn configuration() {
    assert_eq!(default_storage_path(), "/var/oktebot");
    assert_eq!(config_path(None), "/etc/oktebot.toml");
    assert_eq!(config_path(Some("/tmp/c.toml")), "/tmp/c.toml");
    let config = Config {
        token: String::new(),
        support_chat: -100,
        support_categories: vec![],
        support_categories_layout: vec![],
        super_admins: [3u64, 8].into_iter().collect(),
        storage: default_storage_path(),
        banners: Banners { main: String::new(), top: String::new(), unit: String::new(), support: String::new() },
    };
    assert!(config.is_super_admin(8));
    assert!(!config.is_super_admin(4));
}

#[test]
fn legacy_support() {
    let (state, r) = oktebot::support::on_support(true);
    assert_eq!(state, Some(oktebot::session::SessionState::WaitSupportMessage));
    assert_eq!(r.text, "Отправьте сообщение для тех. поддержки.");
    let (state, r) = oktebot::support::on_support(false);
    assert!(state.is_none());
    assert_eq!(r.text, "Команда может быть использована только в личных сообщениях.");
    assert_eq!(oktebot::support::on_support_message().1.text, "Сообщение отправлено!");
    assert_eq!(oktebot::support::on_support_cancel().1.text, "Отменено.");
}
