use oktebot::oknoid::{
    bio_update_result, changed_one_row, roles_from_db, DbError, IdError, Names, Role, UsersNames,
};

fn names_of(index: &UsersNames, id: u64) -> Option<(String, Option<String>)> {
    index.get_names(id).map(|n| (n.first_name, n.username))
}

#[test]
fn add_then_lookups() {
    let mut index = UsersNames::new();
    assert!(!index.contains_user(1));
    index.add(1, Some("ann"), "Ann");
    index.add(2, None, "Ann");
    index.add(3, Some("bob"), "Bob");
    assert!(index.contains_user(1));
    assert_eq!(index.get_id_by_username("ann"), Some(1));
    assert_eq!(index.get_id_by_username("bob"), Some(3));
    assert_eq!(index.get_id_by_username("Ann"), None);
    assert_eq!(index.get_ids_by_first_name("Ann"), Some(vec![1, 2]));
    assert_eq!(index.get_ids_by_first_name("Bob"), Some(vec![3]));
    assert_eq!(index.get_ids_by_first_name("Carl"), None);
    assert_eq!(names_of(&index, 2), Some(("Ann".to_string(), None)));
}

#[test]
fn first_name_ids_are_ascending() {
    let mut index = UsersNames::new();
    for id in [50u64, 3, 40, 7, 1] {
        index.add(id, None, "Same");
    }
    assert_eq!(index.get_ids_by_first_name("Same"), Some(vec![1, 3, 7, 40, 50]));
}

#[test]
fn try_update_reports_changes() {
    let mut index = UsersNames::new();
    assert!(index.try_update(10, Some("old"), "First"));
    assert!(!index.try_update(10, Some("old"), "First"));
    assert!(index.try_update(10, Some("new"), "First"));
    assert_eq!(index.get_id_by_username("old"), None);
    assert_eq!(index.get_id_by_username("new"), Some(10));
    assert!(index.try_update(10, Some("new"), "Second"));
    assert_eq!(index.get_ids_by_first_name("First"), None);
    assert_eq!(index.get_ids_by_first_name("Second"), Some(vec![10]));
    assert!(index.try_update(10, None, "Second"));
    assert_eq!(index.get_id_by_username("new"), None);
    assert_eq!(names_of(&index, 10), Some(("Second".to_string(), None)));
}

#[test]
fn first_name_change_keeps_other_bearers() {
    let mut index = UsersNames::new();
    index.add(1, None, "Kim");
    index.add(2, None, "Kim");
    assert!(index.try_update(1, None, "Lee"));
    assert_eq!(index.get_ids_by_first_name("Kim"), Some(vec![2]));
    assert_eq!(index.get_ids_by_first_name("Lee"), Some(vec![1]));
}

#[test]
fn username_taken_over_then_released() {
    // A user takes a username that another user still holds in the index:
    // the username points to the last one; when the first one changes
    // username, the shared username is released.
    let mut index = UsersNames::new();
    index.add(1, Some("nick"), "A");
    index.add(2, Some("nick"), "B");
    assert_eq!(index.get_id_by_username("nick"), Some(2));
    assert!(index.try_update(1, Some("other"), "A"));
    assert_eq!(index.get_id_by_username("nick"), None);
    assert_eq!(index.get_id_by_username("other"), Some(1));
}

#[test]
fn register_refuses_known_users() {
    let mut index = UsersNames::new();
    assert!(index.register(5, Some("five"), "Five").is_ok());
    assert!(matches!(index.register(5, None, "Other"), Err(IdError::UserExists(5))));
    assert_eq!(names_of(&index, 5), Some(("Five".to_string(), Some("five".to_string()))));
}

#[test]
fn names_display() {
    let n = Names { username: Some("bob".to_string()), first_name: "Bob".to_string() };
    assert_eq!(n.display(), "@bob");
    let n = Names { username: None, first_name: "Bob".to_string() };
    assert_eq!(n.display(), "Bob");
}

#[test]
fn roles_and_codes() {
    assert!(matches!(Role::from_db(1), Ok(Role::Admin)));
    assert!(matches!(Role::from_db(3), Ok(Role::OknoUnit)));
    assert!(matches!(Role::from_db(2), Err(IdError::InvalidRole(2))));
    assert!(matches!(Role::from_db(0), Err(IdError::InvalidRole(0))));
    assert_eq!(Role::Admin.to_db(), 1);
    assert_eq!(Role::SuperAdmin.to_db(), 2);
    assert_eq!(Role::OknoUnit.to_db(), 3);
    for r in [Role::Admin, Role::OknoUnit] {
        assert!(matches!(Role::from_db(r.to_db()), Ok(x) if x == r));
    }
    assert_eq!(Role::Admin.display(), "админ");
    assert_eq!(Role::SuperAdmin.display(), "СУПЕРадмин");
    assert_eq!(Role::OknoUnit.display(), "OKNO UNIT");
}

#[test]
fn roles_from_stored_codes() {
    assert_eq!(roles_from_db(&vec![3, 1, 3], false).ok().unwrap(), vec![Role::Admin, Role::OknoUnit]);
    assert_eq!(roles_from_db(&vec![], true).ok().unwrap(), vec![Role::SuperAdmin]);
    assert_eq!(
        roles_from_db(&vec![1], true).ok().unwrap(),
        vec![Role::Admin, Role::SuperAdmin]
    );
    assert!(matches!(roles_from_db(&vec![1, 7, 9], false), Err(IdError::InvalidRole(7))));
}

#[test]
fn database_answers() {
    assert!(matches!(bio_update_result(0, 4), Err(IdError::UserNotFound(4))));
    assert!(bio_update_result(1, 4).is_ok());
    assert!(changed_one_row(1));
    assert!(!changed_one_row(0));
    assert!(matches!(IdError::map_user_not_found(DbError::RowNotFound, 8), IdError::UserNotFound(8)));
    assert!(matches!(
        IdError::map_user_not_found(DbError::Other("x".to_string()), 8),
        IdError::DbError(DbError::Other(_))
    ));
}

#[test]
fn unique_usernames_resolve_to_their_bearers() {
    let mut index = UsersNames::new();
    index.add(1, Some("ann"), "Ann");
    index.add(2, Some("bob"), "Bob");
    assert!(index.try_update(1, Some("anna"), "Ann"));
    index.add(3, Some("ann"), "Annie");
    assert!(index.try_update(2, None, "Bobby"));
    index.add(4, Some("bob"), "Rob");
    for id in [1u64, 2, 3, 4] {
        if let Some(u) = index.get_names(id).and_then(|n| n.username) {
            assert_eq!(index.get_id_by_username(&u), Some(id), "{u}");
        }
    }
    assert_eq!(index.get_id_by_username("ann"), Some(3));
    assert_eq!(index.get_ids_by_first_name("Bob"), None);
    assert_eq!(index.get_ids_by_first_name("Bobby"), Some(vec![2]));
}
