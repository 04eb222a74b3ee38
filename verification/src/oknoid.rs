//! The user registry: roles and their database codes, the errors of the
//! registry, and the in-memory index of users' names (by id, by username and
//! by first name) that the registry keeps beside its database.
use vstd::prelude::*;
use vstd::hash_map::StringHashMap;
use vstd::std_specs::btree::{increasing_seq, spec_btree_keys_iter};
use vstd::std_specs::iter::IteratorSpec;
use vstd::std_specs::cmp::OrdSpec;
use std::collections::{BTreeMap, BTreeSet};
use vstd::string::*;
use crate::text::str_eq;


verus! {

broadcast use {
    vstd::std_specs::hash::group_hash_axioms,
    vstd::seq_lib::lemma_seq_contains_after_push,
    vstd::laws_cmp::group_laws_cmp,
    vstd::std_specs::btree::group_btree_axioms,
};

/// A Telegram user id.
pub type UserId = u64;

/// A Telegram chat id.
pub type ChatId = i64;

/// The id of a drop (a piece of community content) in the database.
pub type DropId = i64;

// ---------------------------------------------------------------------------
// Errors
// ---------------------------------------------------------------------------

/// What the registry needs to know of a failed database request.
pub enum DbError {
    /// The query returned no row.
    RowNotFound,
    /// Any other failure, with its message.
    Other(String),
}

pub enum IdError {
    DbError(DbError),
    InitMigrateError(String),
    UserExists(UserId),
    UserNotFound(UserId),
    InvalidRole(i64),
}

impl IdError {
    /// A missing row means that the user is not registered; every other
    /// database failure is passed on.
    pub fn map_user_not_found(err: DbError, id: UserId) -> (r: IdError)
        ensures
            err is RowNotFound ==> r == IdError::UserNotFound(id),
            !(err is RowNotFound) ==> r == IdError::DbError(err),
    {
        match err {
            DbError::RowNotFound => IdError::UserNotFound(id),
            err => IdError::DbError(err),
        }
    }
}

// ---------------------------------------------------------------------------
// Roles
// ---------------------------------------------------------------------------

#[derive(Clone, Copy, PartialEq, Eq, Structural, Debug, PartialOrd, Ord, Hash)]
pub enum Role {
    Admin,
    SuperAdmin,
    OknoUnit,
}

/// The number under which a role is stored.
pub open spec fn role_code(r: Role) -> i64 {
    match r {
        Role::Admin => 1,
        Role::SuperAdmin => 2,
        Role::OknoUnit => 3,
    }
}

/// The roles that the database may hold: super admins come from the configuration.
pub open spec fn role_from_code(val: i64) -> Option<Role> {
    if val == 1 {
        Some(Role::Admin)
    } else if val == 3 {
        Some(Role::OknoUnit)
    } else {
        None
    }
}

impl Role {
    pub fn from_db(val: i64) -> (r: Result<Role, IdError>)
        ensures
            role_from_code(val) matches Some(role) ==> r == Ok::<Role, IdError>(role),
            role_from_code(val) is None ==> r == Err::<Role, IdError>(IdError::InvalidRole(val)),
    {
        if val == 1 {
            Ok(Role::Admin)
        } else if val == 3 {
            Ok(Role::OknoUnit)
        } else {
            Err(IdError::InvalidRole(val))
        }
    }

    pub fn to_db(self) -> (r: i64)
        ensures
            r == role_code(self),
    {
        match self {
            Role::Admin => 1,
            Role::SuperAdmin => 2,
            Role::OknoUnit => 3,
        }
    }

    /// The role's name as profiles show it.
    pub fn display(self) -> (r: String)
        ensures
            r@ == role_name(self),
    {
        match self {
            Role::Admin => String::from_str("админ"),
            Role::SuperAdmin => String::from_str("СУПЕРадмин"),
            Role::OknoUnit => String::from_str("OKNO UNIT"),
        }
    }
}

pub open spec fn role_name(r: Role) -> Seq<char> {
    match r {
        Role::Admin => "админ"@,
        Role::SuperAdmin => "СУПЕРадмин"@,
        Role::OknoUnit => "OKNO UNIT"@,
    }
}

/// Every role that the database stores reads back as itself.
pub proof fn lemma_role_code_roundtrip(r: Role)
    requires
        r != Role::SuperAdmin,
    ensures
        role_from_code(role_code(r)) == Some(r),
{
}

/// A set of roles, in the order of the roles' declaration, without repeats.
pub open spec fn role_seq(admin: bool, super_admin: bool, okno_unit: bool) -> Seq<Role> {
    (if admin { seq![Role::Admin] } else { Seq::empty() }) + (if super_admin {
        seq![Role::SuperAdmin]
    } else {
        Seq::empty()
    }) + (if okno_unit { seq![Role::OknoUnit] } else { Seq::empty() })
}

/// A role's place in the order of the roles' declaration.
pub open spec fn role_rank(r: Role) -> int {
    match r {
        Role::Admin => 0,
        Role::SuperAdmin => 1,
        Role::OknoUnit => 2,
    }
}

/// Roles in the order of their declaration, without repeats: the order in
/// which a set of roles is walked.
pub open spec fn roles_in_order(roles: Seq<Role>) -> bool {
    forall|i: int, j: int| 0 <= i < j < roles.len() ==> role_rank(roles[i]) < role_rank(roles[j])
}

/// Whether the roles are in the order of their declaration, without repeats.
pub fn roles_ordered(roles: &Vec<Role>) -> (r: bool)
    ensures
        r == roles_in_order(roles@),
{
    let mut i: usize = 1;
    while i < roles.len()
        invariant
            1 <= i,
            forall|x: int, y: int|
                0 <= x < y < i && y < roles@.len() ==> role_rank(#[trigger] roles@[x]) < role_rank(
                    #[trigger] roles@[y],
                ),
        decreases roles@.len() - i,
    {
        let a = roles[i - 1].to_db();
        let b = roles[i].to_db();
        if a >= b {
            assert(role_rank(roles@[i - 1]) >= role_rank(roles@[i as int]));
            return false;
        }
        assert forall|x: int, y: int| 0 <= x < y < i + 1 && y < roles@.len() implies role_rank(
            #[trigger] roles@[x],
        ) < role_rank(#[trigger] roles@[y]) by {
            if y == i && x < i - 1 {
                assert(role_rank(roles@[x]) < role_rank(roles@[i - 1]));
            }
        }
        i = i + 1;
    }
    true
}

/// A set of roles built by `role_seq` is in order.
pub proof fn lemma_role_seq_in_order(admin: bool, super_admin: bool, okno_unit: bool)
    ensures
        roles_in_order(role_seq(admin, super_admin, okno_unit)),
{
}

/// The first stored code from index `i` on that names no role.
pub open spec fn first_invalid_code(raw: Seq<i64>, i: int) -> Option<i64>
    decreases raw.len() - i,
{
    if i < 0 || i >= raw.len() {
        None
    } else if role_from_code(raw[i]) is None {
        Some(raw[i])
    } else {
        first_invalid_code(raw, i + 1)
    }
}

/// Turns the stored role codes of a user into their set of roles; the first
/// code that names no role is an error.
pub fn roles_from_db(raw: &Vec<i64>, super_admin: bool) -> (r: Result<Vec<Role>, IdError>)
    ensures
        first_invalid_code(raw@, 0) matches Some(x) ==> r == Err::<Vec<Role>, IdError>(
            IdError::InvalidRole(x),
        ),
        first_invalid_code(raw@, 0) is None ==> (r matches Ok(v) && v@ == role_seq(
            raw@.contains(1),
            super_admin,
            raw@.contains(3),
        ) && roles_in_order(v@)),
{
    let mut admin = false;
    let mut unit = false;
    let mut i: usize = 0;
    while i < raw.len()
        invariant
            i <= raw@.len(),
            first_invalid_code(raw@, 0) == first_invalid_code(raw@, i as int),
            admin == raw@.take(i as int).contains(1),
            unit == raw@.take(i as int).contains(3),
        decreases raw@.len() - i,
    {
        let x = raw[i];
        if x == 1 {
            admin = true;
        } else if x == 3 {
            unit = true;
        } else {
            return Err(IdError::InvalidRole(x));
        }
        assert(raw@.take(i + 1) =~= raw@.take(i as int).push(x));
        i = i + 1;
    }
    assert(raw@.take(i as int) =~= raw@);
    let mut roles: Vec<Role> = Vec::new();
    if admin {
        roles.push(Role::Admin);
    }
    if super_admin {
        roles.push(Role::SuperAdmin);
    }
    if unit {
        roles.push(Role::OknoUnit);
    }
    assert(roles@ =~= role_seq(admin, super_admin, unit));
    Ok(roles)
}

/// `set_bio` touched a row exactly when the user is registered.
pub fn bio_update_result(rows_affected: u64, id: UserId) -> (r: Result<(), IdError>)
    ensures
        rows_affected == 0 ==> r == Err::<(), IdError>(IdError::UserNotFound(id)),
        rows_affected != 0 ==> r is Ok,
{
    if rows_affected == 0 {
        Err(IdError::UserNotFound(id))
    } else {
        Ok(())
    }
}

/// An insert or delete that ignores duplicates changed something exactly
/// when it touched one row.
pub fn changed_one_row(rows_affected: u64) -> (r: bool)
    ensures
        r == (rows_affected == 1),
{
    rows_affected == 1
}

// ---------------------------------------------------------------------------
// Records
// ---------------------------------------------------------------------------

#[derive(Default)]
pub struct UserInfo {
    pub username: Option<String>,
    pub first_name: String,
    /// In the order of the roles' declaration, without repeats (`roles_in_order`).
    pub roles: Vec<Role>,
    pub is_banned: bool,
    pub reputation: i64,
    pub bio: Option<String>,
}

pub struct DropInfo {
    pub id: DropId,
    pub link: String,
    pub description: Option<String>,
}

/// How a user is called.
pub struct Names {
    pub username: Option<String>,
    pub first_name: String,
}

pub open spec fn opt_string_view(o: Option<String>) -> Option<Seq<char>> {
    match o {
        Some(s) => Some(s@),
        None => None,
    }
}

pub open spec fn opt_str_view(o: Option<&str>) -> Option<Seq<char>> {
    match o {
        Some(s) => Some(s@),
        None => None,
    }
}

/// `@username` where the user has one, else the first name.
pub open spec fn names_text(username: Option<Seq<char>>, first_name: Seq<char>) -> Seq<char> {
    match username {
        Some(u) => seq!['@'] + u,
        None => first_name,
    }
}

impl Names {
    pub fn display(&self) -> (r: String)
        ensures
            r@ == names_text(opt_string_view(self.username), self.first_name@),
    {
        match &self.username {
            Some(u) => {
                proof {
                    reveal_strlit("@");
                }
                let mut s = String::from_str("@");
                s.append(u.as_str());
                assert(s@ =~= seq!['@'] + u@);
                s
            },
            None => self.first_name.clone(),
        }
    }
}

// ---------------------------------------------------------------------------
// Sorted sets of user ids
// ---------------------------------------------------------------------------

pub open spec fn ascending(s: Seq<u64>) -> bool {
    forall|i: int, j: int| 0 <= i < j < s.len() ==> s[i] < s[j]
}

/// The ids of a set, in ascending order.
fn set_to_vec(s: &BTreeSet<u64>) -> (r: Vec<u64>)
    ensures
        ascending(r@),
        r@.to_set() == s@,
{
    let mut r: Vec<u64> = Vec::new();
    for x in it: s.iter()
        invariant
            r@.len() == it.index(),
            forall|i: int| 0 <= i < r@.len() ==> r@[i] == *it.seq()[i],
    {
        r.push(*x);
    }
    proof {
        let keys = IteratorSpec::remaining(&spec_btree_keys_iter(s));
        assert(r@ =~= keys.unref());
        assert(increasing_seq(keys));
        assert forall|i: int, j: int| 0 <= i < j < r@.len() implies r@[i] < r@[j] by {
            assert(OrdSpec::cmp_spec(&keys[i], &keys[j]) is Less);
        }
    }
    r
}

// ---------------------------------------------------------------------------
// The names index
// ---------------------------------------------------------------------------

/// What the index knows: each user's first name and username, and which user
/// each username is taken to mean.
pub struct NamesView {
    pub names: Map<UserId, (Seq<char>, Option<Seq<char>>)>,
    pub usernames: Map<Seq<char>, UserId>,
}

pub open spec fn record_view(r: (String, Option<String>)) -> (Seq<char>, Option<Seq<char>>) {
    (r.0@, opt_string_view(r.1))
}

/// The users whose first name is `f`.
pub open spec fn ids_with_first_name(
    names: Map<UserId, (Seq<char>, Option<Seq<char>>)>,
    f: Seq<char>,
) -> Set<UserId> {
    Set::new(|id: UserId| names.contains_key(id) && names[id].0 == f)
}

/// The username index after a user is recorded with username `u`: a user
/// whose username changes gives up the old one, and a new username points
/// at the user that took it last.
pub open spec fn usernames_after(v: NamesView, id: UserId, u: Option<Seq<char>>) -> Map<
    Seq<char>,
    UserId,
> {
    if v.names.contains_key(id) && v.names[id].1 == u {
        v.usernames
    } else {
        let released = if v.names.contains_key(id) {
            match v.names[id].1 {
                Some(o) => v.usernames.remove(o),
                None => v.usernames,
            }
        } else {
            v.usernames
        };
        match u {
            Some(n) => released.insert(n, id),
            None => released,
        }
    }
}

/// The three maps of the names index: names by id, the user each username
/// is taken to mean, and the users of each first name.
struct NameIndex {
    id_to_names: BTreeMap<u64, (String, Option<String>)>,
    username_to_id: StringHashMap<u64>,
    first_name_to_ids: StringHashMap<BTreeSet<u64>>,
}

impl View for NameIndex {
    type V = NamesView;

    closed spec fn view(&self) -> NamesView {
        NamesView {
            names: self.id_to_names@.map_values(|r: (String, Option<String>)| record_view(r)),
            usernames: self.username_to_id@,
        }
    }
}

spec fn entry_ok(
    idx: Map<Seq<char>, BTreeSet<u64>>,
    ids: Map<u64, (String, Option<String>)>,
    f: Seq<char>,
) -> bool {
    &&& idx[f]@ != Set::<u64>::empty()
    &&& forall|y: u64| #[trigger] idx[f]@.contains(y) <==> (ids.contains_key(y) && ids[y].0@ == f)
}

fn opt_eq(a: &Option<String>, b: Option<&str>) -> (r: bool)
    ensures
        r == (opt_string_view(*a) == opt_str_view(b)),
{
    match (a, b) {
        (Some(x), Some(y)) => str_eq(x.as_str(), y),
        (None, None) => true,
        _ => false,
    }
}

fn opt_to_string(o: Option<&str>) -> (r: Option<String>)
    ensures
        opt_string_view(r) == opt_str_view(o),
{
    match o {
        Some(s) => Some(String::from_str(s)),
        None => None,
    }
}

/// Adds `id` to the set of users with first name `f`.
fn index_insert(idx: &mut StringHashMap<BTreeSet<u64>>, f: &str, id: u64)
    ensures
        final(idx)@.contains_key(f@),
        final(idx)@[f@]@ != Set::<u64>::empty(),
        forall|y: u64|
            #[trigger] final(idx)@[f@]@.contains(y) <==> (y == id || (old(idx)@.contains_key(f@)
                && old(idx)@[f@]@.contains(y))),
        forall|g: Seq<char>|
            g != f@ ==> (#[trigger] final(idx)@.contains_key(g) == old(idx)@.contains_key(g)
                && final(idx)@[g] == old(idx)@[g]),
{
    let mut ids = match idx.get(f) {
        Some(v) => v.clone(),
        None => BTreeSet::new(),
    };
    ids.insert(id);
    assert(ids@.contains(id));
    idx.insert(String::from_str(f), ids);
}

/// Takes `id` out of the set of users with first name `f`, and drops the
/// first name when no user is left with it.
fn index_remove(idx: &mut StringHashMap<BTreeSet<u64>>, f: &str, id: u64)
    requires
        old(idx)@.contains_key(f@),
    ensures
        (forall|y: u64| old(idx)@[f@]@.contains(y) ==> y == id) ==> !final(idx)@.contains_key(
            f@,
        ),
        !(forall|y: u64| old(idx)@[f@]@.contains(y) ==> y == id) ==> {
            &&& final(idx)@.contains_key(f@)
            &&& final(idx)@[f@]@ != Set::<u64>::empty()
            &&& forall|y: u64|
                #[trigger] final(idx)@[f@]@.contains(y) <==> (old(idx)@[f@]@.contains(y) && y
                    != id)
        },
        forall|g: Seq<char>|
            g != f@ ==> (#[trigger] final(idx)@.contains_key(g) == old(idx)@.contains_key(g)
                && final(idx)@[g] == old(idx)@[g]),
{
    let mut ids = idx.get(f).unwrap().clone();
    let ghost before = ids@;
    ids.remove(&id);
    if ids.is_empty() {
        assert forall|y: u64| before.contains(y) implies y == id by {
            if y != id {
                assert(ids@.contains(y));
            }
        }
        idx.remove(f);
    } else {
        assert(!(ids@ =~= Set::<u64>::empty()));
        let ghost y = choose|y: u64| ids@.contains(y);
        assert(ids@.contains(y) && before.contains(y) && y != id);
        idx.insert(String::from_str(f), ids);
    }
}

impl NameIndex {
    /// Whether the three indices agree: a username points at a user who has
    /// it, and each first name lists exactly the users who bear it.
    spec fn wf(&self) -> bool {
        let ids = self.id_to_names@;
        let users = self.username_to_id@;
        let idx = self.first_name_to_ids@;
        &&& forall|u: Seq<char>|
            #[trigger] users.contains_key(u) ==> ids.contains_key(users[u]) && opt_string_view(
                ids[users[u]].1,
            ) == Some(u)
        &&& forall|f: Seq<char>| #[trigger] idx.contains_key(f) ==> entry_ok(idx, ids, f)
        &&& forall|id: u64| #[trigger] ids.contains_key(id) ==> idx.contains_key(ids[id].0@)
    }

    fn new() -> (r: NameIndex)
        ensures
            r.wf(),
            r@.names == Map::<UserId, (Seq<char>, Option<Seq<char>>)>::empty(),
            r@.usernames == Map::<Seq<char>, UserId>::empty(),
    {
        let r = NameIndex {
            id_to_names: BTreeMap::new(),
            username_to_id: StringHashMap::new(),
            first_name_to_ids: StringHashMap::new(),
        };
        assert(r@.names =~= Map::<UserId, (Seq<char>, Option<Seq<char>>)>::empty());
        r
    }

    /// Records a user that the index does not hold yet.
    fn add(&mut self, user_id: UserId, username: Option<&str>, first_name: &str)
        requires
            old(self).wf(),
            !old(self)@.names.contains_key(user_id),
        ensures
            final(self).wf(),
            final(self)@.names == old(self)@.names.insert(
                user_id,
                (first_name@, opt_str_view(username)),
            ),
            final(self)@.usernames == usernames_after(old(self)@, user_id, opt_str_view(username)),
    {
        let ghost ids0 = self.id_to_names@;
        let ghost users0 = self.username_to_id@;
        let ghost idx0 = self.first_name_to_ids@;
        assert(!ids0.contains_key(user_id));
        index_insert(&mut self.first_name_to_ids, first_name, user_id);
        self.id_to_names.insert(user_id, (String::from_str(first_name), opt_to_string(username)));
        match username {
            Some(u) => {
                self.username_to_id.insert(String::from_str(u), user_id);
            },
            None => {},
        }
        let ghost ids = self.id_to_names@;
        let ghost users = self.username_to_id@;
        let ghost idx = self.first_name_to_ids@;
        assert forall|u: Seq<char>| #[trigger] users.contains_key(u) implies ids.contains_key(
            users[u],
        ) && opt_string_view(ids[users[u]].1) == Some(u) by {
            if opt_str_view(username) != Some(u) {
                assert(users0.contains_key(u));
            }
        }
        assert forall|f: Seq<char>| #[trigger] idx.contains_key(f) implies entry_ok(idx, ids, f) by {
            if f != first_name@ {
                assert(idx0.contains_key(f));
                assert(entry_ok(idx0, ids0, f));
                assert forall|y: u64| #[trigger] idx[f]@.contains(y) <==> (ids.contains_key(y)
                    && ids[y].0@ == f) by {
                    if y == user_id {
                        assert(!idx0[f]@.contains(y));
                    }
                }
            } else {
                assert forall|y: u64| #[trigger] idx[f]@.contains(y) <==> (ids.contains_key(y)
                    && ids[y].0@ == f) by {
                    if y != user_id && idx0.contains_key(f) {
                        assert(entry_ok(idx0, ids0, f));
                    }
                    if y != user_id && ids0.contains_key(y) && ids0[y].0@ == f {
                        assert(idx0.contains_key(ids0[y].0@));
                        assert(entry_ok(idx0, ids0, f));
                    }
                }
            }
        }
        assert forall|id: u64| #[trigger] ids.contains_key(id) implies idx.contains_key(
            ids[id].0@,
        ) by {
            if id != user_id {
                assert(ids0.contains_key(id));
                assert(idx0.contains_key(ids0[id].0@));
            }
        }
        assert(self@.names =~= old(self)@.names.insert(user_id, (first_name@, opt_str_view(username))));
        assert(self@.usernames =~= usernames_after(old(self)@, user_id, opt_str_view(username)));
    }

    /// Records a user's current names; answers whether anything changed.
    fn try_update(&mut self, user_id: UserId, username: Option<&str>, first_name: &str) -> (changed: bool)
        requires
            old(self).wf(),
        ensures
            final(self).wf(),
            final(self)@.names == old(self)@.names.insert(
                user_id,
                (first_name@, opt_str_view(username)),
            ),
            final(self)@.usernames == usernames_after(old(self)@, user_id, opt_str_view(username)),
            changed == !(old(self)@.names.contains_key(user_id) && old(self)@.names[user_id] == (
            first_name@, opt_str_view(username))),
    {
        let (cur_first, cur_user) = match self.id_to_names.get(&user_id) {
            None => {
                self.add(user_id, username, first_name);
                return true;
            },
            Some(rec) => {
                let u: Option<String> = match &rec.1 {
                    Some(x) => Some(x.clone()),
                    None => None,
                };
                (rec.0.clone(), u)
            },
        };
        let ghost ids0 = self.id_to_names@;
        let ghost users0 = self.username_to_id@;
        let ghost idx0 = self.first_name_to_ids@;
        let ghost old_first = cur_first@;
        assert(ids0.contains_key(user_id));
        assert(ids0[user_id].0@ == old_first);
        assert(opt_string_view(ids0[user_id].1) == opt_string_view(cur_user));
        let first_name_changed = !str_eq(cur_first.as_str(), first_name);
        let username_changed = !opt_eq(&cur_user, username);
        let ghost mut idx_mid = idx0;
        if first_name_changed {
            assert(idx0.contains_key(old_first));
            index_remove(&mut self.first_name_to_ids, cur_first.as_str(), user_id);
            proof {
                idx_mid = self.first_name_to_ids@;
            }
            index_insert(&mut self.first_name_to_ids, first_name, user_id);
        }
        if username_changed {
            match &cur_user {
                Some(cu) => {
                    self.username_to_id.remove(cu.as_str());
                },
                None => {},
            }
            match username {
                Some(u) => {
                    self.username_to_id.insert(String::from_str(u), user_id);
                },
                None => {},
            }
        }
        self.id_to_names.insert(user_id, (String::from_str(first_name), opt_to_string(username)));
        let ghost ids = self.id_to_names@;
        let ghost users = self.username_to_id@;
        let ghost idx = self.first_name_to_ids@;
        assert forall|u: Seq<char>| #[trigger] users.contains_key(u) implies ids.contains_key(
            users[u],
        ) && opt_string_view(ids[users[u]].1) == Some(u) by {
            if username_changed {
                if opt_str_view(username) != Some(u) {
                    assert(users0.contains_key(u));
                    assert(opt_string_view(cur_user) != Some(u));
                    assert(users0[u] != user_id);
                }
            } else {
                assert(users0.contains_key(u));
            }
        }
        assert forall|f: Seq<char>| #[trigger] idx.contains_key(f) implies entry_ok(idx, ids, f) by {
            if !first_name_changed {
                assert(idx0.contains_key(f));
                assert(entry_ok(idx0, ids0, f));
                assert forall|y: u64| #[trigger] idx[f]@.contains(y) <==> (ids.contains_key(y)
                    && ids[y].0@ == f) by {
                }
            } else if f == first_name@ {
                assert(idx_mid.contains_key(f) == idx0.contains_key(f));
                assert(idx_mid[f] == idx0[f]);
                assert forall|y: u64| #[trigger] idx[f]@.contains(y) <==> (ids.contains_key(y)
                    && ids[y].0@ == f) by {
                    if y != user_id && idx0.contains_key(f) {
                        assert(entry_ok(idx0, ids0, f));
                    }
                    if y != user_id && ids0.contains_key(y) && ids0[y].0@ == f {
                        assert(idx0.contains_key(ids0[y].0@));
                        assert(entry_ok(idx0, ids0, f));
                    }
                }
            } else if f == old_first {
                assert(entry_ok(idx0, ids0, f));
                assert forall|y: u64| #[trigger] idx[f]@.contains(y) <==> (ids.contains_key(y)
                    && ids[y].0@ == f) by {
                }
            } else {
                assert(idx0.contains_key(f));
                assert(entry_ok(idx0, ids0, f));
                assert forall|y: u64| #[trigger] idx[f]@.contains(y) <==> (ids.contains_key(y)
                    && ids[y].0@ == f) by {
                    if y == user_id {
                        assert(!idx0[f]@.contains(y));
                    }
                }
            }
        }
        assert forall|id: u64| #[trigger] ids.contains_key(id) implies idx.contains_key(
            ids[id].0@,
        ) by {
            if id != user_id {
                assert(ids0.contains_key(id));
                assert(idx0.contains_key(ids0[id].0@));
                if first_name_changed && ids0[id].0@ == old_first {
                    assert(entry_ok(idx0, ids0, old_first));
                    assert(idx0[old_first]@.contains(id));
                }
            }
        }
        assert(self@.names =~= old(self)@.names.insert(user_id, (first_name@, opt_str_view(username))));
        assert(self@.usernames =~= usernames_after(old(self)@, user_id, opt_str_view(username)));
        first_name_changed || username_changed
    }

    /// The in-memory part of registering a user: refused for a user the index holds.
    fn register(&mut self, user_id: UserId, username: Option<&str>, first_name: &str) -> (r: Result<(), IdError>)
        requires
            old(self).wf(),
        ensures
            final(self).wf(),
            old(self)@.names.contains_key(user_id) ==> r == Err::<(), IdError>(IdError::UserExists(user_id))
                && final(self)@ == old(self)@,
            !old(self)@.names.contains_key(user_id) ==> r is Ok
                && final(self)@.names == old(self)@.names.insert(user_id, (first_name@, opt_str_view(username)))
                && final(self)@.usernames == usernames_after(old(self)@, user_id, opt_str_view(username)),
    {
        if self.contains_user(user_id) {
            return Err(IdError::UserExists(user_id));
        }
        self.add(user_id, username, first_name);
        Ok(())
    }

    fn contains_user(&self, user_id: UserId) -> (r: bool)
        ensures
            r == self@.names.contains_key(user_id),
    {
        self.id_to_names.contains_key(&user_id)
    }

    fn get_names(&self, user_id: UserId) -> (r: Option<Names>)
        ensures
            r is Some == self@.names.contains_key(user_id),
            r matches Some(n) ==> (n.first_name@, opt_string_view(n.username)) == self@.names[user_id],
    {
        match self.id_to_names.get(&user_id) {
            Some(rec) => {
                let u: Option<String> = match &rec.1 {
                    Some(x) => Some(x.clone()),
                    None => None,
                };
                Some(Names { username: u, first_name: rec.0.clone() })
            },
            None => None,
        }
    }

    /// The users with a given first name, in ascending order of id; `None` when there is none.
    fn get_ids_by_first_name(&self, first_name: &str) -> (r: Option<Vec<UserId>>)
        requires
            self.wf(),
        ensures
            r is None <==> ids_with_first_name(self@.names, first_name@).is_empty(),
            r matches Some(v) ==> ascending(v@) && v@.to_set() == ids_with_first_name(self@.names, first_name@),
    {
        let ghost s = ids_with_first_name(self@.names, first_name@);
        match self.first_name_to_ids.get(first_name) {
            Some(v) => {
                let r = set_to_vec(v);
                assert(entry_ok(self.first_name_to_ids@, self.id_to_names@, first_name@));
                assert(r@.to_set() =~= s);
                assert(!(v@ =~= Set::<u64>::empty()));
                let ghost y = choose|y: u64| v@.contains(y);
                assert(s.contains(y));
                Some(r)
            },
            None => {
                assert(s =~= Set::<UserId>::empty()) by {
                    assert forall|id: UserId| !s.contains(id) by {
                        if self.id_to_names@.contains_key(id) && self.id_to_names@[id].0@ == first_name@ {
                            assert(self.first_name_to_ids@.contains_key(self.id_to_names@[id].0@));
                        }
                    }
                }
                None
            },
        }
    }

    fn get_id_by_username(&self, username: &str) -> (r: Option<UserId>)
        requires
            self.wf(),
        ensures
            r == self@.usernames.get(username@),
            r matches Some(id) ==> self@.names.contains_key(id) && self@.names[id].1 == Some(
                username@,
            ),
    {
        match self.username_to_id.get(username) {
            Some(id) => Some(*id),
            None => None,
        }
    }
}

/// The in-memory index of users' names: by id, by username and by first name.
pub struct UsersNames {
    index: NameIndex,
}

impl View for UsersNames {
    type V = NamesView;

    closed spec fn view(&self) -> NamesView {
        self.index@
    }
}

impl UsersNames {
    /// The three maps agree: a username points at a user who has it, and
    /// each first name lists exactly the users who bear it.
    #[verifier::type_invariant]
    spec fn maps_agree(&self) -> bool {
        self.index.wf()
    }

    pub fn new() -> (r: UsersNames)
        ensures
            r@.names == Map::<UserId, (Seq<char>, Option<Seq<char>>)>::empty(),
            r@.usernames == Map::<Seq<char>, UserId>::empty(),
    {
        UsersNames { index: NameIndex::new() }
    }

    /// Records a user that the index does not hold yet.
    pub fn add(&mut self, user_id: UserId, username: Option<&str>, first_name: &str)
        requires
            !old(self)@.names.contains_key(user_id),
        ensures
            final(self)@.names == old(self)@.names.insert(
                user_id,
                (first_name@, opt_str_view(username)),
            ),
            final(self)@.usernames == usernames_after(old(self)@, user_id, opt_str_view(username)),
    {
        proof {
            use_type_invariant(&*self);
        }
        let mut index = NameIndex::new();
        std::mem::swap(&mut index, &mut self.index);
        index.add(user_id, username, first_name);
        self.index = index;
    }

    /// Records a user's current names; answers whether anything changed.
    pub fn try_update(&mut self, user_id: UserId, username: Option<&str>, first_name: &str) -> (changed: bool)
        ensures
            final(self)@.names == old(self)@.names.insert(
                user_id,
                (first_name@, opt_str_view(username)),
            ),
            final(self)@.usernames == usernames_after(old(self)@, user_id, opt_str_view(username)),
            changed == !(old(self)@.names.contains_key(user_id) && old(self)@.names[user_id] == (
            first_name@, opt_str_view(username))),
    {
        proof {
            use_type_invariant(&*self);
        }
        let mut index = NameIndex::new();
        std::mem::swap(&mut index, &mut self.index);
        let changed = index.try_update(user_id, username, first_name);
        self.index = index;
        changed
    }

    /// The in-memory part of registering a user: refused for a user the index holds.
    pub fn register(&mut self, user_id: UserId, username: Option<&str>, first_name: &str) -> (r: Result<(), IdError>)
        ensures
            old(self)@.names.contains_key(user_id) ==> r == Err::<(), IdError>(IdError::UserExists(user_id))
                && final(self)@ == old(self)@,
            !old(self)@.names.contains_key(user_id) ==> r is Ok
                && final(self)@.names == old(self)@.names.insert(user_id, (first_name@, opt_str_view(username)))
                && final(self)@.usernames == usernames_after(old(self)@, user_id, opt_str_view(username)),
    {
        if self.contains_user(user_id) {
            return Err(IdError::UserExists(user_id));
        }
        self.add(user_id, username, first_name);
        Ok(())
    }

    pub fn contains_user(&self, user_id: UserId) -> (r: bool)
        ensures
            r == self@.names.contains_key(user_id),
    {
        self.index.contains_user(user_id)
    }

    pub fn get_names(&self, user_id: UserId) -> (r: Option<Names>)
        ensures
            r is Some == self@.names.contains_key(user_id),
            r matches Some(n) ==> (n.first_name@, opt_string_view(n.username)) == self@.names[user_id],
    {
        self.index.get_names(user_id)
    }

    /// The users with a given first name, in ascending order of id; `None` when there is none.
    pub fn get_ids_by_first_name(&self, first_name: &str) -> (r: Option<Vec<UserId>>)
        ensures
            r is None <==> ids_with_first_name(self@.names, first_name@).is_empty(),
            r matches Some(v) ==> ascending(v@) && v@.to_set() == ids_with_first_name(self@.names, first_name@),
    {
        proof {
            use_type_invariant(self);
        }
        self.index.get_ids_by_first_name(first_name)
    }

    /// The user a username is taken to mean; that user bears the username.
    pub fn get_id_by_username(&self, username: &str) -> (r: Option<UserId>)
        ensures
            r == self@.usernames.get(username@),
            r matches Some(id) ==> self@.names.contains_key(id) && self@.names[id].1 == Some(
                username@,
            ),
    {
        proof {
            use_type_invariant(self);
        }
        self.index.get_id_by_username(username)
    }
}

/// The index after a user is recorded with first name `f` and username `u`.
pub open spec fn names_after(v: NamesView, id: UserId, u: Option<Seq<char>>, f: Seq<char>) -> NamesView {
    NamesView { names: v.names.insert(id, (f, u)), usernames: usernames_after(v, id, u) }
}

/// After a user is recorded, the index gives back the names recorded,
/// and the user is among those found by that first name; other users keep
/// their names.
pub proof fn lemma_names_read_back(v: NamesView, id: UserId, u: Option<Seq<char>>, f: Seq<char>, other: UserId)
    requires
        other != id,
    ensures
        names_after(v, id, u, f).names.contains_key(id),
        names_after(v, id, u, f).names[id] == (f, u),
        ids_with_first_name(names_after(v, id, u, f).names, f).contains(id),
        names_after(v, id, u, f).names.contains_key(other) == v.names.contains_key(other),
        v.names.contains_key(other) ==> names_after(v, id, u, f).names[other] == v.names[other],
{
}

/// After a user takes a username that they did not have, the username
/// resolves to them.
pub proof fn lemma_new_username_resolves(v: NamesView, id: UserId, name: Seq<char>, f: Seq<char>)
    requires
        !(v.names.contains_key(id) && v.names[id].1 == Some(name)),
    ensures
        names_after(v, id, Some(name), f).usernames.get(name) == Some(id),
        names_after(v, id, Some(name), f).names[id] == (f, Some(name)),
{
}

/// Every user's username resolves to that user.
pub open spec fn usernames_resolve(v: NamesView) -> bool {
    forall|id: UserId|
        #[trigger] v.names.contains_key(id) ==> (v.names[id].1 matches Some(x) ==> v.usernames.get(x)
            == Some(id))
}

/// No user but `id` bears the username `u`.
pub open spec fn username_free_for(v: NamesView, id: UserId, u: Option<Seq<char>>) -> bool {
    u matches Some(x) ==> forall|other: UserId|
        #[trigger] v.names.contains_key(other) && other != id ==> v.names[other].1 != Some(x)
}

/// The empty index, where every username resolves to its bearer.
pub proof fn lemma_empty_index_resolves()
    ensures
        usernames_resolve(
            NamesView {
                names: Map::<UserId, (Seq<char>, Option<Seq<char>>)>::empty(),
                usernames: Map::<Seq<char>, UserId>::empty(),
            },
        ),
{
}

/// While no two users hold the same username, every user's username
/// resolves to that user: recording a user with a username that no other
/// user bears keeps this so.
pub proof fn lemma_unique_usernames_resolve(v: NamesView, id: UserId, u: Option<Seq<char>>, f: Seq<char>)
    requires
        usernames_resolve(v),
        username_free_for(v, id, u),
    ensures
        usernames_resolve(names_after(v, id, u, f)),
{
    let w = names_after(v, id, u, f);
    assert forall|x: UserId| #[trigger] w.names.contains_key(x) implies (w.names[x].1 matches Some(
        n,
    ) ==> w.usernames.get(n) == Some(x)) by {
        if x != id {
            assert(v.names.contains_key(x));
            if let Some(n) = w.names[x].1 {
                assert(v.usernames.get(n) == Some(x));
                if v.names.contains_key(id) {
                    if let Some(o) = v.names[id].1 {
                        assert(v.usernames.get(o) == Some(id));
                        assert(n != o);
                    }
                }
                assert(u != Some(n));
            }
        }
    }
}

/// Recording the same names twice changes nothing the second time.
pub proof fn lemma_update_idempotent(v: NamesView, id: UserId, u: Option<Seq<char>>, f: Seq<char>)
    ensures
        ({
            let w = names_after(v, id, u, f);
            &&& w.names.contains_key(id) && w.names[id] == (f, u)
            &&& names_after(w, id, u, f) == w
        }),
{
    let w = names_after(v, id, u, f);
    assert(w.names.insert(id, (f, u)) =~= w.names);
}

/// A user who gives up a username is no longer found by it.
pub proof fn lemma_released_username_unresolved(v: NamesView, id: UserId, old_name: Seq<char>, u: Option<Seq<char>>, f: Seq<char>)
    requires
        v.names.contains_key(id),
        v.names[id].1 == Some(old_name),
        u != Some(old_name),
    ensures
        !names_after(v, id, u, f).usernames.contains_key(old_name),
{
}

} // verus!
