use vstd::prelude::*;
use crate::errors::{MyError, MyErrorView};
use crate::models::{
    merge_update, merged, new_row, pick, CreateUser, UpdateUser, UpdateUserView, User,
    UserView, is_no_op,
};
use crate::validation::failure;

verus! {

/// What a table holds: its rows by telephone, and the identifier the next row gets.
pub struct UserTableView {
    pub rows: Map<Seq<char>, UserView>,
    pub next_id: int,
}

impl UserTableView {
    /// Each row sits under its own telephone, and identifiers are distinct, positive
    /// and below the one that the next row gets.
    pub open spec fn valid(self) -> bool {
        &&& 1 <= self.next_id
        &&& forall|k: Seq<char>| #[trigger]
            self.rows.contains_key(k) ==> self.rows[k].telephone == k && 1 <= self.rows[k].id
                < self.next_id
        &&& forall|k1: Seq<char>, k2: Seq<char>|
            #[trigger] self.rows.contains_key(k1) && #[trigger] self.rows.contains_key(k2) && k1
                != k2 ==> self.rows[k1].id != self.rows[k2].id
    }
}

/// Every identifier is positive and below `next_id`.
spec fn ids_below(rows: Seq<UserView>, next_id: int) -> bool {
    forall|i: int| 0 <= i < rows.len() ==> 1 <= #[trigger] rows[i].id < next_id
}

/// No two rows share an identifier.
spec fn ids_unique(rows: Seq<UserView>) -> bool {
    forall|i: int, j: int| 0 <= i < rows.len() && 0 <= j < rows.len() && rows[i].id == rows[j].id ==> i == j
}

/// Row `i` exists and holds telephone `tel`.
pub open spec fn holds_phone(rows: Seq<UserView>, tel: Seq<char>, i: int) -> bool {
    0 <= i < rows.len() && rows[i].telephone == tel
}

/// The row that holds telephone `tel`, if any.
pub open spec fn lookup(rows: Seq<UserView>, tel: Seq<char>) -> Option<UserView> {
    if exists|i: int| holds_phone(rows, tel, i) {
        Some(rows[choose|i: int| holds_phone(rows, tel, i)])
    } else {
        None
    }
}

/// No two rows hold the same telephone.
pub open spec fn phones_unique(rows: Seq<UserView>) -> bool {
    forall|i: int, j: int|
        0 <= i < rows.len() && 0 <= j < rows.len() && rows[i].telephone == rows[j].telephone
            ==> i == j
}

/// The rows keyed by their telephone.
pub open spec fn by_phone(rows: Seq<UserView>) -> Map<Seq<char>, UserView> {
    Map::new(|t: Seq<char>| lookup(rows, t) is Some, |t: Seq<char>| lookup(rows, t)->0)
}

proof fn lemma_lookup_at(rows: Seq<UserView>, i: int)
    requires
        phones_unique(rows),
        0 <= i < rows.len(),
    ensures
        lookup(rows, rows[i].telephone) == Some(rows[i]),
{
    assert(holds_phone(rows, rows[i].telephone, i));
}

proof fn lemma_lookup_none(rows: Seq<UserView>, tel: Seq<char>)
    requires
        forall|i: int| 0 <= i < rows.len() ==> rows[i].telephone != tel,
    ensures
        lookup(rows, tel) is None,
{
    assert(!exists|i: int| holds_phone(rows, tel, i));
}

proof fn lemma_by_phone_valid(rows: Seq<UserView>, next_id: int)
    requires
        phones_unique(rows),
        ids_below(rows, next_id),
        ids_unique(rows),
        1 <= next_id,
    ensures
        (UserTableView { rows: by_phone(rows), next_id }).valid(),
{
    let m = by_phone(rows);
    assert forall|k: Seq<char>| #[trigger] m.contains_key(k) implies m[k].telephone == k && 1
        <= m[k].id < next_id by {
        let i = choose|i: int| holds_phone(rows, k, i);
        lemma_lookup_at(rows, i);
    }
    assert forall|k1: Seq<char>, k2: Seq<char>|
        #[trigger] m.contains_key(k1) && #[trigger] m.contains_key(k2) && k1 != k2 implies m[k1].id
        != m[k2].id by {
        let i1 = choose|i: int| holds_phone(rows, k1, i);
        let i2 = choose|i: int| holds_phone(rows, k2, i);
        lemma_lookup_at(rows, i1);
        lemma_lookup_at(rows, i2);
    }
}

/// Writing row `k` with `m`, whose telephone no other row holds, rekeys that row.
proof fn lemma_by_phone_update(rows: Seq<UserView>, k: int, m: UserView)
    requires
        phones_unique(rows),
        0 <= k < rows.len(),
        forall|i: int| 0 <= i < rows.len() && i != k ==> rows[i].telephone != m.telephone,
    ensures
        phones_unique(rows.update(k, m)),
        by_phone(rows.update(k, m)) == by_phone(rows).remove(rows[k].telephone).insert(
            m.telephone,
            m,
        ),
{
    let new = rows.update(k, m);
    let old_tel = rows[k].telephone;
    assert forall|t: Seq<char>| lookup(new, t) == (if t == m.telephone {
        Some(m)
    } else if t == old_tel {
        None::<UserView>
    } else {
        lookup(rows, t)
    }) by {
        if t == m.telephone {
            lemma_lookup_at(new, k);
        } else if t == old_tel {
            lemma_lookup_none(new, t);
        } else if exists|i: int| holds_phone(rows, t, i) {
            let i = choose|i: int| holds_phone(rows, t, i);
            lemma_lookup_at(rows, i);
            lemma_lookup_at(new, i);
        } else {
            assert forall|i: int| 0 <= i < new.len() implies new[i].telephone != t by {
                if i != k && new[i].telephone == t {
                    assert(holds_phone(rows, t, i));
                }
            }
            lemma_lookup_none(new, t);
        }
    }
    assert(by_phone(new) =~= by_phone(rows).remove(old_tel).insert(m.telephone, m));
}

/// Appending a row whose telephone no row holds adds one key.
proof fn lemma_by_phone_push(rows: Seq<UserView>, v: UserView)
    requires
        phones_unique(rows),
        lookup(rows, v.telephone) is None,
    ensures
        phones_unique(rows.push(v)),
        by_phone(rows.push(v)) == by_phone(rows).insert(v.telephone, v),
{
    let new = rows.push(v);
    assert forall|i: int| 0 <= i < rows.len() implies rows[i].telephone != v.telephone by {
        if rows[i].telephone == v.telephone {
            assert(holds_phone(rows, v.telephone, i));
        }
    }
    assert forall|t: Seq<char>| lookup(new, t) == (if t == v.telephone {
        Some(v)
    } else {
        lookup(rows, t)
    }) by {
        if t == v.telephone {
            lemma_lookup_at(new, rows.len() as int);
        } else if exists|i: int| holds_phone(rows, t, i) {
            let i = choose|i: int| holds_phone(rows, t, i);
            lemma_lookup_at(rows, i);
            lemma_lookup_at(new, i);
        } else {
            assert forall|i: int| 0 <= i < new.len() implies new[i].telephone != t by {
                if i < rows.len() && new[i].telephone == t {
                    assert(holds_phone(rows, t, i));
                }
            }
            lemma_lookup_none(new, t);
        }
    }
    assert(by_phone(new) =~= by_phone(rows).insert(v.telephone, v));
}

/// Removing row `k` removes its telephone.
proof fn lemma_by_phone_remove(rows: Seq<UserView>, k: int)
    requires
        phones_unique(rows),
        0 <= k < rows.len(),
    ensures
        phones_unique(rows.remove(k)),
        by_phone(rows.remove(k)) == by_phone(rows).remove(rows[k].telephone),
{
    let new = rows.remove(k);
    let tel = rows[k].telephone;
    assert forall|i: int, j: int|
        0 <= i < new.len() && 0 <= j < new.len() && new[i].telephone == new[j].telephone
        implies i == j by {
        let oi = if i < k { i } else { i + 1 };
        let oj = if j < k { j } else { j + 1 };
        assert(new[i] == rows[oi] && new[j] == rows[oj]);
    }
    assert forall|t: Seq<char>| lookup(new, t) == (if t == tel {
        None::<UserView>
    } else {
        lookup(rows, t)
    }) by {
        if t == tel {
            assert forall|i: int| 0 <= i < new.len() implies new[i].telephone != t by {
                let oi = if i < k { i } else { i + 1 };
                assert(new[i] == rows[oi]);
            }
            lemma_lookup_none(new, t);
        } else if exists|i: int| holds_phone(rows, t, i) {
            let i = choose|i: int| holds_phone(rows, t, i);
            lemma_lookup_at(rows, i);
            let ni = if i < k { i } else { i - 1 };
            assert(new[ni] == rows[i]);
            lemma_lookup_at(new, ni);
        } else {
            assert forall|i: int| 0 <= i < new.len() implies new[i].telephone != t by {
                let oi = if i < k { i } else { i + 1 };
                assert(new[i] == rows[oi]);
                if new[i].telephone == t {
                    assert(holds_phone(rows, t, oi));
                }
            }
            lemma_lookup_none(new, t);
        }
    }
    assert(by_phone(new) =~= by_phone(rows).remove(tel));
}

/// An in-memory table of users, keyed by telephone.
pub struct UserTable {
    rows: Vec<User>,
    next_id: i32,
}

impl View for UserTable {
    type V = UserTableView;

    closed spec fn view(&self) -> UserTableView {
        UserTableView { rows: by_phone(self.row_views()), next_id: self.next_id as int }
    }
}

impl UserTable {
    spec fn row_views(&self) -> Seq<UserView> {
        self.rows@.map_values(|u: User| u@)
    }

    /// No two rows share a telephone, and identifiers are handed out from one upwards.
    pub closed spec fn wf(&self) -> bool {
        &&& phones_unique(self.row_views())
        &&& ids_below(self.row_views(), self.next_id as int)
        &&& ids_unique(self.row_views())
        &&& 1 <= self.next_id
    }

    /// A well-formed table is keyed by telephone and hands out fresh identifiers.
    pub proof fn lemma_view_valid(&self)
        requires
            self.wf(),
        ensures
            self@.valid(),
    {
        lemma_by_phone_valid(self.row_views(), self.next_id as int);
    }

    /// An empty table.
    pub fn new() -> (r: UserTable)
        ensures
            r.wf(),
            r@.valid(),
            r@.rows == Map::<Seq<char>, UserView>::empty(),
            r@.next_id == 1,
    {
        let r = UserTable { rows: Vec::new(), next_id: 1 };
        assert(r@.rows =~= Map::<Seq<char>, UserView>::empty());
        r
    }

    /// The index of the row that holds `tel`, if any.
    fn position(&self, tel: &String) -> (r: Option<usize>)
        requires
            self.wf(),
        ensures
            match r {
                Some(k) => k < self.rows@.len() && self.rows@[k as int].telephone@ == tel@
                    && lookup(self.row_views(), tel@) == Some(self.rows@[k as int]@),
                None => lookup(self.row_views(), tel@) is None,
            },
    {
        let mut k: usize = 0;
        while k < self.rows.len()
            invariant
                self.wf(),
                k <= self.rows@.len(),
                forall|i: int| 0 <= i < k ==> self.rows@[i].telephone@ != tel@,
            decreases self.rows@.len() - k,
        {
            if self.rows[k].telephone == *tel {
                proof {
                    lemma_lookup_at(self.row_views(), k as int);
                }
                return Some(k);
            }
            k = k + 1;
        }
        proof {
            lemma_lookup_none(self.row_views(), tel@);
        }
        None
    }

    /// Whether some row holds `tel`.
    pub fn contains(&self, tel: &String) -> (r: bool)
        requires
            self.wf(),
        ensures
            r == self@.rows.contains_key(tel@),
    {
        self.position(tel).is_some()
    }
}

/// The outcome of a fetch by telephone.
pub open spec fn fetch_result(tab: UserTableView, tel: Seq<char>) -> Result<UserView, MyErrorView> {
    if tab.rows.contains_key(tel) {
        Ok(tab.rows[tel])
    } else {
        Err(MyErrorView::NotFound("No user found"@))
    }
}

/// The view of a fetched row, or of the failure.
pub open spec fn fetched(r: Result<User, MyError>) -> Result<UserView, MyErrorView> {
    match r {
        Ok(u) => Ok(u@),
        Err(e) => Err(e@),
    }
}

/// The failure of a fetch: not found where no row matched, a storage error otherwise.
pub open spec fn fetch_failure_of(row_missing: bool) -> MyErrorView {
    if row_missing {
        MyErrorView::NotFound("No user found"@)
    } else {
        MyErrorView::DBError("Failed to fetch user"@)
    }
}

/// Classifies a failed fetch: only a missing row is "not found".
pub fn fetch_failure(row_missing: bool) -> (r: MyError)
    ensures
        r@ == fetch_failure_of(row_missing),
{
    if row_missing {
        MyError::NotFound("No user found".to_string())
    } else {
        MyError::DBError("Failed to fetch user".to_string())
    }
}

/// Fetches the row that holds `telephone`.
pub fn get_user_details_db(table: &UserTable, telephone: String) -> (r: Result<User, MyError>)
    requires
        table.wf(),
    ensures
        fetched(r) == fetch_result(table@, telephone@),
{
    match table.position(&telephone) {
        Some(k) => Ok(table.rows[k].duplicate()),
        None => Err(fetch_failure(true)),
    }
}

/// Appends a row for `new_user`. The store refuses a telephone that a row holds
/// already, and a table that has run out of identifiers.
pub fn create_user_db(table: &mut UserTable, new_user: CreateUser) -> (r: Result<(), MyError>)
    requires
        old(table).wf(),
    ensures
        final(table).wf(),
        final(table)@.valid(),
        r is Ok <==> !old(table)@.rows.contains_key(new_user@.telephone)
            && old(table)@.next_id < i32::MAX,
        r is Ok ==> final(table)@ == (UserTableView {
            rows: old(table)@.rows.insert(
                new_user@.telephone,
                new_row(new_user@, old(table)@.next_id),
            ),
            next_id: old(table)@.next_id + 1,
        }),
        r is Err ==> final(table)@ == old(table)@ && failure(r) == Some(
            MyErrorView::DBError("Failed to create user"@),
        ),
{
    proof {
        table.lemma_view_valid();
    }
    if table.position(&new_user.telephone).is_some() || table.next_id == i32::MAX {
        return Err(MyError::DBError("Failed to create user".to_string()));
    }
    let id = table.next_id;
    let row = User::from_request(new_user, id);
    proof {
        lemma_by_phone_push(table.row_views(), row@);
    }
    table.rows.push(row);
    table.next_id = id + 1;
    assert(table.row_views() =~= old(table).row_views().push(row@));
    proof {
        table.lemma_view_valid();
    }
    Ok(())
}

/// The table after the store applies `upd` to the row under `tel`, and the failure, if any.
/// The store refuses a new telephone that another row holds.
pub open spec fn store_update(tab: UserTableView, tel: Seq<char>, upd: UpdateUserView) -> (
    UserTableView,
    Option<MyErrorView>,
) {
    if !tab.rows.contains_key(tel) {
        (tab, Some(MyErrorView::NotFound("User is NOT found"@)))
    } else {
        let m = merged(tab.rows[tel], upd);
        if m.telephone != tel && tab.rows.contains_key(m.telephone) {
            (tab, Some(MyErrorView::DBError("Update user failed"@)))
        } else {
            (
                UserTableView {
                    rows: tab.rows.remove(tel).insert(m.telephone, m),
                    next_id: tab.next_id,
                },
                None,
            )
        }
    }
}

/// Applies `update_user` to the row that holds `telephone` and writes it back.
pub fn update_user_db(table: &mut UserTable, update_user: UpdateUser, telephone: String) -> (r: Result<
    (),
    MyError,
>)
    requires
        old(table).wf(),
    ensures
        final(table).wf(),
        final(table)@.valid(),
        (final(table)@, failure(r)) == store_update(old(table)@, telephone@, update_user@),
{
    proof {
        table.lemma_view_valid();
    }
    let k = match table.position(&telephone) {
        Some(k) => k,
        None => {
            return Err(MyError::NotFound("User is NOT found".to_string()));
        },
    };
    let temp = merge_update(&table.rows[k], update_user);
    if temp.telephone != telephone {
        if table.position(&temp.telephone).is_some() {
            return Err(MyError::DBError("Update user failed".to_string()));
        }
    }
    proof {
        let rows = table.row_views();
        assert forall|i: int| 0 <= i < rows.len() && i != k implies rows[i].telephone
            != temp@.telephone by {
            if rows[i].telephone == temp@.telephone {
                lemma_lookup_at(rows, i);
                lemma_lookup_at(rows, k as int);
            }
        }
        lemma_by_phone_update(rows, k as int, temp@);
    }
    table.rows.set(k, temp);
    assert(table.row_views() =~= old(table).row_views().update(k as int, temp@));
    proof {
        table.lemma_view_valid();
    }
    Ok(())
}

/// Removes the row that holds `telephone`, if there is one.
pub fn delete_user_db(table: &mut UserTable, telephone: String) -> (r: Result<(), MyError>)
    requires
        old(table).wf(),
    ensures
        final(table).wf(),
        final(table)@.valid(),
        r is Ok,
        final(table)@ == (UserTableView {
            rows: old(table)@.rows.remove(telephone@),
            next_id: old(table)@.next_id,
        }),
{
    match table.position(&telephone) {
        Some(k) => {
            proof {
                lemma_by_phone_remove(table.row_views(), k as int);
            }
            table.rows.remove(k);
            assert(table.row_views() =~= old(table).row_views().remove(k as int));
        },
        None => {
            assert(old(table)@.rows.remove(telephone@) =~= old(table)@.rows);
        },
    }
    proof {
        table.lemma_view_valid();
    }
    Ok(())
}

/// An update that takes no telephone another row holds succeeds: the row moves to its
/// new telephone (or stays under its own), merged, with its identifier, and the
/// rows under every other telephone stay as they were.
pub proof fn law_store_update_success(tab: UserTableView, tel: Seq<char>, upd: UpdateUserView)
    requires
        tab.valid(),
        tab.rows.contains_key(tel),
        upd.new_telephone is None || upd.new_telephone->0 == tel || !tab.rows.contains_key(
            upd.new_telephone->0,
        ),
    ensures
        store_update(tab, tel, upd).1 is None,
        merged(tab.rows[tel], upd).telephone == pick(upd.new_telephone, tel),
        merged(tab.rows[tel], upd).id == tab.rows[tel].id,
        store_update(tab, tel, upd).0.rows == tab.rows.remove(tel).insert(
            pick(upd.new_telephone, tel),
            merged(tab.rows[tel], upd),
        ),
        forall|k: Seq<char>|
            k != tel && k != pick(upd.new_telephone, tel) ==> (#[trigger] store_update(
                tab,
                tel,
                upd,
            ).0.rows.contains_key(k) == tab.rows.contains_key(k) && store_update(tab, tel, upd).0.rows[k]
                == tab.rows[k]),
{
}

/// An update that changes nothing leaves the table as it was.
pub proof fn law_store_no_op_update(tab: UserTableView, tel: Seq<char>, upd: UpdateUserView)
    requires
        tab.valid(),
        tab.rows.contains_key(tel),
        is_no_op(upd),
    ensures
        store_update(tab, tel, upd) == (tab, None::<MyErrorView>),
{
    assert(merged(tab.rows[tel], upd) == tab.rows[tel]);
    assert(tab.rows.remove(tel).insert(tel, tab.rows[tel]) =~= tab.rows);
}

/// Applying the same update, without a new telephone, a second time changes nothing more.
pub proof fn law_store_update_idempotent(tab: UserTableView, tel: Seq<char>, upd: UpdateUserView)
    requires
        tab.valid(),
        tab.rows.contains_key(tel),
        upd.new_telephone is None,
    ensures
        store_update(store_update(tab, tel, upd).0, tel, upd) == store_update(tab, tel, upd),
{
    let once = store_update(tab, tel, upd).0;
    let m = merged(tab.rows[tel], upd);
    assert(once.rows[tel] == m);
    assert(merged(m, upd) == m);
    assert(once.rows.remove(tel).insert(tel, m) =~= once.rows);
}

} // verus!
