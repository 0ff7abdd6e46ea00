use vstd::prelude::*;
use crate::dbaccess::{
    create_user_db, delete_user_db, fetch_result, fetched, get_user_details_db, update_user_db,
    UserTable, UserTableView,
};
use crate::errors::{MyError, MyErrorView};
use crate::models::{
    is_no_op, merged, new_row, pick, CreateUser, CreateUserView, UpdateUser, UpdateUserView, User,
    UserView,
};
use crate::validation::{
    check_create_request, check_delete_request, check_password, check_update_request,
    create_request_error, delete_request_error, failure, password_error, password_ok,
    telephone_ok, update_request_error,
};

verus! {

/// The answer of an operation: a confirmation message, or the failure.
pub open spec fn answered(r: Result<String, MyError>) -> Result<Seq<char>, MyErrorView> {
    match r {
        Ok(m) => Ok(m@),
        Err(e) => Err(e@),
    }
}

/// The table after a registration, and the answer.
pub open spec fn register_spec(tab: UserTableView, req: CreateUserView) -> (
    UserTableView,
    Result<Seq<char>, MyErrorView>,
) {
    match create_request_error(req) {
        Some(e) => (tab, Err(e)),
        None => if tab.rows.contains_key(req.telephone) {
            (tab, Err(MyErrorView::InvalidInput("Telephone is already registered"@)))
        } else if tab.next_id >= i32::MAX {
            (tab, Err(MyErrorView::DBError("Failed to create user"@)))
        } else {
            (
                UserTableView {
                    rows: tab.rows.insert(req.telephone, new_row(req, tab.next_id)),
                    next_id: tab.next_id + 1,
                },
                Ok("Create user successfully"@),
            )
        },
    }
}

/// The table after an update of the row that holds `tel`, and the answer.
pub open spec fn update_spec(tab: UserTableView, tel: Seq<char>, upd: UpdateUserView) -> (
    UserTableView,
    Result<Seq<char>, MyErrorView>,
) {
    match update_request_error(upd) {
        Some(e) => (tab, Err(e)),
        None => if !tab.rows.contains_key(tel) {
            (tab, Err(MyErrorView::NotFound("No user found"@)))
        } else {
            match password_error(tab.rows[tel], upd.old_password) {
                Some(e) => (tab, Err(e)),
                None => {
                    let m = merged(tab.rows[tel], upd);
                    if m.telephone != tel && tab.rows.contains_key(m.telephone) {
                        (tab, Err(MyErrorView::DBError("Update user failed"@)))
                    } else {
                        (
                            UserTableView {
                                rows: tab.rows.remove(tel).insert(m.telephone, m),
                                next_id: tab.next_id,
                            },
                            Ok("Update user successfully"@),
                        )
                    }
                },
            }
        },
    }
}

/// The table after a deletion of the row that holds `tel`, and the answer.
pub open spec fn delete_spec(tab: UserTableView, tel: Seq<char>, pwd: Seq<char>) -> (
    UserTableView,
    Result<Seq<char>, MyErrorView>,
) {
    match delete_request_error(tel, pwd) {
        Some(e) => (tab, Err(e)),
        None => if !tab.rows.contains_key(tel) {
            (tab, Err(MyErrorView::NotFound("No user found"@)))
        } else {
            match password_error(tab.rows[tel], pwd) {
                Some(e) => (tab, Err(e)),
                None => (
                    UserTableView { rows: tab.rows.remove(tel), next_id: tab.next_id },
                    Ok("Delete user successfully"@),
                ),
            }
        },
    }
}

/// Why a registration is refused once the store was asked for its telephone, if it is.
/// A row found means the telephone is taken; a failure other than "not found" is passed on.
pub open spec fn create_decision(req: CreateUserView, found: Result<UserView, MyErrorView>) -> Option<
    MyErrorView,
> {
    match create_request_error(req) {
        Some(e) => Some(e),
        None => match found {
            Ok(_) => Some(MyErrorView::InvalidInput("Telephone is already registered"@)),
            Err(MyErrorView::NotFound(_)) => None,
            Err(e) => Some(e),
        },
    }
}

/// Why an update is refused once the row was fetched, if it is.
pub open spec fn update_decision(upd: UpdateUserView, found: Result<UserView, MyErrorView>) -> Option<
    MyErrorView,
> {
    match update_request_error(upd) {
        Some(e) => Some(e),
        None => match found {
            Err(e) => Some(e),
            Ok(u) => password_error(u, upd.old_password),
        },
    }
}

/// Why a deletion is refused once the row was fetched, if it is.
pub open spec fn delete_decision(
    telephone: Seq<char>,
    pwd: Seq<char>,
    found: Result<UserView, MyErrorView>,
) -> Option<MyErrorView> {
    match delete_request_error(telephone, pwd) {
        Some(e) => Some(e),
        None => match found {
            Err(e) => Some(e),
            Ok(u) => password_error(u, pwd),
        },
    }
}

/// Decides whether a registration goes on to the insert, given what a fetch of its
/// telephone returned.
pub fn decide_create(req: &CreateUser, found: &Result<User, MyError>) -> (r: Result<(), MyError>)
    ensures
        failure(r) == create_decision(req@, fetched(*found)),
{
    if let Err(e) = check_create_request(req) {
        return Err(e);
    }
    match found {
        Ok(_) => Err(MyError::InvalidInput("Telephone is already registered".to_string())),
        Err(MyError::NotFound(_)) => Ok(()),
        Err(e) => Err(e.duplicate()),
    }
}

/// Decides whether an update goes on to the write, given the fetched row.
pub fn decide_update(upd: &UpdateUser, found: &Result<User, MyError>) -> (r: Result<(), MyError>)
    ensures
        failure(r) == update_decision(upd@, fetched(*found)),
{
    if let Err(e) = check_update_request(upd) {
        return Err(e);
    }
    match found {
        Err(e) => Err(e.duplicate()),
        Ok(user) => check_password(user, &upd.old_password),
    }
}

/// Decides whether a deletion goes on to the delete, given the fetched row.
pub fn decide_delete(telephone: &String, pwd: &String, found: &Result<User, MyError>) -> (r: Result<
    (),
    MyError,
>)
    ensures
        failure(r) == delete_decision(telephone@, pwd@, fetched(*found)),
{
    if let Err(e) = check_delete_request(telephone, pwd) {
        return Err(e);
    }
    match found {
        Err(e) => Err(e.duplicate()),
        Ok(user) => check_password(user, pwd),
    }
}

/// Fetches the user that holds `telephone`.
pub fn get_user_details(table: &UserTable, telephone: String) -> (r: Result<User, MyError>)
    requires
        table.wf(),
    ensures
        fetched(r) == fetch_result(table@, telephone@),
{
    get_user_details_db(table, telephone)
}

/// Registers a user: checks the formats, refuses a telephone that is taken, and stores the row.
pub fn create_user(table: &mut UserTable, new_user: CreateUser) -> (r: Result<String, MyError>)
    requires
        old(table).wf(),
    ensures
        final(table).wf(),
        final(table)@.valid(),
        (final(table)@, answered(r)) == register_spec(old(table)@, new_user@),
{
    proof {
        table.lemma_view_valid();
    }
    let found = get_user_details_db(table, new_user.telephone.clone());
    if let Err(e) = decide_create(&new_user, &found) {
        return Err(e);
    }
    match create_user_db(table, new_user) {
        Ok(()) => Ok("Create user successfully".to_string()),
        Err(e) => Err(e),
    }
}

/// Updates the user that holds `telephone`, once the current password is confirmed.
pub fn update_user(table: &mut UserTable, update: UpdateUser, telephone: String) -> (r: Result<
    String,
    MyError,
>)
    requires
        old(table).wf(),
    ensures
        final(table).wf(),
        final(table)@.valid(),
        (final(table)@, answered(r)) == update_spec(old(table)@, telephone@, update@),
{
    proof {
        table.lemma_view_valid();
    }
    let found = get_user_details_db(table, telephone.clone());
    if let Err(e) = decide_update(&update, &found) {
        return Err(e);
    }
    match update_user_db(table, update, telephone) {
        Ok(()) => Ok("Update user successfully".to_string()),
        Err(e) => Err(e),
    }
}

/// Deletes the user that holds `telephone`, once the password is confirmed.
pub fn delete_user(table: &mut UserTable, telephone: String, pwd: String) -> (r: Result<
    String,
    MyError,
>)
    requires
        old(table).wf(),
    ensures
        final(table).wf(),
        final(table)@.valid(),
        (final(table)@, answered(r)) == delete_spec(old(table)@, telephone@, pwd@),
{
    proof {
        table.lemma_view_valid();
    }
    let found = get_user_details_db(table, telephone.clone());
    if let Err(e) = decide_delete(&telephone, &pwd, &found) {
        return Err(e);
    }
    match delete_user_db(table, telephone) {
        Ok(()) => Ok("Delete user successfully".to_string()),
        Err(e) => Err(e),
    }
}

/// A well-formed registration for a free telephone succeeds, and a fetch of that
/// telephone afterwards gives back exactly the request's fields, password included.
pub proof fn law_register_then_fetch(tab: UserTableView, req: CreateUserView)
    requires
        tab.valid(),
        password_ok(req.password),
        telephone_ok(req.telephone),
        !tab.rows.contains_key(req.telephone),
        tab.next_id < i32::MAX,
    ensures
        register_spec(tab, req).1 == Ok::<Seq<char>, MyErrorView>("Create user successfully"@),
        fetch_result(register_spec(tab, req).0, req.telephone) == Ok::<_, MyErrorView>(
            new_row(req, tab.next_id),
        ),
        new_row(req, tab.next_id).name == req.name,
        new_row(req, tab.next_id).telephone == req.telephone,
        new_row(req, tab.next_id).password == req.password,
        new_row(req, tab.next_id).ledger == req.ledger,
        new_row(req, tab.next_id).subscriber_type == req.subscriber_type,
        new_row(req, tab.next_id).email == req.email,
        new_row(req, tab.next_id).wechat == req.wechat,
        forall|k: Seq<char>| #[trigger]
            tab.rows.contains_key(k) ==> tab.rows[k].id != new_row(req, tab.next_id).id,
{
}

/// A registration with a short password, a telephone of the wrong length, or a
/// telephone that is taken fails as invalid input and leaves the table as it was.
pub proof fn law_register_rejects(tab: UserTableView, req: CreateUserView)
    requires
        !password_ok(req.password) || !telephone_ok(req.telephone) || tab.rows.contains_key(
            req.telephone,
        ),
    ensures
        register_spec(tab, req).1 matches Err(MyErrorView::InvalidInput(_)),
        register_spec(tab, req).0 == tab,
{
}

/// A fetch of a telephone that no row holds fails as not found.
pub proof fn law_fetch_missing(tab: UserTableView, tel: Seq<char>)
    requires
        !tab.rows.contains_key(tel),
    ensures
        fetch_result(tab, tel) matches Err(MyErrorView::NotFound(_)),
{
}

/// An update whose current password does not match the stored one fails as invalid
/// input, whatever else it asks for, and leaves the table as it was.
pub proof fn law_update_wrong_password(tab: UserTableView, tel: Seq<char>, upd: UpdateUserView)
    requires
        tab.rows.contains_key(tel),
        tab.rows[tel].password != upd.old_password,
    ensures
        update_spec(tab, tel, upd).1 matches Err(MyErrorView::InvalidInput(_)),
        update_spec(tab, tel, upd).0 == tab,
{
}

/// An update to a telephone of the wrong length fails as invalid input and leaves
/// the table as it was.
pub proof fn law_update_bad_telephone(tab: UserTableView, tel: Seq<char>, upd: UpdateUserView)
    requires
        upd.new_telephone is Some,
        !telephone_ok(upd.new_telephone->0),
    ensures
        update_spec(tab, tel, upd).1 matches Err(MyErrorView::InvalidInput(_)),
        update_spec(tab, tel, upd).0 == tab,
{
}

/// A deletion with a wrong password fails as invalid input, and the row can still be fetched.
pub proof fn law_delete_wrong_password(tab: UserTableView, tel: Seq<char>, pwd: Seq<char>)
    requires
        tab.rows.contains_key(tel),
        tab.rows[tel].password != pwd,
    ensures
        delete_spec(tab, tel, pwd).1 matches Err(MyErrorView::InvalidInput(_)),
        fetch_result(delete_spec(tab, tel, pwd).0, tel) == Ok::<_, MyErrorView>(tab.rows[tel]),
{
}

/// A deletion with the right password removes the row: a fetch afterwards fails as not found.
pub proof fn law_delete_then_fetch(tab: UserTableView, tel: Seq<char>, pwd: Seq<char>)
    requires
        tab.rows.contains_key(tel),
        tab.rows[tel].password == pwd,
        password_ok(pwd),
        telephone_ok(tel),
    ensures
        delete_spec(tab, tel, pwd).1 == Ok::<Seq<char>, MyErrorView>("Delete user successfully"@),
        fetch_result(delete_spec(tab, tel, pwd).0, tel) matches Err(MyErrorView::NotFound(_)),
{
}

/// A well-formed update with the right password, whose new telephone (if any) no other
/// row holds, succeeds: the merged row, with its identifier, can then be fetched under
/// its telephone, and the old telephone is free unless it was kept.
pub proof fn law_update_success(tab: UserTableView, tel: Seq<char>, upd: UpdateUserView)
    requires
        tab.valid(),
        tab.rows.contains_key(tel),
        update_request_error(upd) is None,
        tab.rows[tel].password == upd.old_password,
        upd.new_telephone is None || upd.new_telephone->0 == tel || !tab.rows.contains_key(
            upd.new_telephone->0,
        ),
    ensures
        update_spec(tab, tel, upd).1 == Ok::<Seq<char>, MyErrorView>("Update user successfully"@),
        update_spec(tab, tel, upd).0 == (UserTableView {
            rows: tab.rows.remove(tel).insert(pick(upd.new_telephone, tel), merged(tab.rows[tel], upd)),
            next_id: tab.next_id,
        }),
        merged(tab.rows[tel], upd).id == tab.rows[tel].id,
        fetch_result(update_spec(tab, tel, upd).0, pick(upd.new_telephone, tel)) == Ok::<
            _,
            MyErrorView,
        >(merged(tab.rows[tel], upd)),
        pick(upd.new_telephone, tel) != tel ==> fetch_result(update_spec(tab, tel, upd).0, tel) is Err,
{
}

/// An update that changes nothing, with the right password, succeeds and leaves the
/// table as it was.
pub proof fn law_no_op_update(tab: UserTableView, tel: Seq<char>, upd: UpdateUserView)
    requires
        tab.valid(),
        tab.rows.contains_key(tel),
        is_no_op(upd),
        tab.rows[tel].password == upd.old_password,
    ensures
        update_spec(tab, tel, upd) == (tab, Ok::<Seq<char>, MyErrorView>("Update user successfully"@)),
{
    assert(merged(tab.rows[tel], upd) == tab.rows[tel]);
    assert(tab.rows.remove(tel).insert(tel, tab.rows[tel]) =~= tab.rows);
}

} // verus!
