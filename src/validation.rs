use vstd::prelude::*;
use vstd::utf8::encode_utf8;
use crate::errors::{MyError, MyErrorView};
use crate::models::{CreateUser, CreateUserView, UpdateUser, UpdateUserView, User, UserView};

verus! {

/// The fewest bytes a password may have.
pub const MIN_PASSWORD_LEN: usize = 6;

/// The number of bytes a telephone number has.
pub const TELEPHONE_LEN: usize = 11;

/// The length of a string in bytes, as `str::len` gives it.
pub open spec fn byte_len(s: Seq<char>) -> usize {
    encode_utf8(s).len() as usize
}

pub open spec fn password_ok(p: Seq<char>) -> bool {
    byte_len(p) >= MIN_PASSWORD_LEN
}

pub open spec fn telephone_ok(t: Seq<char>) -> bool {
    byte_len(t) == TELEPHONE_LEN
}

/// The failure that a result carries, if any.
pub open spec fn failure<T>(r: Result<T, MyError>) -> Option<MyErrorView> {
    match r {
        Ok(_) => None,
        Err(e) => Some(e@),
    }
}

pub open spec fn invalid(msg: &str) -> Option<MyErrorView> {
    Some(MyErrorView::InvalidInput(msg@))
}

/// Why a registration request is refused before the store is consulted, if it is.
pub open spec fn create_request_error(req: CreateUserView) -> Option<MyErrorView> {
    if !password_ok(req.password) {
        invalid("Invalid password format")
    } else if !telephone_ok(req.telephone) {
        invalid("Invalid telephone format")
    } else {
        None
    }
}

/// Why an update request is refused before the store is consulted, if it is.
pub open spec fn update_request_error(upd: UpdateUserView) -> Option<MyErrorView> {
    if upd.new_password is Some && !password_ok(upd.new_password->0) {
        invalid("Invalid new password format")
    } else if upd.new_telephone is Some && !telephone_ok(upd.new_telephone->0) {
        invalid("Invalid new telephone format")
    } else {
        None
    }
}

/// Why a deletion is refused before the store is consulted, if it is.
pub open spec fn delete_request_error(telephone: Seq<char>, pwd: Seq<char>) -> Option<MyErrorView> {
    if !password_ok(pwd) {
        invalid("Invalid password format")
    } else if !telephone_ok(telephone) {
        invalid("Invalid telephone format")
    } else {
        None
    }
}

/// Why a supplied password is refused for a stored row, if it is.
pub open spec fn password_error(stored: UserView, supplied: Seq<char>) -> Option<MyErrorView> {
    if stored.password != supplied {
        invalid("Password is NOT correct")
    } else {
        None
    }
}

/// Whether `p` is long enough to be a password.
pub fn is_valid_password(p: &String) -> (r: bool)
    ensures
        r == password_ok(p@),
{
    p.as_str().len() >= MIN_PASSWORD_LEN
}

/// Whether `t` has the length of a telephone number.
pub fn is_valid_telephone(t: &String) -> (r: bool)
    ensures
        r == telephone_ok(t@),
{
    t.as_str().len() == TELEPHONE_LEN
}

fn invalid_input(msg: &str) -> (r: MyError)
    ensures
        r@ == MyErrorView::InvalidInput(msg@),
{
    MyError::InvalidInput(msg.to_string())
}

/// Checks the password and telephone formats of a registration request.
pub fn check_create_request(req: &CreateUser) -> (r: Result<(), MyError>)
    ensures
        failure(r) == create_request_error(req@),
{
    if !is_valid_password(&req.password) {
        return Err(invalid_input("Invalid password format"));
    }
    if !is_valid_telephone(&req.telephone) {
        return Err(invalid_input("Invalid telephone format"));
    }
    Ok(())
}

/// Checks the formats of the new password and telephone that an update supplies.
pub fn check_update_request(upd: &UpdateUser) -> (r: Result<(), MyError>)
    ensures
        failure(r) == update_request_error(upd@),
{
    if let Some(new_pwd) = &upd.new_password {
        if !is_valid_password(new_pwd) {
            return Err(invalid_input("Invalid new password format"));
        }
    }
    if let Some(new_tel) = &upd.new_telephone {
        if !is_valid_telephone(new_tel) {
            return Err(invalid_input("Invalid new telephone format"));
        }
    }
    Ok(())
}

/// Checks the formats of the password and telephone that a deletion supplies.
pub fn check_delete_request(telephone: &String, pwd: &String) -> (r: Result<(), MyError>)
    ensures
        failure(r) == delete_request_error(telephone@, pwd@),
{
    if !is_valid_password(pwd) {
        return Err(invalid_input("Invalid password format"));
    }
    if !is_valid_telephone(telephone) {
        return Err(invalid_input("Invalid telephone format"));
    }
    Ok(())
}

/// Compares a supplied password with the stored one, verbatim.
pub fn check_password(stored: &User, supplied: &String) -> (r: Result<(), MyError>)
    ensures
        failure(r) == password_error(stored@, supplied@),
{
    if stored.password != *supplied {
        Err(invalid_input("Password is NOT correct"))
    } else {
        Ok(())
    }
}

} // verus!
