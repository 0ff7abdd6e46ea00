use user_management::dbaccess::{
    create_user_db, delete_user_db, fetch_failure, get_user_details_db, update_user_db, UserTable,
};
use user_management::errors::MyError;
use user_management::handlers::{decide_create, decide_delete, decide_update};
use user_management::models::{merge_update, CreateUser, UpdateUser, User};
use user_management::validation::{
    check_create_request, check_delete_request, check_password, check_update_request,
    is_valid_password, is_valid_telephone,
};

fn ann() -> User {
    User {
        id: 7,
        name: "Ann".to_string(),
        telephone: "18570771568".to_string(),
        password: "secret1".to_string(),
        ledger: "daily".to_string(),
        subscriber_type: "Not".to_string(),
        email: Some("ann@example.com".to_string()),
        wechat: None,
    }
}

fn empty_update(old_password: &str) -> UpdateUser {
    UpdateUser {
        name: None,
        new_telephone: None,
        new_password: None,
        old_password: old_password.to_string(),
        ledger: None,
        subscriber_type: None,
        email: None,
        wechat: None,
    }
}

fn create(telephone: &str, password: &str) -> CreateUser {
    CreateUser {
        name: "Ann".to_string(),
        telephone: telephone.to_string(),
        password: password.to_string(),
        ledger: "daily".to_string(),
        subscriber_type: "Not".to_string(),
        email: None,
        wechat: None,
    }
}

#[test]
fn status_codes_by_kind() {
    assert_eq!(MyError::DBError("x".to_string()).status_code(), 500);
    assert_eq!(MyError::ActixError("x".to_string()).status_code(), 500);
    assert_eq!(MyError::NotFound("x".to_string()).status_code(), 404);
    assert_eq!(MyError::InvalidInput("x".to_string()).status_code(), 400);
}

#[test]
fn public_messages_hide_internal_details() {
    assert_eq!(MyError::DBError("pool closed".to_string()).error_response(), "Database error");
    assert_eq!(MyError::ActixError("boom".to_string()).error_response(), "Internal server error");
    assert_eq!(MyError::NotFound("No user found".to_string()).error_response(), "No user found");
    assert_eq!(MyError::InvalidInput("bad".to_string()).error_response(), "bad");
    assert_eq!(MyError::DBError("pool closed".to_string()).to_response().error_msg, "Database error");
}

#[test]
fn password_length_boundary() {
    assert!(!is_valid_password(&"abcde".to_string()));
    assert!(is_valid_password(&"abcdef".to_string()));
    assert!(!is_valid_password(&"".to_string()));
}

#[test]
fn telephone_length_is_exactly_eleven() {
    assert!(is_valid_telephone(&"18570771568".to_string()));
    assert!(!is_valid_telephone(&"1857077156".to_string()));
    assert!(!is_valid_telephone(&"185707715680".to_string()));
    assert!(is_valid_telephone(&"abcdefghijk".to_string()));
}

#[test]
fn length_counts_bytes() {
    // "é" takes two bytes: three of them make six.
    assert!(is_valid_password(&"ééé".to_string()));
}

#[test]
fn create_request_checks_password_first() {
    let r = check_create_request(&create("123", "abc"));
    assert!(matches!(r, Err(MyError::InvalidInput(ref m)) if m == "Invalid password format"));
    let r = check_create_request(&create("123", "abcdef"));
    assert!(matches!(r, Err(MyError::InvalidInput(ref m)) if m == "Invalid telephone format"));
    assert!(check_create_request(&create("18570771568", "abcdef")).is_ok());
}

#[test]
fn decide_create_by_fetch_outcome() {
    let req = create("18570771568", "secret1");
    assert!(decide_create(&req, &Err(MyError::NotFound("No user found".to_string()))).is_ok());
    let r = decide_create(&req, &Ok(ann()));
    assert!(matches!(r, Err(MyError::InvalidInput(ref m)) if m == "Telephone is already registered"));
    let r = decide_create(&req, &Err(MyError::DBError("Failed to fetch user".to_string())));
    assert!(matches!(r, Err(MyError::DBError(ref m)) if m == "Failed to fetch user"));
    let r = decide_create(&create("18570771568", "abcde"), &Ok(ann()));
    assert!(matches!(r, Err(MyError::InvalidInput(ref m)) if m == "Invalid password format"));
}

#[test]
fn decide_update_by_fetch_outcome() {
    assert!(decide_update(&empty_update("secret1"), &Ok(ann())).is_ok());
    let r = decide_update(&empty_update("wrong12"), &Ok(ann()));
    assert!(matches!(r, Err(MyError::InvalidInput(ref m)) if m == "Password is NOT correct"));
    let r = decide_update(&empty_update("secret1"), &Err(MyError::NotFound("No user found".to_string())));
    assert!(matches!(r, Err(MyError::NotFound(ref m)) if m == "No user found"));
    let mut upd = empty_update("wrong12");
    upd.new_telephone = Some("123".to_string());
    let r = decide_update(&upd, &Ok(ann()));
    assert!(matches!(r, Err(MyError::InvalidInput(ref m)) if m == "Invalid new telephone format"));
}

#[test]
fn decide_delete_by_fetch_outcome() {
    let tel = "18570771568".to_string();
    assert!(decide_delete(&tel, &"secret1".to_string(), &Ok(ann())).is_ok());
    let r = decide_delete(&tel, &"secret2".to_string(), &Ok(ann()));
    assert!(matches!(r, Err(MyError::InvalidInput(ref m)) if m == "Password is NOT correct"));
    let r = decide_delete(&tel, &"secret1".to_string(), &Err(MyError::DBError("down".to_string())));
    assert!(matches!(r, Err(MyError::DBError(ref m)) if m == "down"));
    let r = decide_delete(&"1".to_string(), &"secret1".to_string(), &Ok(ann()));
    assert!(matches!(r, Err(MyError::InvalidInput(ref m)) if m == "Invalid telephone format"));
}

#[test]
fn fetch_failure_classifies() {
    assert!(matches!(fetch_failure(true), MyError::NotFound(ref m) if m == "No user found"));
    assert!(matches!(fetch_failure(false), MyError::DBError(ref m) if m == "Failed to fetch user"));
    assert_eq!(fetch_failure(false).status_code(), 500);
}

#[test]
fn error_duplicate_keeps_kind_and_message() {
    let e = MyError::NotFound("gone".to_string()).duplicate();
    assert!(matches!(e, MyError::NotFound(ref m) if m == "gone"));
}

#[test]
fn store_update_merges_and_keeps_id() {
    let mut table = UserTable::new();
    let mut req = create("18570771568", "secret1");
    req.wechat = Some("ann_wx".to_string());
    create_user_db(&mut table, req).unwrap();
    create_user_db(&mut table, create("13900000000", "secret2")).unwrap();
    let mut upd = empty_update("secret1");
    upd.email = Some("ann@example.com".to_string());
    upd.ledger = Some("business".to_string());
    update_user_db(&mut table, upd, "18570771568".to_string()).unwrap();
    let u = get_user_details_db(&table, "18570771568".to_string()).unwrap();
    assert_eq!(u.id, 1);
    assert_eq!(u.ledger, "business");
    assert_eq!(u.email, Some("ann@example.com".to_string()));
    assert_eq!(u.wechat, Some("ann_wx".to_string()));
    let other = get_user_details_db(&table, "13900000000".to_string()).unwrap();
    assert_eq!(other.id, 2);
    assert_eq!(other.password, "secret2");
}

#[test]
fn store_update_twice_is_once() {
    let mut table = UserTable::new();
    create_user_db(&mut table, create("18570771568", "secret1")).unwrap();
    let make = || {
        let mut upd = empty_update("secret1");
        upd.name = Some("Anne".to_string());
        upd.new_password = Some("secret9".to_string());
        upd
    };
    update_user_db(&mut table, make(), "18570771568".to_string()).unwrap();
    update_user_db(&mut table, make(), "18570771568".to_string()).unwrap();
    let u = get_user_details_db(&table, "18570771568".to_string()).unwrap();
    assert_eq!(u.name, "Anne");
    assert_eq!(u.password, "secret9");
    assert_eq!(u.id, 1);
}

#[test]
fn update_request_checks() {
    assert!(check_update_request(&empty_update("x")).is_ok());
    let mut upd = empty_update("x");
    upd.new_password = Some("12345".to_string());
    upd.new_telephone = Some("1".to_string());
    let r = check_update_request(&upd);
    assert!(matches!(r, Err(MyError::InvalidInput(ref m)) if m == "Invalid new password format"));
    upd.new_password = Some("123456".to_string());
    let r = check_update_request(&upd);
    assert!(matches!(r, Err(MyError::InvalidInput(ref m)) if m == "Invalid new telephone format"));
}

#[test]
fn delete_request_checks() {
    assert!(check_delete_request(&"18570771568".to_string(), &"secret1".to_string()).is_ok());
    let r = check_delete_request(&"185".to_string(), &"secret1".to_string());
    assert!(matches!(r, Err(MyError::InvalidInput(ref m)) if m == "Invalid telephone format"));
}

#[test]
fn password_comparison_is_verbatim() {
    assert!(check_password(&ann(), &"secret1".to_string()).is_ok());
    let r = check_password(&ann(), &"Secret1".to_string());
    assert!(matches!(r, Err(MyError::InvalidInput(ref m)) if m == "Password is NOT correct"));
}

#[test]
fn merge_no_op_is_identity() {
    let old = ann();
    let m = merge_update(&old, empty_update("secret1"));
    assert_eq!(m.id, old.id);
    assert_eq!(m.name, old.name);
    assert_eq!(m.telephone, old.telephone);
    assert_eq!(m.password, old.password);
    assert_eq!(m.ledger, old.ledger);
    assert_eq!(m.subscriber_type, old.subscriber_type);
    assert_eq!(m.email, old.email);
    assert_eq!(m.wechat, old.wechat);
}

#[test]
fn merge_takes_given_fields() {
    let mut upd = empty_update("secret1");
    upd.name = Some("Anne".to_string());
    upd.new_telephone = Some("13900000000".to_string());
    upd.new_password = Some("newpass".to_string());
    upd.ledger = Some("business".to_string());
    upd.subscriber_type = Some("Yes".to_string());
    upd.wechat = Some("anne_wx".to_string());
    let m = merge_update(&ann(), upd);
    assert_eq!(m.id, 7);
    assert_eq!(m.name, "Anne");
    assert_eq!(m.telephone, "13900000000");
    assert_eq!(m.password, "newpass");
    assert_eq!(m.ledger, "business");
    assert_eq!(m.subscriber_type, "Yes");
    assert_eq!(m.email, Some("ann@example.com".to_string()));
    assert_eq!(m.wechat, Some("anne_wx".to_string()));
}

#[test]
fn duplicate_copies_every_field() {
    let a = ann();
    let b = a.duplicate();
    assert_eq!(b.id, a.id);
    assert_eq!(b.name, a.name);
    assert_eq!(b.email, a.email);
}

#[test]
fn store_assigns_increasing_ids() {
    let mut table = UserTable::new();
    create_user_db(&mut table, create("18570771568", "secret1")).unwrap();
    create_user_db(&mut table, create("13900000000", "secret1")).unwrap();
    assert_eq!(get_user_details_db(&table, "18570771568".to_string()).unwrap().id, 1);
    assert_eq!(get_user_details_db(&table, "13900000000".to_string()).unwrap().id, 2);
    assert!(table.contains(&"13900000000".to_string()));
}

#[test]
fn store_refuses_duplicate_insert() {
    let mut table = UserTable::new();
    create_user_db(&mut table, create("18570771568", "secret1")).unwrap();
    let r = create_user_db(&mut table, create("18570771568", "other12"));
    assert!(matches!(r, Err(MyError::DBError(ref m)) if m == "Failed to create user"));
}

#[test]
fn store_update_missing_row() {
    let mut table = UserTable::new();
    let r = update_user_db(&mut table, empty_update("x"), "18570771568".to_string());
    assert!(matches!(r, Err(MyError::NotFound(ref m)) if m == "User is NOT found"));
}

#[test]
fn store_delete_absent_row_is_ok() {
    let mut table = UserTable::new();
    assert!(delete_user_db(&mut table, "18570771568".to_string()).is_ok());
    create_user_db(&mut table, create("18570771568", "secret1")).unwrap();
    assert!(delete_user_db(&mut table, "18570771568".to_string()).is_ok());
    assert!(!table.contains(&"18570771568".to_string()));
}
