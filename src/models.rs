use vstd::prelude::*;

verus! {

/// What a stored row holds, as mathematical values.
pub struct UserView {
    pub id: int,
    pub name: Seq<char>,
    pub telephone: Seq<char>,
    pub password: Seq<char>,
    pub ledger: Seq<char>,
    pub subscriber_type: Seq<char>,
    pub email: Option<Seq<char>>,
    pub wechat: Option<Seq<char>>,
}

/// What a registration request holds, as mathematical values.
pub struct CreateUserView {
    pub name: Seq<char>,
    pub telephone: Seq<char>,
    pub password: Seq<char>,
    pub ledger: Seq<char>,
    pub subscriber_type: Seq<char>,
    pub email: Option<Seq<char>>,
    pub wechat: Option<Seq<char>>,
}

/// What an update request holds, as mathematical values.
pub struct UpdateUserView {
    pub name: Option<Seq<char>>,
    pub new_telephone: Option<Seq<char>>,
    pub new_password: Option<Seq<char>>,
    pub old_password: Seq<char>,
    pub ledger: Option<Seq<char>>,
    pub subscriber_type: Option<Seq<char>>,
    pub email: Option<Seq<char>>,
    pub wechat: Option<Seq<char>>,
}

/// The characters of an optional string.
pub open spec fn opt_seq(o: Option<String>) -> Option<Seq<char>> {
    match o {
        Some(s) => Some(s@),
        None => None,
    }
}

/// An optional field of an update: the new value where one is given, else the old one.
pub open spec fn pick(new: Option<Seq<char>>, old: Seq<char>) -> Seq<char> {
    match new {
        Some(v) => v,
        None => old,
    }
}

/// An optional field of an update that is itself optional in the row:
/// a given value replaces the old one, an absent one keeps it.
pub open spec fn pick_opt(new: Option<Seq<char>>, old: Option<Seq<char>>) -> Option<Seq<char>> {
    match new {
        Some(v) => Some(v),
        None => old,
    }
}

/// The row that results from applying `upd` to `old`; the identifier never changes.
pub open spec fn merged(old: UserView, upd: UpdateUserView) -> UserView {
    UserView {
        id: old.id,
        name: pick(upd.name, old.name),
        telephone: pick(upd.new_telephone, old.telephone),
        password: pick(upd.new_password, old.password),
        ledger: pick(upd.ledger, old.ledger),
        subscriber_type: pick(upd.subscriber_type, old.subscriber_type),
        email: pick_opt(upd.email, old.email),
        wechat: pick_opt(upd.wechat, old.wechat),
    }
}

/// The row that a registration request becomes under the identifier `id`.
pub open spec fn new_row(req: CreateUserView, id: int) -> UserView {
    UserView {
        id,
        name: req.name,
        telephone: req.telephone,
        password: req.password,
        ledger: req.ledger,
        subscriber_type: req.subscriber_type,
        email: req.email,
        wechat: req.wechat,
    }
}

/// An update request that changes nothing, given the current password.
pub open spec fn is_no_op(upd: UpdateUserView) -> bool {
    &&& upd.name is None
    &&& upd.new_telephone is None
    &&& upd.new_password is None
    &&& upd.ledger is None
    &&& upd.subscriber_type is None
    &&& upd.email is None
    &&& upd.wechat is None
}

/// A registration request.
#[derive(Debug)]
pub struct CreateUser {
    pub name: String,
    pub telephone: String,
    pub password: String,
    pub ledger: String,
    pub subscriber_type: String,
    pub email: Option<String>,
    pub wechat: Option<String>,
}

/// A partial update: every field but the current password may be absent.
#[derive(Debug)]
pub struct UpdateUser {
    pub name: Option<String>,
    pub new_telephone: Option<String>,
    pub new_password: Option<String>,
    pub old_password: String,
    pub ledger: Option<String>,
    pub subscriber_type: Option<String>,
    pub email: Option<String>,
    pub wechat: Option<String>,
}

/// A stored user.
#[derive(Debug)]
pub struct User {
    pub id: i32,
    pub name: String,
    pub telephone: String,
    pub password: String,
    pub ledger: String,
    pub subscriber_type: String,
    pub email: Option<String>,
    pub wechat: Option<String>,
}

impl View for CreateUser {
    type V = CreateUserView;

    open spec fn view(&self) -> CreateUserView {
        CreateUserView {
            name: self.name@,
            telephone: self.telephone@,
            password: self.password@,
            ledger: self.ledger@,
            subscriber_type: self.subscriber_type@,
            email: opt_seq(self.email),
            wechat: opt_seq(self.wechat),
        }
    }
}

impl View for UpdateUser {
    type V = UpdateUserView;

    open spec fn view(&self) -> UpdateUserView {
        UpdateUserView {
            name: opt_seq(self.name),
            new_telephone: opt_seq(self.new_telephone),
            new_password: opt_seq(self.new_password),
            old_password: self.old_password@,
            ledger: opt_seq(self.ledger),
            subscriber_type: opt_seq(self.subscriber_type),
            email: opt_seq(self.email),
            wechat: opt_seq(self.wechat),
        }
    }
}

impl View for User {
    type V = UserView;

    open spec fn view(&self) -> UserView {
        UserView {
            id: self.id as int,
            name: self.name@,
            telephone: self.telephone@,
            password: self.password@,
            ledger: self.ledger@,
            subscriber_type: self.subscriber_type@,
            email: opt_seq(self.email),
            wechat: opt_seq(self.wechat),
        }
    }
}

/// A copy of an optional string.
pub fn copy_opt(o: &Option<String>) -> (r: Option<String>)
    ensures
        opt_seq(r) == opt_seq(*o),
{
    match o {
        Some(s) => Some(s.clone()),
        None => None,
    }
}

/// `new` where it is given, else a copy of `old`.
fn pick_string(new: Option<String>, old: &String) -> (r: String)
    ensures
        r@ == pick(opt_seq(new), old@),
{
    match new {
        Some(v) => v,
        None => old.clone(),
    }
}

/// `Some(new)` where it is given, else a copy of `old`.
fn pick_opt_string(new: Option<String>, old: &Option<String>) -> (r: Option<String>)
    ensures
        opt_seq(r) == pick_opt(opt_seq(new), opt_seq(*old)),
{
    match new {
        Some(v) => Some(v),
        None => copy_opt(old),
    }
}

impl User {
    /// A copy of the row, field by field.
    pub fn duplicate(&self) -> (r: User)
        ensures
            r@ == self@,
    {
        User {
            id: self.id,
            name: self.name.clone(),
            telephone: self.telephone.clone(),
            password: self.password.clone(),
            ledger: self.ledger.clone(),
            subscriber_type: self.subscriber_type.clone(),
            email: copy_opt(&self.email),
            wechat: copy_opt(&self.wechat),
        }
    }

    /// The row that registering `req` under the identifier `id` stores.
    pub fn from_request(req: CreateUser, id: i32) -> (r: User)
        ensures
            r@ == new_row(req@, id as int),
    {
        User {
            id,
            name: req.name,
            telephone: req.telephone,
            password: req.password,
            ledger: req.ledger,
            subscriber_type: req.subscriber_type,
            email: req.email,
            wechat: req.wechat,
        }
    }
}

/// Applies an update to a row: each field given in `upd` replaces the row's,
/// each absent one keeps it; the identifier is kept.
pub fn merge_update(old: &User, upd: UpdateUser) -> (r: User)
    ensures
        r@ == merged(old@, upd@),
{
    User {
        id: old.id,
        name: pick_string(upd.name, &old.name),
        telephone: pick_string(upd.new_telephone, &old.telephone),
        password: pick_string(upd.new_password, &old.password),
        ledger: pick_string(upd.ledger, &old.ledger),
        subscriber_type: pick_string(upd.subscriber_type, &old.subscriber_type),
        email: pick_opt_string(upd.email, &old.email),
        wechat: pick_opt_string(upd.wechat, &old.wechat),
    }
}

/// Merging a request that changes nothing gives back the row it was applied to.
pub proof fn law_no_op_merge(old: UserView, upd: UpdateUserView)
    requires
        is_no_op(upd),
        upd.old_password == old.password,
    ensures
        merged(old, upd) == old,
{
}

} // verus!
