use vstd::prelude::*;

verus! {

/// The kind of a failure and the message it carries, as mathematical values.
pub enum MyErrorView {
    DBError(Seq<char>),
    ActixError(Seq<char>),
    NotFound(Seq<char>),
    InvalidInput(Seq<char>),
}

/// The closed set of failures that an operation can surface.
#[derive(Debug)]
pub enum MyError {
    /// The backing store failed.
    DBError(String),
    /// The request/response layer failed.
    ActixError(String),
    /// No row matches the given telephone.
    NotFound(String),
    /// A format violation, a duplicate registration or a wrong password.
    InvalidInput(String),
}

/// The body of an error answer: one message field.
#[derive(Debug)]
pub struct MyErrorResponse {
    pub error_msg: String,
}

impl View for MyError {
    type V = MyErrorView;

    open spec fn view(&self) -> MyErrorView {
        match self {
            MyError::DBError(m) => MyErrorView::DBError(m@),
            MyError::ActixError(m) => MyErrorView::ActixError(m@),
            MyError::NotFound(m) => MyErrorView::NotFound(m@),
            MyError::InvalidInput(m) => MyErrorView::InvalidInput(m@),
        }
    }
}

/// The status that an error of this kind is answered with.
pub open spec fn status_of(e: MyErrorView) -> u16 {
    match e {
        MyErrorView::DBError(_) | MyErrorView::ActixError(_) => 500,
        MyErrorView::NotFound(_) => 404,
        MyErrorView::InvalidInput(_) => 400,
    }
}

/// The message a user sees: storage and transport details stay internal,
/// the others carry their own message.
pub open spec fn public_message(e: MyErrorView) -> Seq<char> {
    match e {
        MyErrorView::DBError(_) => "Database error"@,
        MyErrorView::ActixError(_) => "Internal server error"@,
        MyErrorView::NotFound(m) => m,
        MyErrorView::InvalidInput(m) => m,
    }
}

impl MyError {
    /// The HTTP status that the error is answered with.
    pub fn status_code(&self) -> (r: u16)
        ensures
            r == status_of(self@),
    {
        match self {
            MyError::DBError(_) | MyError::ActixError(_) => 500,
            MyError::NotFound(_) => 404,
            MyError::InvalidInput(_) => 400,
        }
    }

    /// The message that the answer carries.
    pub fn error_response(&self) -> (r: String)
        ensures
            r@ == public_message(self@),
    {
        match self {
            MyError::DBError(_) => "Database error".to_string(),
            MyError::ActixError(_) => "Internal server error".to_string(),
            MyError::NotFound(msg) => msg.clone(),
            MyError::InvalidInput(msg) => msg.clone(),
        }
    }

    /// A copy of the error, kind and message.
    pub fn duplicate(&self) -> (r: MyError)
        ensures
            r@ == self@,
    {
        match self {
            MyError::DBError(m) => MyError::DBError(m.clone()),
            MyError::ActixError(m) => MyError::ActixError(m.clone()),
            MyError::NotFound(m) => MyError::NotFound(m.clone()),
            MyError::InvalidInput(m) => MyError::InvalidInput(m.clone()),
        }
    }

    /// The body that the error is answered with.
    pub fn to_response(&self) -> (r: MyErrorResponse)
        ensures
            r.error_msg@ == public_message(self@),
    {
        MyErrorResponse { error_msg: self.error_response() }
    }
}

} // verus!
