//! Custom responses and errors: which path values succeed, which error each
//! failure becomes, and the status code and text of each error.
use vstd::prelude::*;
use crate::text::same_text;

verus! {

/// An error that carries its own description.
pub struct MyErr {
    pub name: String,
}

impl MyErr {
    /// The text of the error.
    pub fn message(&self) -> (s: String)
        ensures
            s@ == "my error: "@ + self.name@,
    {
        let mut s = String::from_str("my error: ");
        s.append(self.name.as_str());
        s
    }
}

/// The errors with a status code of their own.
#[derive(PartialEq, Eq, Structural)]
pub enum MyError {
    InternalError,
    BadClientData,
    Timeout,
}

/// The status code of each error.
pub open spec fn status_code_spec(e: MyError) -> u16 {
    match e {
        MyError::InternalError => 500,
        MyError::BadClientData => 400,
        MyError::Timeout => 504,
    }
}

/// The text of each error.
pub open spec fn error_text(e: MyError) -> Seq<char> {
    match e {
        MyError::InternalError => "internal error"@,
        MyError::BadClientData => "bad request"@,
        MyError::Timeout => "timeout"@,
    }
}

impl MyError {
    /// The HTTP status code of the error.
    pub fn status_code(&self) -> (code: u16)
        ensures
            code == status_code_spec(*self),
    {
        match self {
            MyError::InternalError => 500,
            MyError::BadClientData => 400,
            MyError::Timeout => 504,
        }
    }

    /// The text of the error, which is also its response body.
    pub fn message(&self) -> (s: String)
        ensures
            s@ == error_text(*self),
    {
        match self {
            MyError::InternalError => String::from_str("internal error"),
            MyError::BadClientData => String::from_str("bad request"),
            MyError::Timeout => String::from_str("timeout"),
        }
    }
}

/// Succeeds with `true` when the path value is `true`, and fails with the
/// self-describing error otherwise.
pub fn error_test(answer: &str) -> (r: Result<String, MyErr>)
    ensures
        answer@ == "true"@ ==> r is Ok && r->Ok_0@ == "true"@,
        answer@ != "true"@ ==> r is Err && r->Err_0.name@ == "Custom err : Bad req "@,
{
    if same_text(answer, "true") {
        Ok(String::from_str("true"))
    } else {
        Err(MyErr { name: String::from_str("Custom err : Bad req ") })
    }
}

/// Succeeds with `true` when the path value is `true`, and fails with
/// `BadClientData` otherwise.
pub fn complex_error_test(data: &str) -> (r: Result<String, MyError>)
    ensures
        data@ == "true"@ ==> r is Ok && r->Ok_0@ == "true"@,
        data@ != "true"@ ==> r == Err::<String, MyError>(MyError::BadClientData),
{
    if same_text(data, "true") {
        Ok(String::from_str("true"))
    } else {
        Err(MyError::BadClientData)
    }
}

/// The bad-request message that the error helper page answers for
/// `request`.
pub fn error_helper(request: &str) -> (message: String)
    ensures
        message@ == "Error 400 : "@ + request@,
{
    let mut message = String::from_str("Error 400 : ");
    message.append(request);
    message
}

/// One of two kinds of answer.
pub enum EitherReply {
    /// A successful greeting.
    Greeting(String),
    /// A bad-request answer with its body.
    BadData(String),
}

/// Greets when `ok` holds and answers a bad request otherwise.
pub fn either(ok: bool) -> (r: EitherReply)
    ensures
        ok ==> (r matches EitherReply::Greeting(s) && s@ == "Hello !"@),
        !ok ==> (r matches EitherReply::BadData(s) && s@ == "BadData !"@),
{
    if ok {
        EitherReply::Greeting(String::from_str("Hello !"))
    } else {
        EitherReply::BadData(String::from_str("BadData !"))
    }
}

} // verus!
