use vstd::prelude::*;
use vstd::string::to_string_from_display_ensures;

use crate::report::{decimal, push_decimal};

verus! {

#[verifier::external_type_specification]
#[verifier::external_body]
pub struct ExIoError(std::io::Error);

#[verifier::external_type_specification]
#[verifier::external_body]
pub struct ExJsonError(serde_json::Error);

/// Why an account could not be loaded or summarised.
#[derive(Debug)]
pub enum AccountError {
    /// The account file could not be opened or read.
    Io(std::io::Error),
    /// The account file is not JSON of the account's shape.
    Json(serde_json::Error),
    /// The transactions sum to this negative balance.
    NegativeBalance(i64),
}

impl From<std::io::Error> for AccountError {
    fn from(err: std::io::Error) -> (r: AccountError)
        ensures
            r == AccountError::Io(err),
    {
        AccountError::Io(err)
    }
}

impl vstd::std_specs::convert::FromSpecImpl<std::io::Error> for AccountError {
    open spec fn obeys_from_spec() -> bool {
        true
    }

    open spec fn from_spec(v: std::io::Error) -> AccountError {
        AccountError::Io(v)
    }
}

impl From<serde_json::Error> for AccountError {
    fn from(err: serde_json::Error) -> (r: AccountError)
        ensures
            r == AccountError::Json(err),
    {
        AccountError::Json(err)
    }
}

impl vstd::std_specs::convert::FromSpecImpl<serde_json::Error> for AccountError {
    open spec fn obeys_from_spec() -> bool {
        true
    }

    open spec fn from_spec(v: serde_json::Error) -> AccountError {
        AccountError::Json(v)
    }
}

impl AccountError {
    /// A short phrase naming the kind of error.
    pub fn description(&self) -> (r: &'static str)
        ensures
            self is Io ==> r@ == "I/O error"@,
            self is Json ==> r@ == "JSON error"@,
            self is NegativeBalance ==> r@ == "Negative balance"@,
    {
        match self {
            AccountError::Io(_) => "I/O error",
            AccountError::Json(_) => "JSON error",
            AccountError::NegativeBalance(_) => "Negative balance",
        }
    }

    /// A one-line description of the error: the kind, then the underlying
    /// error's own text for I/O and JSON errors, or the offending balance.
    pub fn message(&self) -> (r: String)
        ensures
            self matches AccountError::Io(e) ==> exists|t: String|
                to_string_from_display_ensures::<std::io::Error>(&e, t)
                && r@ == "I/O error: "@ + t@,
            self matches AccountError::Json(e) ==> exists|t: String|
                to_string_from_display_ensures::<serde_json::Error>(&e, t)
                && r@ == "JSON error: "@ + t@,
            self matches AccountError::NegativeBalance(b) ==> r@ == "Negative balance of "@
                + decimal(b as int) + " credits"@,
    {
        let mut s = String::new();
        match self {
            AccountError::Io(e) => {
                let text = e.to_string();
                s.append("I/O error: ");
                s.append(text.as_str());
            },
            AccountError::Json(e) => {
                let text = e.to_string();
                s.append("JSON error: ");
                s.append(text.as_str());
            },
            AccountError::NegativeBalance(b) => {
                s.append("Negative balance of ");
                push_decimal(&mut s, *b);
                s.append(" credits");
            },
        }
        s
    }
}

} // verus!
