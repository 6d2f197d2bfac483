use vstd::prelude::*;

use crate::search::wire::{json_string, quote};

verus! {

/// The failures that the service reports to its clients.
pub enum ServiceError {
    InternalServerError,
    BadRequest(String),
    Unauthorized,
}

impl ServiceError {
    /// The error as one line of text.
    pub fn message(&self) -> (r: String)
        ensures
            r@ == match self {
                ServiceError::InternalServerError => "Internal Server Error"@,
                ServiceError::BadRequest(m) => "BadRequest: "@ + m@,
                ServiceError::Unauthorized => "Unauthorized"@,
            },
    {
        match self {
            ServiceError::InternalServerError => String::from_str("Internal Server Error"),
            ServiceError::BadRequest(m) => String::from_str("BadRequest: ").concat(m.as_str()),
            ServiceError::Unauthorized => String::from_str("Unauthorized"),
        }
    }

    /// The HTTP status of the response for this error.
    pub fn status_code(&self) -> (r: u16)
        ensures
            r == match self {
                ServiceError::InternalServerError => 500u16,
                ServiceError::BadRequest(_) => 400u16,
                ServiceError::Unauthorized => 401u16,
            },
    {
        match self {
            ServiceError::InternalServerError => 500,
            ServiceError::BadRequest(_) => 400,
            ServiceError::Unauthorized => 401,
        }
    }

    /// The JSON body of the response for this error: a string that leaks no
    /// detail of an internal failure.
    pub fn response_body(&self) -> (r: String)
        ensures
            r@ == json_string(
                match self {
                    ServiceError::InternalServerError => "Internal Server Error, Please try later"@,
                    ServiceError::BadRequest(m) => m@,
                    ServiceError::Unauthorized => "Unauthorized"@,
                },
            ),
    {
        match self {
            ServiceError::InternalServerError => quote("Internal Server Error, Please try later"),
            ServiceError::BadRequest(m) => quote(m.as_str()),
            ServiceError::Unauthorized => quote("Unauthorized"),
        }
    }

    /// A database failure: a violated unique constraint is the client's
    /// fault and reports the database's details (or else its message);
    /// anything else is internal.
    pub fn from_database_error(unique_violation: bool, details: Option<String>, message: String) -> (r:
        Self)
        ensures
            !unique_violation ==> r is InternalServerError,
            unique_violation ==> (r matches ServiceError::BadRequest(m) && m@ == match details {
                Some(d) => d@,
                None => message@,
            }),
    {
        if unique_violation {
            match details {
                Some(d) => ServiceError::BadRequest(d),
                None => ServiceError::BadRequest(message),
            }
        } else {
            ServiceError::InternalServerError
        }
    }

    /// A password check failure: a wrong password is unauthorized, anything
    /// else is internal.
    pub fn from_password_error(invalid_password: bool) -> (r: Self)
        ensures
            invalid_password ==> r is Unauthorized,
            !invalid_password ==> r is InternalServerError,
    {
        if invalid_password {
            ServiceError::Unauthorized
        } else {
            ServiceError::InternalServerError
        }
    }
}

} // verus!
