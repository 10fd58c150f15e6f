use vstd::prelude::*;

use crate::text::{decimal, decimal_of};

verus! {

/// Every way a call through the binding can fail.
#[derive(Debug, PartialEq, Eq)]
pub enum XdbError {
    /// Text handed to the native side holds a NUL byte.
    Encoding,
    /// The native open call returned no connection.
    Open,
    /// The native execute call returned no result at all.
    CallFailed,
    /// The statement ran and the result carries a non-zero error code.
    Sql { code: u16, message: String },
    /// The native call that starts a transaction reported failure.
    BeginFailed,
    /// The native commit call reported failure.
    CommitFailed,
    /// The native rollback call reported failure.
    RollbackFailed,
}

/// The text that describes an error.
pub open spec fn message_of(e: XdbError) -> Seq<char> {
    match e {
        XdbError::Encoding => "text holds an embedded NUL byte"@,
        XdbError::Open => "Failed to open database"@,
        XdbError::CallFailed => "Failed to execute SQL"@,
        XdbError::Sql { code, message } => "SQL error "@ + decimal_of(code as int) + ": "@ + message@,
        XdbError::BeginFailed => "Failed to begin transaction"@,
        XdbError::CommitFailed => "Failed to commit transaction"@,
        XdbError::RollbackFailed => "Failed to rollback transaction"@,
    }
}

impl XdbError {
    /// Describes the error in words.
    pub fn message(&self) -> (r: String)
        ensures
            r@ == message_of(*self),
    {
        match self {
            XdbError::Encoding => String::from_str("text holds an embedded NUL byte"),
            XdbError::Open => String::from_str("Failed to open database"),
            XdbError::CallFailed => String::from_str("Failed to execute SQL"),
            XdbError::Sql { code, message } => {
                let mut s = String::from_str("SQL error ");
                let digits = decimal(*code as i64);
                s.append(digits.as_str());
                s.append(": ");
                s.append(message.as_str());
                s
            },
            XdbError::BeginFailed => String::from_str("Failed to begin transaction"),
            XdbError::CommitFailed => String::from_str("Failed to commit transaction"),
            XdbError::RollbackFailed => String::from_str("Failed to rollback transaction"),
        }
    }
}

} // verus!
