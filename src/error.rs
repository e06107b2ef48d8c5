//! Errors of the storage and cryptographic collaborators, shape-check
//! failures, and the client-facing failure signals of the flows.

use vstd::prelude::*;

verus! {

/// Errors raised while talking to the store or to the cryptographic
/// primitives.
#[derive(Debug, Clone, Copy, PartialEq, Eq, Structural)]
pub enum KontrollerError {
    /// The connection to the store could not be opened.
    DbConnection,
    /// An operation was attempted before the store was connected.
    DbNotConnected,
    /// The accounts table could not be created.
    DbTableCreation,
    /// A transaction could not be started or committed.
    DbTransaction,
    /// A statement could not be prepared or executed.
    DbSQL,
    /// A row was read but a column held an unexpected value, or a value
    /// could not be written to its column.
    DbField,
    /// A uniqueness constraint (username or email) rejected an insert.
    DbConstraint,
    /// The password could not be hashed.
    PasswordHashing,
    /// The password hash could not be checked.
    PasswordVerifyHash,
    /// The session token could not be issued.
    SessionIssue,
    /// The configuration could not be read.
    ConfigError,
}

impl KontrollerError {
    /// A human-readable description of the error.
    pub fn message(&self) -> (r: &'static str)
        ensures
            r@ == self.message_spec(),
    {
        match self {
            KontrollerError::DbConnection => "Database connection error",
            KontrollerError::DbNotConnected => "The database is not connected",
            KontrollerError::DbTableCreation => "Ann error occured while trying to create a database table",
            KontrollerError::DbTransaction => "Database transaction error",
            KontrollerError::DbSQL => "Something went wrong while processing the SQL statement",
            KontrollerError::DbField => "Could not refference the database table field",
            KontrollerError::DbConstraint => "A unique value is already taken",
            KontrollerError::PasswordHashing => "Could not hash password",
            KontrollerError::PasswordVerifyHash => "Could not verify password hash",
            KontrollerError::SessionIssue => "Could not issue the session token",
            KontrollerError::ConfigError => "Could not read config file",
        }
    }

    pub open spec fn message_spec(&self) -> Seq<char> {
        match self {
            KontrollerError::DbConnection => "Database connection error"@,
            KontrollerError::DbNotConnected => "The database is not connected"@,
            KontrollerError::DbTableCreation => "Ann error occured while trying to create a database table"@,
            KontrollerError::DbTransaction => "Database transaction error"@,
            KontrollerError::DbSQL => "Something went wrong while processing the SQL statement"@,
            KontrollerError::DbField => "Could not refference the database table field"@,
            KontrollerError::DbConstraint => "A unique value is already taken"@,
            KontrollerError::PasswordHashing => "Could not hash password"@,
            KontrollerError::PasswordVerifyHash => "Could not verify password hash"@,
            KontrollerError::SessionIssue => "Could not issue the session token"@,
            KontrollerError::ConfigError => "Could not read config file"@,
        }
    }

    /// Whether the error stems from the data a client submitted rather
    /// than from a fault of the server.
    pub fn is_client_data_error(&self) -> (r: bool)
        ensures
            r == (*self == KontrollerError::DbField || *self == KontrollerError::DbConstraint),
    {
        match self {
            KontrollerError::DbField | KontrollerError::DbConstraint => true,
            _ => false,
        }
    }
}

/// The shape check that rejected a submitted credential.
#[derive(Debug, Clone, Copy, PartialEq, Eq, Structural)]
pub enum ValidationError {
    Username,
    Password,
    Email,
}

/// The failure signal a flow hands back to the request-dispatch layer.
/// It never carries internal detail.
#[derive(Debug, Clone, Copy, PartialEq, Eq, Structural)]
pub enum ErrorResponse {
    BadRequest,
    Unauthorized,
    NotFound,
    Internal,
}

impl ErrorResponse {
    /// The HTTP status code of the signal.
    pub fn status_code(&self) -> (r: u16)
        ensures
            r == self.status_code_spec(),
    {
        match self {
            ErrorResponse::BadRequest => 400,
            ErrorResponse::Unauthorized => 401,
            ErrorResponse::NotFound => 404,
            ErrorResponse::Internal => 500,
        }
    }

    pub open spec fn status_code_spec(&self) -> u16 {
        match self {
            ErrorResponse::BadRequest => 400,
            ErrorResponse::Unauthorized => 401,
            ErrorResponse::NotFound => 404,
            ErrorResponse::Internal => 500,
        }
    }
}

} // verus!
