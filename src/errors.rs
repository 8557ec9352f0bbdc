use vstd::prelude::*;

verus! {

pub const DB_ERROR_CODE: i32 = 5000;
pub const USER_EXISTS_ERROR_CODE: i32 = 5001;
pub const LOGIN_ERROR_CODE: i32 = 5003;
pub const NO_USER_ERROR_CODE: i32 = 5004;
pub const EDIT_ERROR_CODE: i32 = 5005;
pub const DELETE_ERROR_CODE: i32 = 5007;
pub const WRONG_FORMAT_ERROR_CODE: i32 = 5008;
pub const WRONG_PATH_ERROR_CODE: i32 = 5009;

/// Every failure a client can see, each with a fixed wire code and message.
#[derive(Clone, Copy, Debug, PartialEq, Eq, Structural)]
pub enum ErrorKind {
    Db,
    UserExists,
    Login,
    NoUser,
    Edit,
    Delete,
    WrongFormat,
    WrongPath,
}

impl ErrorKind {
    pub open spec fn spec_code(self) -> i32 {
        match self {
            ErrorKind::Db => DB_ERROR_CODE,
            ErrorKind::UserExists => USER_EXISTS_ERROR_CODE,
            ErrorKind::Login => LOGIN_ERROR_CODE,
            ErrorKind::NoUser => NO_USER_ERROR_CODE,
            ErrorKind::Edit => EDIT_ERROR_CODE,
            ErrorKind::Delete => DELETE_ERROR_CODE,
            ErrorKind::WrongFormat => WRONG_FORMAT_ERROR_CODE,
            ErrorKind::WrongPath => WRONG_PATH_ERROR_CODE,
        }
    }

    pub open spec fn spec_message(self) -> Seq<char> {
        match self {
            ErrorKind::Db => "Database error"@,
            ErrorKind::UserExists => "The user already exists"@,
            ErrorKind::Login => "Username or password is incorrect"@,
            ErrorKind::NoUser => "The provided user does not exist"@,
            ErrorKind::Edit => "User or todo does not exist"@,
            ErrorKind::Delete => "The todo or user does not exist"@,
            ErrorKind::WrongFormat => "Invalid JSON format"@,
            ErrorKind::WrongPath => "Invalid path"@,
        }
    }

    /// The stable numeric code of this failure.
    pub fn code(&self) -> (r: i32)
        ensures
            r == self.spec_code(),
    {
        match self {
            ErrorKind::Db => DB_ERROR_CODE,
            ErrorKind::UserExists => USER_EXISTS_ERROR_CODE,
            ErrorKind::Login => LOGIN_ERROR_CODE,
            ErrorKind::NoUser => NO_USER_ERROR_CODE,
            ErrorKind::Edit => EDIT_ERROR_CODE,
            ErrorKind::Delete => DELETE_ERROR_CODE,
            ErrorKind::WrongFormat => WRONG_FORMAT_ERROR_CODE,
            ErrorKind::WrongPath => WRONG_PATH_ERROR_CODE,
        }
    }

    /// The fixed human-readable message of this failure.
    pub fn message(&self) -> (r: String)
        ensures
            r@ == self.spec_message(),
    {
        match self {
            ErrorKind::Db => "Database error".to_owned(),
            ErrorKind::UserExists => "The user already exists".to_owned(),
            ErrorKind::Login => "Username or password is incorrect".to_owned(),
            ErrorKind::NoUser => "The provided user does not exist".to_owned(),
            ErrorKind::Edit => "User or todo does not exist".to_owned(),
            ErrorKind::Delete => "The todo or user does not exist".to_owned(),
            ErrorKind::WrongFormat => "Invalid JSON format".to_owned(),
            ErrorKind::WrongPath => "Invalid path".to_owned(),
        }
    }

    /// The `{code, error}` payload sent to the client for this failure.
    pub fn to_response(&self) -> (r: ResponseError)
        ensures
            r.describes(*self),
    {
        ResponseError { code: self.code(), error: self.message() }
    }
}

/// Failures raised by the request layer itself, independent of storage.
#[derive(Clone, Copy, Debug, PartialEq, Eq, Structural)]
pub enum ErrorTypes {
    WrongFormat,
    WrongPath,
    Login,
    NoUser,
    Edit,
    Delete,
}

impl ErrorTypes {
    pub open spec fn spec_kind(self) -> ErrorKind {
        match self {
            ErrorTypes::WrongFormat => ErrorKind::WrongFormat,
            ErrorTypes::WrongPath => ErrorKind::WrongPath,
            ErrorTypes::Login => ErrorKind::Login,
            ErrorTypes::NoUser => ErrorKind::NoUser,
            ErrorTypes::Edit => ErrorKind::Edit,
            ErrorTypes::Delete => ErrorKind::Delete,
        }
    }

    /// The taxonomy member this request-layer failure stands for.
    pub fn kind(&self) -> (r: ErrorKind)
        ensures
            r == self.spec_kind(),
    {
        match self {
            ErrorTypes::WrongFormat => ErrorKind::WrongFormat,
            ErrorTypes::WrongPath => ErrorKind::WrongPath,
            ErrorTypes::Login => ErrorKind::Login,
            ErrorTypes::NoUser => ErrorKind::NoUser,
            ErrorTypes::Edit => ErrorKind::Edit,
            ErrorTypes::Delete => ErrorKind::Delete,
        }
    }
}

/// The closed set of failure categories a storage adapter reports.
#[derive(Clone, Copy, Debug, PartialEq, Eq, Structural)]
pub enum StorageFailure {
    /// A referenced row does not exist (a foreign-key violation).
    ForeignKeyViolation,
    /// A value that must be unique is already present (a uniqueness violation).
    UniqueViolation,
    /// Any other storage fault.
    Other,
}

impl StorageFailure {
    pub open spec fn spec_kind(self) -> ErrorKind {
        match self {
            StorageFailure::ForeignKeyViolation => ErrorKind::NoUser,
            StorageFailure::UniqueViolation => ErrorKind::UserExists,
            StorageFailure::Other => ErrorKind::Db,
        }
    }

    /// The category of a failure that carries the SQLSTATE `code`, if any:
    /// `23503` is a foreign-key violation, `23505` a uniqueness violation.
    pub fn from_sql_state(code: Option<&str>) -> (r: StorageFailure)
        ensures
            r == (match code {
                Some(c) => if c@ == "23503"@ {
                    StorageFailure::ForeignKeyViolation
                } else if c@ == "23505"@ {
                    StorageFailure::UniqueViolation
                } else {
                    StorageFailure::Other
                },
                None => StorageFailure::Other,
            }),
    {
        match code {
            Some(c) => {
                let c: String = c.to_owned();
                if c == "23503".to_owned() {
                    StorageFailure::ForeignKeyViolation
                } else if c == "23505".to_owned() {
                    StorageFailure::UniqueViolation
                } else {
                    StorageFailure::Other
                }
            },
            None => StorageFailure::Other,
        }
    }

    /// The taxonomy member a storage failure is reported as.
    pub fn kind(&self) -> (r: ErrorKind)
        ensures
            r == self.spec_kind(),
    {
        match self {
            StorageFailure::ForeignKeyViolation => ErrorKind::NoUser,
            StorageFailure::UniqueViolation => ErrorKind::UserExists,
            StorageFailure::Other => ErrorKind::Db,
        }
    }
}

/// The structured failure payload `{code, error}` returned to clients.
#[derive(Debug)]
pub struct ResponseError {
    pub code: i32,
    pub error: String,
}

impl ResponseError {
    /// This payload carries exactly the code and message of `kind`.
    pub open spec fn describes(&self, kind: ErrorKind) -> bool {
        self.code == kind.spec_code() && self.error@ == kind.spec_message()
    }
}

/// Translates a storage failure into the payload sent to the client.
pub fn get_database_error(error: StorageFailure) -> (r: ResponseError)
    ensures
        r.describes(error.spec_kind()),
{
    error.kind().to_response()
}

/// Translates a request-layer failure into the payload sent to the client.
pub fn get_query_error(error_type: ErrorTypes) -> (r: ResponseError)
    ensures
        r.describes(error_type.spec_kind()),
{
    error_type.kind().to_response()
}

} // verus!
