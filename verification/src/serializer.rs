//! The uniform response envelope `{code, message, data?}` and the fixed
//! set of machine-checkable response codes.
//!
//! The numeric code doubles as the HTTP status when it lies in the HTTP
//! band (below 1000); codes of 4000 and above travel in a 200 response.

use vstd::prelude::*;

verus! {

/// Every outcome the service reports, HTTP-band codes first, internal
/// codes after.
#[derive(Clone, Copy, Debug, PartialEq, Eq, Structural)]
pub enum ResponseCode {
    OK,
    BadRequest,
    Unauthorized,
    Forbidden,
    NotFound,
    InternalError,
    ParamError,
    RegistrationDisabled,
    UserNotFound,
    CredentialInvalid,
    UserBlocked,
    UserNotActivated,
    UserExists,
    AlreadyLoggedIn,
    EmailExists,
    UserDeleted,
    DuplicatePassword,
}

/// The numeric code of each outcome.
pub open spec fn spec_code(c: ResponseCode) -> u16 {
    match c {
        ResponseCode::OK => 200,
        ResponseCode::BadRequest => 400,
        ResponseCode::Unauthorized => 401,
        ResponseCode::Forbidden => 403,
        ResponseCode::NotFound => 404,
        ResponseCode::InternalError => 500,
        ResponseCode::ParamError => 4000,
        ResponseCode::RegistrationDisabled => 4001,
        ResponseCode::UserNotFound => 4010,
        ResponseCode::CredentialInvalid => 4011,
        ResponseCode::UserBlocked => 4012,
        ResponseCode::UserNotActivated => 4013,
        ResponseCode::UserExists => 4014,
        ResponseCode::AlreadyLoggedIn => 4015,
        ResponseCode::EmailExists => 4016,
        ResponseCode::UserDeleted => 4017,
        ResponseCode::DuplicatePassword => 4018,
    }
}

/// The default message of each outcome.
pub open spec fn spec_message(c: ResponseCode) -> Seq<char> {
    match c {
        ResponseCode::OK => "OK"@,
        ResponseCode::BadRequest => "Bad Request"@,
        ResponseCode::Unauthorized => "Unauthorized"@,
        ResponseCode::Forbidden => "Forbidden"@,
        ResponseCode::NotFound => "Not Found"@,
        ResponseCode::InternalError => "Internal Error"@,
        ResponseCode::ParamError => "Parameter Error"@,
        ResponseCode::RegistrationDisabled => "Registration is disabled"@,
        ResponseCode::UserNotFound => "Cannot found user"@,
        ResponseCode::CredentialInvalid => "Invalid credential"@,
        ResponseCode::UserBlocked => "The account was blocked"@,
        ResponseCode::UserNotActivated => "The account is not activated"@,
        ResponseCode::UserExists => "User already exists"@,
        ResponseCode::AlreadyLoggedIn => "The account is already logged in"@,
        ResponseCode::EmailExists => "Email already exists"@,
        ResponseCode::UserDeleted => "User has been deleted"@,
        ResponseCode::DuplicatePassword => "Duplicate passwords are not allowed."@,
    }
}

impl ResponseCode {
    /// The numeric code of this outcome.
    pub fn code(&self) -> (r: u16)
        ensures
            r == spec_code(*self),
    {
        match self {
            ResponseCode::OK => 200,
            ResponseCode::BadRequest => 400,
            ResponseCode::Unauthorized => 401,
            ResponseCode::Forbidden => 403,
            ResponseCode::NotFound => 404,
            ResponseCode::InternalError => 500,
            ResponseCode::ParamError => 4000,
            ResponseCode::RegistrationDisabled => 4001,
            ResponseCode::UserNotFound => 4010,
            ResponseCode::CredentialInvalid => 4011,
            ResponseCode::UserBlocked => 4012,
            ResponseCode::UserNotActivated => 4013,
            ResponseCode::UserExists => 4014,
            ResponseCode::AlreadyLoggedIn => 4015,
            ResponseCode::EmailExists => 4016,
            ResponseCode::UserDeleted => 4017,
            ResponseCode::DuplicatePassword => 4018,
        }
    }

    /// The default message of this outcome.
    pub fn message(&self) -> (r: String)
        ensures
            r@ == spec_message(*self),
    {
        match self {
            ResponseCode::OK => "OK".to_owned(),
            ResponseCode::BadRequest => "Bad Request".to_owned(),
            ResponseCode::Unauthorized => "Unauthorized".to_owned(),
            ResponseCode::Forbidden => "Forbidden".to_owned(),
            ResponseCode::NotFound => "Not Found".to_owned(),
            ResponseCode::InternalError => "Internal Error".to_owned(),
            ResponseCode::ParamError => "Parameter Error".to_owned(),
            ResponseCode::RegistrationDisabled => "Registration is disabled".to_owned(),
            ResponseCode::UserNotFound => "Cannot found user".to_owned(),
            ResponseCode::CredentialInvalid => "Invalid credential".to_owned(),
            ResponseCode::UserBlocked => "The account was blocked".to_owned(),
            ResponseCode::UserNotActivated => "The account is not activated".to_owned(),
            ResponseCode::UserExists => "User already exists".to_owned(),
            ResponseCode::AlreadyLoggedIn => "The account is already logged in".to_owned(),
            ResponseCode::EmailExists => "Email already exists".to_owned(),
            ResponseCode::UserDeleted => "User has been deleted".to_owned(),
            ResponseCode::DuplicatePassword => "Duplicate passwords are not allowed.".to_owned(),
        }
    }

    /// The HTTP status an outcome travels under: its own code in the HTTP
    /// band, 200 otherwise.
    pub fn http_status(&self) -> (r: u16)
        ensures
            r == (if spec_code(*self) < 1000 { spec_code(*self) } else { 200u16 }),
    {
        let c = self.code();
        if c < 1000 {
            c
        } else {
            200
        }
    }
}

/// The response envelope carried by every reply.
#[derive(Clone, Debug)]
pub struct Response<T> {
    pub code: u16,
    pub message: String,
    pub data: Option<T>,
}

/// Whether an envelope carries exactly an outcome's code and default
/// message, with no data.
pub open spec fn is_code_response<T>(r: Response<T>, c: ResponseCode) -> bool {
    &&& r.code == spec_code(c)
    &&& r.message@ == spec_message(c)
    &&& r.data is None
}

impl<T> Response<T> {
    /// Builds an envelope from its parts.
    pub fn new(code: u16, message: String, data: Option<T>) -> (r: Response<T>)
        ensures
            r.code == code,
            r.message@ == message@,
            r.data == data,
    {
        Response { code, message, data }
    }

    /// Builds an error envelope: a code and message with no data.
    pub fn new_error(code: u16, message: String) -> (r: Response<T>)
        ensures
            r.code == code,
            r.message@ == message@,
            r.data is None,
    {
        Response { code, message, data: None }
    }

    /// Builds the envelope of an outcome with its default message.
    pub fn from_code(code: ResponseCode) -> (r: Response<T>)
        ensures
            is_code_response(r, code),
    {
        Response { code: code.code(), message: code.message(), data: None }
    }

    /// Whether this envelope reports anything but success.
    pub fn is_err(&self) -> (r: bool)
        ensures
            r == (self.code != 200),
    {
        self.code != 200
    }

    /// The HTTP status this envelope travels under.
    pub fn http_status(&self) -> (r: u16)
        ensures
            r == (if self.code < 1000 { self.code } else { 200u16 }),
    {
        if self.code < 1000 {
            self.code
        } else {
            200
        }
    }
}

} // verus!
