use vstd::prelude::*;

verus! {

/// The cause of an internal error, kept structured so that callers and
/// contracts can tell the causes apart; the text shown to operators is
/// rendered from it.
#[derive(Clone, Debug, PartialEq, Eq)]
pub enum InternalError {
    /// The database layer reported an error, with its text.
    Database(String),
    /// No current price row exists for the barcode.
    PriceNotFound(String),
    /// No current product exists for the barcode.
    ProductNotFound(String),
    /// No user exists with the id.
    UserNotFound(i32),
    /// No user exists with the user name.
    UsernameNotFound(String),
    /// No user exists with the email address.
    EmailNotFound(String),
    /// A purchase row carries no link to its balance change.
    SaldoHistoryIdMissing,
    /// The balance change that a purchase row links to does not exist.
    SaldoHistoryNotFound(i32),
    /// A text that should hold hexadecimal digits does not.
    InvalidHex,
    /// The password hashing library failed.
    Bcrypt,
    /// The token library failed.
    Jwt,
    /// A text that should hold an integer does not.
    ParseInt,
    /// The expiry time of a token lies outside the representable dates.
    TokenTimeOutOfRange,
    /// The system clock reads before 1970, or later than whole seconds
    /// since then can count.
    ClockOutOfRange,
    /// A route that needs an authenticated user was reached without one.
    MissingAuthentication,
    /// Rendering or sending a mail failed, with the text of the failure.
    Mail(String),
}

/// The errors that the service answers requests with.
#[derive(Clone, Debug, PartialEq, Eq)]
pub enum AppError {
    NotFound(String),
    NotAuthorized,
    InsufficientFunds,
    Forbidden,
    InvalidCredentials(String),
    InvalidToken,
    IdentifierTaken(String),
    BadRequest,
    Internal(InternalError),
}

/// The HTTP status that answers an error.
pub open spec fn status_of(e: AppError) -> u16 {
    match e {
        AppError::NotFound(_) => 404,
        AppError::NotAuthorized => 403,
        AppError::InsufficientFunds => 403,
        AppError::Forbidden => 403,
        AppError::InvalidCredentials(_) => 401,
        AppError::InvalidToken => 401,
        AppError::IdentifierTaken(_) => 409,
        AppError::BadRequest => 400,
        AppError::Internal(_) => 500,
    }
}

/// The machine-readable kind that answers an error.
pub open spec fn kind_of(e: AppError) -> Seq<char> {
    match e {
        AppError::NotFound(_) => "not_found"@,
        AppError::NotAuthorized => "not_authorized"@,
        AppError::InsufficientFunds => "insufficient_funds"@,
        AppError::Forbidden => "forbidden"@,
        AppError::InvalidCredentials(_) => "invalid_credentials"@,
        AppError::InvalidToken => "invalid_token"@,
        AppError::IdentifierTaken(_) => "identifier_taken"@,
        AppError::BadRequest => "bad_request"@,
        AppError::Internal(_) => "internal_error"@,
    }
}

/// The human-readable message that answers an error; the details of an
/// internal error are never shown to the client.
pub open spec fn message_of(e: AppError) -> Seq<char> {
    match e {
        AppError::NotFound(m) => m@,
        AppError::NotAuthorized => "Not authorized"@,
        AppError::InsufficientFunds => "Insufficient funds"@,
        AppError::Forbidden => "Forbidden"@,
        AppError::InvalidCredentials(m) => m@,
        AppError::InvalidToken => "Invalid authorization token"@,
        AppError::IdentifierTaken(m) => m@,
        AppError::BadRequest => "Bad request"@,
        AppError::Internal(_) => "An internal error occurred"@,
    }
}

/// The body of an error answer: its kind and its message.
pub struct ErrorResponse {
    pub error: String,
    pub message: String,
}

impl AppError {
    /// The status code and body that answer this error.
    pub fn to_response(&self) -> (r: (u16, ErrorResponse))
        ensures
            r.0 == status_of(*self),
            r.1.error@ == kind_of(*self),
            r.1.message@ == message_of(*self),
    {
        let (status, kind, message) = match self {
            AppError::NotFound(m) => (404u16, "not_found", m.clone()),
            AppError::NotAuthorized => (403u16, "not_authorized", String::from_str("Not authorized")),
            AppError::InsufficientFunds => (403u16, "insufficient_funds", String::from_str("Insufficient funds")),
            AppError::Forbidden => (403u16, "forbidden", String::from_str("Forbidden")),
            AppError::InvalidCredentials(m) => (401u16, "invalid_credentials", m.clone()),
            AppError::InvalidToken => (401u16, "invalid_token", String::from_str("Invalid authorization token")),
            AppError::IdentifierTaken(m) => (409u16, "identifier_taken", m.clone()),
            AppError::BadRequest => (400u16, "bad_request", String::from_str("Bad request")),
            AppError::Internal(_) => (500u16, "internal_error", String::from_str("An internal error occurred")),
        };
        (status, ErrorResponse { error: String::from_str(kind), message })
    }
}

} // verus!
