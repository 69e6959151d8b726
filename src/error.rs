use vstd::prelude::*;
use vstd::string::*;
use crate::ledger::LedgerError;

verus! {

/// An error as the service reports it. Each kind maps to one HTTP status.
#[derive(Debug, Clone)]
pub enum AppError {
    DatabaseError(String),
    NotFoundError(String),
    ValidationError(String),
    ConflictError(String),
    UnauthorizedError(String),
    InternalServerError(String),
}

/// The HTTP status of each error kind.
pub open spec fn status_of(e: AppError) -> u16 {
    match e {
        AppError::DatabaseError(_) => 500,
        AppError::NotFoundError(_) => 404,
        AppError::ValidationError(_) => 400,
        AppError::ConflictError(_) => 409,
        AppError::UnauthorizedError(_) => 401,
        AppError::InternalServerError(_) => 500,
    }
}

/// The words that open the message of each error kind.
pub open spec fn kind_label(e: AppError) -> Seq<char> {
    match e {
        AppError::DatabaseError(_) => "Database error: "@,
        AppError::NotFoundError(_) => "Not found: "@,
        AppError::ValidationError(_) => "Validation error: "@,
        AppError::ConflictError(_) => "Conflict: "@,
        AppError::UnauthorizedError(_) => "Unauthorized: "@,
        AppError::InternalServerError(_) => "Internal server error: "@,
    }
}

/// The detail that an error carries.
pub open spec fn detail_of(e: AppError) -> Seq<char> {
    match e {
        AppError::DatabaseError(d) => d@,
        AppError::NotFoundError(d) => d@,
        AppError::ValidationError(d) => d@,
        AppError::ConflictError(d) => d@,
        AppError::UnauthorizedError(d) => d@,
        AppError::InternalServerError(d) => d@,
    }
}

/// The status line text, code and reason, of an error kind.
pub open spec fn status_text_of(e: AppError) -> Seq<char> {
    match e {
        AppError::DatabaseError(_) => "500 Internal Server Error"@,
        AppError::NotFoundError(_) => "404 Not Found"@,
        AppError::ValidationError(_) => "400 Bad Request"@,
        AppError::ConflictError(_) => "409 Conflict"@,
        AppError::UnauthorizedError(_) => "401 Unauthorized"@,
        AppError::InternalServerError(_) => "500 Internal Server Error"@,
    }
}

impl AppError {
    /// The HTTP status code of this error.
    pub fn status_code(&self) -> (r: u16)
        ensures
            r == status_of(*self),
    {
        match self {
            AppError::DatabaseError(_) => 500,
            AppError::NotFoundError(_) => 404,
            AppError::ValidationError(_) => 400,
            AppError::ConflictError(_) => 409,
            AppError::UnauthorizedError(_) => 401,
            AppError::InternalServerError(_) => 500,
        }
    }

    /// The status line of this error, such as `404 Not Found`.
    pub fn status_text(&self) -> (r: String)
        ensures
            r@ == status_text_of(*self),
    {
        match self {
            AppError::DatabaseError(_) => String::from_str("500 Internal Server Error"),
            AppError::NotFoundError(_) => String::from_str("404 Not Found"),
            AppError::ValidationError(_) => String::from_str("400 Bad Request"),
            AppError::ConflictError(_) => String::from_str("409 Conflict"),
            AppError::UnauthorizedError(_) => String::from_str("401 Unauthorized"),
            AppError::InternalServerError(_) => String::from_str("500 Internal Server Error"),
        }
    }

    /// The human-readable message: the kind's label followed by the detail.
    pub fn message(&self) -> (r: String)
        ensures
            r@ == kind_label(*self) + detail_of(*self),
    {
        let (label, detail) = match self {
            AppError::DatabaseError(d) => (String::from_str("Database error: "), d),
            AppError::NotFoundError(d) => (String::from_str("Not found: "), d),
            AppError::ValidationError(d) => (String::from_str("Validation error: "), d),
            AppError::ConflictError(d) => (String::from_str("Conflict: "), d),
            AppError::UnauthorizedError(d) => (String::from_str("Unauthorized: "), d),
            AppError::InternalServerError(d) => (String::from_str("Internal server error: "), d),
        };
        let mut s = label;
        s.append(detail.as_str());
        s
    }
}

/// The body of an error response.
#[derive(Debug, Clone)]
pub struct ErrorResponse {
    pub success: bool,
    pub message: String,
    pub error_code: Option<String>,
}

impl ErrorResponse {
    /// The response body that reports `e`.
    pub fn from_error(e: &AppError) -> (r: ErrorResponse)
        ensures
            !r.success,
            r.message@ == kind_label(*e) + detail_of(*e),
            r.error_code matches Some(c) && c@ == status_text_of(*e),
    {
        ErrorResponse { success: false, message: e.message(), error_code: Some(e.status_text()) }
    }
}

/// What the client is told when the ledger refuses an operation.
pub open spec fn ledger_message(e: LedgerError) -> Seq<char> {
    match e {
        LedgerError::NonPositiveBalance => "Balance must be positive"@,
        LedgerError::NonPositiveExpiration => "Expiration days must be positive"@,
        LedgerError::ExpirationOutOfRange => "Expiration date is out of range"@,
        LedgerError::PhoneMismatch => "Phone number does not match"@,
        LedgerError::AlreadyAccepted => "Gift card already accepted"@,
        LedgerError::Expired => "Gift card has expired"@,
        LedgerError::Inactive => "Gift card is not active"@,
        LedgerError::NotAccepted => "Gift card has not been accepted"@,
        LedgerError::NonPositiveAmount => "Amount must be positive"@,
        LedgerError::InsufficientBalance => "Insufficient balance"@,
    }
}

impl LedgerError {
    /// The message that explains this refusal.
    pub fn message(&self) -> (r: String)
        ensures
            r@ == ledger_message(*self),
    {
        match self {
            LedgerError::NonPositiveBalance => String::from_str("Balance must be positive"),
            LedgerError::NonPositiveExpiration => String::from_str(
                "Expiration days must be positive",
            ),
            LedgerError::ExpirationOutOfRange => String::from_str(
                "Expiration date is out of range",
            ),
            LedgerError::PhoneMismatch => String::from_str("Phone number does not match"),
            LedgerError::AlreadyAccepted => String::from_str("Gift card already accepted"),
            LedgerError::Expired => String::from_str("Gift card has expired"),
            LedgerError::Inactive => String::from_str("Gift card is not active"),
            LedgerError::NotAccepted => String::from_str("Gift card has not been accepted"),
            LedgerError::NonPositiveAmount => String::from_str("Amount must be positive"),
            LedgerError::InsufficientBalance => String::from_str("Insufficient balance"),
        }
    }

    /// Every refusal of the ledger is a validation error, carrying the
    /// refusal's message.
    pub fn to_app_error(&self) -> (r: AppError)
        ensures
            r matches AppError::ValidationError(m) && m@ == ledger_message(*self),
    {
        AppError::ValidationError(self.message())
    }
}

} // verus!
