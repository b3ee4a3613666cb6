//! The error taxonomy of the service.

use vstd::prelude::*;

verus! {

/// The rule that a request failed to meet.
#[derive(Debug, Clone, Copy, PartialEq, Eq, Structural)]
pub enum ValidationIssue {
    /// An email address is not well formed.
    IncorrectEmail,
    /// A user name has fewer than three characters.
    IncorrectUsername,
    /// A password has fewer than six characters.
    ShortPassword,
    /// A mobile number is not well formed.
    IncorrectMobileNumber,
    /// A login names neither an email address nor a user name.
    LoginNameRequired,
    /// A conversation was asked for between a user and themselves.
    SelfConversation,
    /// An upload does not say what it holds.
    MissingContentType,
    /// An upload is no image of an accepted kind.
    NotAnImage,
}

impl ValidationIssue {
    /// The text of this issue.
    pub open spec fn spec_message(self) -> Seq<char> {
        match self {
            ValidationIssue::IncorrectEmail => "Incorrect email"@,
            ValidationIssue::IncorrectUsername => "Incorrect Username"@,
            ValidationIssue::ShortPassword => "Password should be atleast 6 letters"@,
            ValidationIssue::IncorrectMobileNumber => "Incorrect Mobile number"@,
            ValidationIssue::LoginNameRequired => "email or username required"@,
            ValidationIssue::SelfConversation => "Participants must differ"@,
            ValidationIssue::MissingContentType => "Missing content type"@,
            ValidationIssue::NotAnImage => "File must be an image"@,
        }
    }

    /// The text of this issue.
    pub fn message(&self) -> (text: &'static str)
        ensures
            text@ == self.spec_message(),
    {
        match self {
            ValidationIssue::IncorrectEmail => "Incorrect email",
            ValidationIssue::IncorrectUsername => "Incorrect Username",
            ValidationIssue::ShortPassword => "Password should be atleast 6 letters",
            ValidationIssue::IncorrectMobileNumber => "Incorrect Mobile number",
            ValidationIssue::LoginNameRequired => "email or username required",
            ValidationIssue::SelfConversation => "Participants must differ",
            ValidationIssue::MissingContentType => "Missing content type",
            ValidationIssue::NotAnImage => "File must be an image",
        }
    }
}

/// Everything an operation of this crate can fail with.
#[derive(Debug, Clone, Copy, PartialEq, Eq, Structural)]
pub enum AppError {
    /// The caller presented no valid credential or is not a participant.
    Unauthorized,
    /// A conversation or message reference does not resolve.
    NotFound,
    /// A conversation for the same pair of users, or a record with the same
    /// identifier, already exists.
    Conflict,
    /// A wire frame could not be decoded.
    ProtocolError,
    /// The backing store failed.
    PersistenceError,
    /// The recipient is registered but its consumer has gone away.
    DeliveryFailed,
    /// A record identifier lacks the `table:key` shape.
    InvalidId,
    /// A pagination cursor is not a timestamp.
    InvalidCursor,
    /// A request violates a validation rule.
    Validation(ValidationIssue),
    /// A payload could not be written.
    EncodeFailed,
    /// A token is of the wrong kind for what it is presented for.
    InvalidToken,
    /// A pattern could not be compiled.
    RegexError,
}

/// Result type used throughout the crate.
pub type AppResult<T> = Result<T, AppError>;

/// Whether `r` is the failure `e`.
pub open spec fn fails_with<T>(r: AppResult<T>, e: AppError) -> bool {
    r is Err && r->Err_0 == e
}

impl AppError {
    /// The HTTP status code that `self` is reported with.
    pub open spec fn spec_status(self) -> u16 {
        match self {
            AppError::Unauthorized => 401,
            AppError::InvalidCursor | AppError::Validation(_) => 400,
            _ => 500,
        }
    }

    /// The HTTP status code that `self` is reported with: 401 for a rejected
    /// caller, 400 for a request that breaks a validation rule, 500 for
    /// everything else.
    pub fn status(&self) -> (code: u16)
        ensures
            code == self.spec_status(),
    {
        match self {
            AppError::Unauthorized => 401,
            AppError::InvalidCursor => 400,
            AppError::Validation(_) => 400,
            _ => 500,
        }
    }

    /// The text of `self`.
    pub open spec fn spec_message(self) -> Seq<char> {
        match self {
            AppError::Unauthorized => "InvalidToken"@,
            AppError::NotFound => "Not found"@,
            AppError::Conflict => "Already exists"@,
            AppError::ProtocolError => "Invalid Message"@,
            AppError::PersistenceError => "Persistence failed"@,
            AppError::DeliveryFailed => "Failed to send message"@,
            AppError::InvalidId => "Invalid ID"@,
            AppError::InvalidCursor => "Invalid cursor format"@,
            AppError::Validation(issue) => issue.spec_message(),
            AppError::EncodeFailed => "Serialize failed"@,
            AppError::InvalidToken => "Invalid Token"@,
            AppError::RegexError => "Invalid pattern"@,
        }
    }

    /// The text of `self`, as it is written into the body of a failure
    /// response.
    pub fn message(&self) -> (text: &'static str)
        ensures
            text@ == self.spec_message(),
    {
        match self {
            AppError::Unauthorized => "InvalidToken",
            AppError::NotFound => "Not found",
            AppError::Conflict => "Already exists",
            AppError::ProtocolError => "Invalid Message",
            AppError::PersistenceError => "Persistence failed",
            AppError::DeliveryFailed => "Failed to send message",
            AppError::InvalidId => "Invalid ID",
            AppError::InvalidCursor => "Invalid cursor format",
            AppError::Validation(issue) => issue.message(),
            AppError::EncodeFailed => "Serialize failed",
            AppError::InvalidToken => "Invalid Token",
            AppError::RegexError => "Invalid pattern",
        }
    }
}

} // verus!
