//! User records and the requests of the user service, with their
//! validation rules.

use vstd::prelude::*;
use vstd::string::*;
use regex::Regex;
use validator::ValidateEmail;
use crate::db::Thing;
use crate::error::{AppError, AppResult, ValidationIssue};
use crate::text::option_text;

verus! {

/// A user, as the store holds it.
#[derive(Debug)]
pub struct User {
    pub id: Thing,
    pub username: String,
    pub profile_picture: Option<String>,
    pub email: String,
    pub mobile_number: String,
    pub followers_count: i64,
    pub following_count: i64,
}

/// A user together with the hash of their password.
#[derive(Debug)]
pub struct DBUser {
    pub id: Thing,
    pub username: String,
    pub profile_picture: Option<String>,
    pub email: String,
    pub mobile_number: String,
    pub followers_count: i64,
    pub following_count: i64,
    pub password_hash: String,
}

/// A user as it is reported to a caller: the identifier as text.
#[derive(Debug)]
pub struct UserResponse {
    pub id: String,
    pub username: String,
    pub profile_picture: Option<String>,
    pub email: String,
    pub followers_count: i64,
    pub following_count: i64,
    pub mobile_number: String,
}

impl UserResponse {
    /// Reports `user`: the same user with the identifier written as text.
    pub fn from(user: User) -> (response: UserResponse)
        ensures
            response.id@ == user.id@.sql(),
            response.username@ == user.username@,
            option_text(response.profile_picture) == option_text(user.profile_picture),
            response.email@ == user.email@,
            response.mobile_number@ == user.mobile_number@,
            response.followers_count == user.followers_count,
            response.following_count == user.following_count,
    {
        UserResponse {
            id: user.id.to_sql(),
            username: user.username,
            profile_picture: user.profile_picture,
            email: user.email,
            mobile_number: user.mobile_number,
            followers_count: user.followers_count,
            following_count: user.following_count,
        }
    }
}

/// Whether `text` is an email address by the rules of the HTML standard.
pub uninterp spec fn email_valid(text: Seq<char>) -> bool;

/// Whether `text` matches the regular expression `pattern`, or `None` where
/// `pattern` is no regular expression.
pub uninterp spec fn regex_match(pattern: Seq<char>, text: Seq<char>) -> Option<bool>;

/// `ValidateEmail::validate_email` on a string: the answer is a function of
/// the text alone.
#[verifier::external_body]
fn email_is_valid(text: &str) -> (valid: bool)
    ensures
        valid == email_valid(text@),
{
    text.validate_email()
}

/// `Regex::new`, then `Regex::is_match`: the answer is a function of
/// pattern and text alone, and there is none where the pattern does not
/// compile.
#[verifier::external_body]
fn pattern_matches(pattern: &str, text: &str) -> (matched: Option<bool>)
    ensures
        matched == regex_match(pattern@, text@),
{
    Regex::new(pattern).ok().map(|re| re.is_match(text))
}

/// The pattern of a mobile number: an optional plus sign, a digit that is
/// not zero, then nine to fourteen digits.
pub open spec fn phone_pattern() -> Seq<char> {
    "^\\+?[1-9]\\d{9,14}$"@
}

/// The least number of characters in a user name.
pub const MIN_USERNAME: usize = 3;

/// The least number of characters in a password.
pub const MIN_PASSWORD: usize = 6;

/// Whether a user name is long enough.
pub open spec fn username_ok(name: Seq<char>) -> bool {
    name.len() >= MIN_USERNAME
}

/// Whether a password is long enough.
pub open spec fn password_ok(password: Seq<char>) -> bool {
    password.len() >= MIN_PASSWORD
}

/// Whether `text` has at least `min` characters.
pub fn long_enough(text: &str, min: usize) -> (ok: bool)
    ensures
        ok == (text@.len() >= min),
{
    text.unicode_len() >= min
}

/// A request to log in, by email address or by user name.
#[derive(Debug)]
pub struct LoginRequest {
    pub email: Option<String>,
    pub username: Option<String>,
    pub password: String,
}

/// The rule that a login breaks, if it breaks one: the first of a malformed
/// email address, a user name that is too short, and a password that is
/// too short. A part that is not given breaks no rule.
pub open spec fn login_issue(
    email: Option<Seq<char>>,
    username: Option<Seq<char>>,
    password: Seq<char>,
) -> Option<ValidationIssue> {
    if email is Some && !email_valid(email->0) {
        Some(ValidationIssue::IncorrectEmail)
    } else if username is Some && !username_ok(username->0) {
        Some(ValidationIssue::IncorrectUsername)
    } else if !password_ok(password) {
        Some(ValidationIssue::ShortPassword)
    } else {
        None
    }
}

/// The rule that stops a login before the user is looked up, if one does:
/// a rule that the request breaks, or else that it names neither an email
/// address nor a user name.
pub open spec fn login_refusal(
    email: Option<Seq<char>>,
    username: Option<Seq<char>>,
    password: Seq<char>,
) -> Option<ValidationIssue> {
    if login_issue(email, username, password) is Some {
        login_issue(email, username, password)
    } else if email is None && username is None {
        Some(ValidationIssue::LoginNameRequired)
    } else {
        None
    }
}

impl LoginRequest {
    /// Checks the parts of the request against their rules.
    pub fn validate(&self) -> (r: AppResult<()>)
        ensures
            match login_issue(
                option_text(self.email),
                option_text(self.username),
                self.password@,
            ) {
                Some(issue) => r == Err::<(), AppError>(AppError::Validation(issue)),
                None => r is Ok,
            },
    {
        match &self.email {
            Some(email) => {
                if !email_is_valid(email.as_str()) {
                    return Err(AppError::Validation(ValidationIssue::IncorrectEmail));
                }
            },
            None => {},
        }
        match &self.username {
            Some(username) => {
                if !long_enough(username.as_str(), MIN_USERNAME) {
                    return Err(AppError::Validation(ValidationIssue::IncorrectUsername));
                }
            },
            None => {},
        }
        if !long_enough(self.password.as_str(), MIN_PASSWORD) {
            return Err(AppError::Validation(ValidationIssue::ShortPassword));
        }
        Ok(())
    }

    /// The login that follows a registration: by the email address and the
    /// user name that were registered, with the same password.
    pub fn from(value: RegisterRequest) -> (login: LoginRequest)
        ensures
            option_text(login.email) == Some(value.email@),
            option_text(login.username) == Some(value.username@),
            login.password@ == value.password@,
    {
        LoginRequest {
            email: Some(value.email),
            username: Some(value.username),
            password: value.password,
        }
    }
}

/// A request to register a user.
#[derive(Debug)]
pub struct RegisterRequest {
    pub email: String,
    pub username: String,
    pub password: String,
    pub mobile_number: String,
}

/// What checking a registration gives: the first rule that it breaks, of a
/// malformed email address, a user name that is too short, a password that
/// is too short and a malformed mobile number.
pub open spec fn register_outcome(
    email: Seq<char>,
    username: Seq<char>,
    password: Seq<char>,
    mobile_number: Seq<char>,
) -> AppResult<()> {
    if !email_valid(email) {
        Err(AppError::Validation(ValidationIssue::IncorrectEmail))
    } else if !username_ok(username) {
        Err(AppError::Validation(ValidationIssue::IncorrectUsername))
    } else if !password_ok(password) {
        Err(AppError::Validation(ValidationIssue::ShortPassword))
    } else {
        phone_outcome(regex_match(phone_pattern(), mobile_number))
    }
}

/// What the answer of the pattern matcher means for a mobile number.
pub open spec fn phone_outcome(matched: Option<bool>) -> AppResult<()> {
    match matched {
        Some(true) => Ok(()),
        Some(false) => Err(AppError::Validation(ValidationIssue::IncorrectMobileNumber)),
        None => Err(AppError::RegexError),
    }
}

/// Turns the answer of the pattern matcher into the result of checking a
/// mobile number.
pub fn check_phone(matched: Option<bool>) -> (r: AppResult<()>)
    ensures
        r == phone_outcome(matched),
{
    match matched {
        Some(true) => Ok(()),
        Some(false) => Err(AppError::Validation(ValidationIssue::IncorrectMobileNumber)),
        None => Err(AppError::RegexError),
    }
}

impl RegisterRequest {
    /// Checks the parts of the request against their rules.
    pub fn validate(&self) -> (r: AppResult<()>)
        ensures
            r == register_outcome(
                self.email@,
                self.username@,
                self.password@,
                self.mobile_number@,
            ),
    {
        if !email_is_valid(self.email.as_str()) {
            return Err(AppError::Validation(ValidationIssue::IncorrectEmail));
        }
        if !long_enough(self.username.as_str(), MIN_USERNAME) {
            return Err(AppError::Validation(ValidationIssue::IncorrectUsername));
        }
        if !long_enough(self.password.as_str(), MIN_PASSWORD) {
            return Err(AppError::Validation(ValidationIssue::ShortPassword));
        }
        check_phone(pattern_matches("^\\+?[1-9]\\d{9,14}$", self.mobile_number.as_str()))
    }
}

/// A request to exchange a refresh token for an access token.
#[derive(Debug)]
pub struct RefreshRequest {
    pub refresh_token: String,
}

/// The record of one user following another.
#[derive(Debug)]
pub struct Follow {
    pub id: Thing,
    pub follower_id: Thing,
    pub following_id: Thing,
    pub created_at: i64,
}

} // verus!
