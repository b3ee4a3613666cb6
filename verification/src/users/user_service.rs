//! The decisions of the user service.

use vstd::prelude::*;
use vstd::string::*;
use crate::common_service::{is_accepted_image, validate_image};
use crate::error::{AppError, AppResult, ValidationIssue};
use crate::text::option_text;
use crate::users::model::{login_refusal, Follow, LoginRequest};

verus! {

/// Checks a login before the user is looked up: the request must meet its
/// rules and name an email address or a user name.
pub fn login(req: &LoginRequest) -> (r: AppResult<()>)
    ensures
        match login_refusal(option_text(req.email), option_text(req.username), req.password@) {
            Some(issue) => r == Err::<(), AppError>(AppError::Validation(issue)),
            None => r is Ok,
        },
{
    match req.validate() {
        Ok(()) => {},
        Err(e) => {
            return Err(e);
        },
    }
    if req.email.is_none() && req.username.is_none() {
        return Err(AppError::Validation(ValidationIssue::LoginNameRequired));
    }
    Ok(())
}

/// What is reported after `follow` was recorded.
pub fn follow_user(follow: &Follow) -> (text: String)
    ensures
        text@ == "Followed user : "@ + follow.follower_id@.sql(),
{
    let who = follow.follower_id.to_sql();
    String::from_str("Followed user : ").concat(who.as_str())
}

/// The name of the file that an upload with the identifier `id` is kept
/// under.
pub open spec fn picture_name(id: Seq<char>) -> Seq<char> {
    id + ".png"@
}

/// The name of the file that an upload with the identifier `id` is kept
/// under: the identifier with the extension `.png`.
pub fn upload_file_name(id: &str) -> (name: String)
    ensures
        name@ == picture_name(id@),
{
    String::from_str(id).concat(".png")
}

/// Where the profile picture `file_name` is kept, and the address under
/// which it is served.
pub fn profile_picture_location(file_name: &str) -> (location: (String, String))
    ensures
        location.0@ == "data/profile-pictures/"@ + file_name@,
        location.1@ == "http://localhost:8080/profile-pictures/"@ + file_name@,
{
    (
        String::from_str("data/profile-pictures/").concat(file_name),
        String::from_str("http://localhost:8080/profile-pictures/").concat(file_name),
    )
}

/// The view of an optional pair of texts.
pub open spec fn media_type_view(media_type: Option<(&str, &str)>) -> Option<
    (Seq<char>, Seq<char>),
> {
    match media_type {
        Some((top, sub)) => Some((top@, sub@)),
        None => None,
    }
}

/// Why an upload of the given media type is refused, if it is.
pub open spec fn upload_refusal(media_type: Option<(Seq<char>, Seq<char>)>) -> Option<
    ValidationIssue,
> {
    match media_type {
        None => Some(ValidationIssue::MissingContentType),
        Some((top, sub)) => if is_accepted_image(top, sub) {
            None
        } else {
            Some(ValidationIssue::NotAnImage)
        },
    }
}

/// Checks the media type of an upload, given as top-level type and
/// subtype: it must be there and name an image of an accepted kind.
pub fn check_upload(media_type: Option<(&str, &str)>) -> (r: AppResult<()>)
    ensures
        match upload_refusal(media_type_view(media_type)) {
            Some(issue) => r == Err::<(), AppError>(AppError::Validation(issue)),
            None => r is Ok,
        },
{
    match media_type {
        None => Err(AppError::Validation(ValidationIssue::MissingContentType)),
        Some((top, sub)) => {
            if validate_image(top, sub) {
                Ok(())
            } else {
                Err(AppError::Validation(ValidationIssue::NotAnImage))
            }
        },
    }
}

} // verus!
