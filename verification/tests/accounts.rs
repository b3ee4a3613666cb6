use chat_core::common_service::validate_image;
use chat_core::db::Thing;
use chat_core::error::{AppError, ValidationIssue};
use chat_core::jwt::{
    bearer_token, generate_access_token, generate_refresh_token, refresh_access_token,
    verify_token, AuthUser, Claims, TokenType,
};
use chat_core::posts::model::{FeedQuery, Like, LikeResponse, Post, PostResponse};
use chat_core::posts::post_service::{get_likes, like_post, liked_by_user, post_location};
use chat_core::users::model::{
    check_phone, long_enough, Follow, LoginRequest, RegisterRequest, User, UserResponse,
};
use chat_core::users::user_service::{
    check_upload, follow_user, login, profile_picture_location, upload_file_name,
};

fn user(key: &str) -> Thing {
    Thing { table: "users".to_string(), key: key.to_string() }
}

#[test]
fn only_some_images_are_accepted() {
    assert!(validate_image("image", "png"));
    assert!(validate_image("image", "jpeg"));
    assert!(validate_image("image", "jpg"));
    assert!(validate_image("image", "webp"));
    assert!(!validate_image("image", "gif"));
    assert!(!validate_image("image", "PNG"));
    assert!(!validate_image("Image", "png"));
    assert!(!validate_image("text", "png"));
    assert!(!validate_image("", ""));
}

#[test]
fn upload_needs_an_accepted_media_type() {
    assert_eq!(check_upload(Some(("image", "png"))), Ok(()));
    assert_eq!(
        check_upload(None),
        Err(AppError::Validation(ValidationIssue::MissingContentType))
    );
    assert_eq!(
        check_upload(Some(("application", "pdf"))),
        Err(AppError::Validation(ValidationIssue::NotAnImage))
    );
}

#[test]
fn uploads_are_named_and_located() {
    assert_eq!(upload_file_name("abc"), "abc.png");
    let (path, url) = profile_picture_location("abc.png");
    assert_eq!(path, "data/profile-pictures/abc.png");
    assert_eq!(url, "http://localhost:8080/profile-pictures/abc.png");
    let (path, url) = post_location("abc.png");
    assert_eq!(path, "data/posts/abc.png");
    assert_eq!(url, "http://localhost:8080/posts/abc.png");
}

fn login_request(email: Option<&str>, username: Option<&str>, password: &str) -> LoginRequest {
    LoginRequest {
        email: email.map(|e| e.to_string()),
        username: username.map(|u| u.to_string()),
        password: password.to_string(),
    }
}

#[test]
fn login_that_meets_the_rules_is_accepted() {
    assert_eq!(login(&login_request(Some("a@example.com"), None, "secret")), Ok(()));
    assert_eq!(login(&login_request(None, Some("bob"), "secret")), Ok(()));
    assert_eq!(login(&login_request(Some("a@example.com"), Some("bob"), "secret1")), Ok(()));
}

#[test]
fn login_reports_the_first_broken_rule() {
    let issue = |i| Err(AppError::Validation(i));
    assert_eq!(
        login(&login_request(Some("not an email"), Some("b"), "x")),
        issue(ValidationIssue::IncorrectEmail)
    );
    assert_eq!(
        login(&login_request(Some("a@example.com"), Some("bo"), "x")),
        issue(ValidationIssue::IncorrectUsername)
    );
    assert_eq!(
        login(&login_request(None, Some("bob"), "12345")),
        issue(ValidationIssue::ShortPassword)
    );
    assert_eq!(
        login(&login_request(None, None, "secret")),
        issue(ValidationIssue::LoginNameRequired)
    );
    assert_eq!(
        login(&login_request(None, None, "short")),
        issue(ValidationIssue::ShortPassword)
    );
}

#[test]
fn validate_alone_does_not_ask_for_a_name() {
    assert_eq!(login_request(None, None, "secret").validate(), Ok(()));
}

#[test]
fn length_counts_characters_not_bytes() {
    assert!(long_enough("abc", 3));
    assert!(!long_enough("ab", 3));
    assert!(long_enough("äöü", 3));
    assert!(!long_enough("äö", 3));
    assert!(long_enough("", 0));
}

fn registration(email: &str, username: &str, password: &str, mobile: &str) -> RegisterRequest {
    RegisterRequest {
        email: email.to_string(),
        username: username.to_string(),
        password: password.to_string(),
        mobile_number: mobile.to_string(),
    }
}

#[test]
fn registration_that_meets_the_rules_is_accepted() {
    assert_eq!(registration("a@example.com", "bob", "secret", "+14155552671").validate(), Ok(()));
    assert_eq!(registration("a@example.com", "bob", "secret", "9876543210").validate(), Ok(()));
    assert_eq!(
        registration("a@example.com", "bob", "secret", "123456789012345").validate(),
        Ok(())
    );
}

#[test]
fn registration_reports_the_first_broken_rule() {
    let issue = |i| Err(AppError::Validation(i));
    assert_eq!(
        registration("nope", "b", "x", "0").validate(),
        issue(ValidationIssue::IncorrectEmail)
    );
    assert_eq!(
        registration("a@example.com", "b", "x", "0").validate(),
        issue(ValidationIssue::IncorrectUsername)
    );
    assert_eq!(
        registration("a@example.com", "bob", "x", "0").validate(),
        issue(ValidationIssue::ShortPassword)
    );
    for mobile in ["", "0123456789", "12345", "1234567890123456", "+1 415 555 2671", "++14155552671"] {
        assert_eq!(
            registration("a@example.com", "bob", "secret", mobile).validate(),
            issue(ValidationIssue::IncorrectMobileNumber)
        );
    }
}

#[test]
fn phone_check_reads_the_matcher() {
    assert_eq!(check_phone(Some(true)), Ok(()));
    assert_eq!(
        check_phone(Some(false)),
        Err(AppError::Validation(ValidationIssue::IncorrectMobileNumber))
    );
    assert_eq!(check_phone(None), Err(AppError::RegexError));
}

#[test]
fn registration_turns_into_a_login() {
    let login = LoginRequest::from(registration("a@example.com", "bob", "secret", "9876543210"));
    assert_eq!(login.email, Some("a@example.com".to_string()));
    assert_eq!(login.username, Some("bob".to_string()));
    assert_eq!(login.password, "secret");
}

#[test]
fn user_is_reported_with_the_identifier_as_text() {
    let plain = User {
        id: user("alice"),
        username: "alice".to_string(),
        profile_picture: Some("pic".to_string()),
        email: "a@example.com".to_string(),
        mobile_number: "9876543210".to_string(),
        followers_count: 3,
        following_count: 4,
    };
    let r = UserResponse::from(plain);
    assert_eq!(r.id, "users:alice");
    assert_eq!(r.username, "alice");
    assert_eq!(r.profile_picture, Some("pic".to_string()));
    assert_eq!(r.email, "a@example.com");
    assert_eq!(r.mobile_number, "9876543210");
    assert_eq!(r.followers_count, 3);
    assert_eq!(r.following_count, 4);
}

#[test]
fn follow_is_reported_by_the_follower() {
    let follow = Follow {
        id: Thing { table: "follows".to_string(), key: "f1".to_string() },
        follower_id: user("alice"),
        following_id: user("bob"),
        created_at: 1,
    };
    assert_eq!(follow_user(&follow), "Followed user : users:alice");
}

#[test]
fn feed_window_defaults_and_arithmetic() {
    let q = FeedQuery { page: None, limit: None };
    assert!(q.is_in_range());
    assert_eq!(q.window(), (10, 0));
    let q = FeedQuery { page: Some(3), limit: Some(25) };
    assert!(q.is_in_range());
    assert_eq!(q.window(), (25, 50));
    let q = FeedQuery { page: Some(2), limit: None };
    assert_eq!(q.window(), (10, 10));
    let q = FeedQuery { page: Some(1), limit: Some(0) };
    assert_eq!(q.window(), (0, 0));
}

#[test]
fn feed_window_out_of_range_is_detected() {
    assert!(!FeedQuery { page: Some(0), limit: None }.is_in_range());
    assert!(!FeedQuery { page: Some(u32::MAX), limit: Some(u32::MAX) }.is_in_range());
    assert!(FeedQuery { page: Some(u32::MAX), limit: Some(1) }.is_in_range());
    assert!(!FeedQuery { page: Some(u32::MAX), limit: Some(2) }.is_in_range());
}

#[test]
fn post_is_reported_as_not_yet_liked() {
    let post = Post {
        id: Thing { table: "posts".to_string(), key: "p1".to_string() },
        content: "url".to_string(),
        caption: "cap".to_string(),
        uid: user("alice"),
        likes_count: 2,
        created_at: 9,
    };
    let r = PostResponse::from(post);
    assert_eq!(r.id, "posts:p1");
    assert_eq!(r.uid, "users:alice");
    assert_eq!(r.content, "url");
    assert_eq!(r.caption, "cap");
    assert_eq!(r.likes_count, 2);
    assert_eq!(r.created_at, 9);
    assert!(!r.liked_by_user);
}

fn like(users: &[&str]) -> Like {
    Like {
        id: Thing { table: "likes".to_string(), key: "l1".to_string() },
        post_id: Thing { table: "posts".to_string(), key: "p1".to_string() },
        user_ids: users.iter().map(|u| user(u)).collect(),
    }
}

#[test]
fn likes_are_reported_with_identifiers_as_text() {
    let r = LikeResponse::from(like(&["alice", "bob"]));
    assert_eq!(r.id, "likes:l1");
    assert_eq!(r.post_id, "posts:p1");
    assert_eq!(r.user_ids, vec!["users:alice".to_string(), "users:bob".to_string()]);
}

#[test]
fn like_toggle_is_reported_by_membership() {
    assert_eq!(like_post(&like(&["alice", "bob"]), &user("bob")), "Liked the post");
    assert_eq!(like_post(&like(&["alice"]), &user("bob")), "Unliked the post");
    assert_eq!(like_post(&like(&[]), &user("bob")), "Unliked the post");
}

#[test]
fn missing_answer_means_not_liked() {
    assert!(liked_by_user(Some(true)));
    assert!(!liked_by_user(Some(false)));
    assert!(!liked_by_user(None));
}

#[test]
fn first_like_record_is_reported() {
    assert!(get_likes(Vec::new()).is_none());
    let mut second = like(&["carol"]);
    second.id.key = "l2".to_string();
    let r = get_likes(vec![like(&["alice"]), second]).unwrap();
    assert_eq!(r.id, "likes:l1");
    assert_eq!(r.user_ids, vec!["users:alice".to_string()]);
}

#[test]
fn tokens_expire_after_their_lifetime() {
    let access = generate_access_token("users:alice".to_string(), 1_700_000_000);
    assert_eq!(access.sub, "users:alice");
    assert_eq!(access.exp, 1_700_003_600);
    assert_eq!(access.token_type, TokenType::AccessToken);
    let refresh = generate_refresh_token("users:alice".to_string(), 1_700_000_000);
    assert_eq!(refresh.exp, 1_700_604_800);
    assert_eq!(refresh.token_type, TokenType::RefreshToken);
    assert_eq!(TokenType::AccessToken.lifetime(), 3600);
    assert_eq!(TokenType::RefreshToken.lifetime(), 7 * 24 * 3600);
}

#[test]
fn only_access_tokens_give_access() {
    let access = generate_access_token("users:alice".to_string(), 10);
    assert_eq!(verify_token(access).unwrap().sub, "users:alice");
    let refresh = generate_refresh_token("users:alice".to_string(), 10);
    assert_eq!(verify_token(refresh).err(), Some(AppError::InvalidToken));
}

#[test]
fn only_refresh_tokens_can_be_exchanged() {
    let refresh = generate_refresh_token("users:alice".to_string(), 10);
    let fresh = refresh_access_token(refresh, 1000).unwrap();
    assert_eq!(fresh.sub, "users:alice");
    assert_eq!(fresh.exp, 4600);
    assert_eq!(fresh.token_type, TokenType::AccessToken);
    let access = generate_access_token("users:alice".to_string(), 10);
    assert_eq!(refresh_access_token(access, 1000).err(), Some(AppError::InvalidToken));
}

#[test]
fn bearer_token_follows_its_prefix() {
    assert_eq!(bearer_token("Bearer abc.def"), Some("abc.def".to_string()));
    assert_eq!(bearer_token("Bearer "), Some(String::new()));
    assert_eq!(bearer_token("Bearer  x"), Some(" x".to_string()));
    assert_eq!(bearer_token("bearer abc"), None);
    assert_eq!(bearer_token("Bearer"), None);
    assert_eq!(bearer_token("Basic abc"), None);
    assert_eq!(bearer_token(""), None);
}

fn claims(token_type: TokenType) -> Claims {
    Claims { sub: "users:alice".to_string(), exp: 99, token_type }
}

#[test]
fn caller_is_taken_from_an_accepted_access_token() {
    let caller = AuthUser::from_request(Some("Bearer t"), Ok(claims(TokenType::AccessToken)));
    assert_eq!(caller.unwrap().user_id, "users:alice");
}

#[test]
fn everything_else_is_unauthorized() {
    let r = AuthUser::from_request(None, Ok(claims(TokenType::AccessToken)));
    assert_eq!(r.err(), Some(AppError::Unauthorized));
    let r = AuthUser::from_request(Some("Basic t"), Ok(claims(TokenType::AccessToken)));
    assert_eq!(r.err(), Some(AppError::Unauthorized));
    let r = AuthUser::from_request(Some("Bearer t"), Ok(claims(TokenType::RefreshToken)));
    assert_eq!(r.err(), Some(AppError::Unauthorized));
    let r = AuthUser::from_request(Some("Bearer t"), Err(AppError::InvalidToken));
    assert_eq!(r.err(), Some(AppError::Unauthorized));
}

#[test]
fn errors_have_status_and_text() {
    assert_eq!(AppError::Unauthorized.status(), 401);
    assert_eq!(AppError::InvalidCursor.status(), 400);
    assert_eq!(AppError::Validation(ValidationIssue::ShortPassword).status(), 400);
    for e in [
        AppError::NotFound,
        AppError::Conflict,
        AppError::ProtocolError,
        AppError::PersistenceError,
        AppError::DeliveryFailed,
        AppError::InvalidId,
        AppError::EncodeFailed,
        AppError::InvalidToken,
        AppError::RegexError,
    ] {
        assert_eq!(e.status(), 500);
    }
    assert_eq!(AppError::DeliveryFailed.message(), "Failed to send message");
    assert_eq!(AppError::ProtocolError.message(), "Invalid Message");
    assert_eq!(AppError::InvalidId.message(), "Invalid ID");
    assert_eq!(AppError::InvalidCursor.message(), "Invalid cursor format");
    assert_eq!(AppError::EncodeFailed.message(), "Serialize failed");
    assert_eq!(AppError::InvalidToken.message(), "Invalid Token");
    assert_eq!(
        AppError::Validation(ValidationIssue::ShortPassword).message(),
        "Password should be atleast 6 letters"
    );
    assert_eq!(ValidationIssue::IncorrectEmail.message(), "Incorrect email");
    assert_eq!(ValidationIssue::IncorrectUsername.message(), "Incorrect Username");
    assert_eq!(ValidationIssue::IncorrectMobileNumber.message(), "Incorrect Mobile number");
    assert_eq!(ValidationIssue::LoginNameRequired.message(), "email or username required");
    assert_eq!(ValidationIssue::MissingContentType.message(), "Missing content type");
    assert_eq!(ValidationIssue::NotAnImage.message(), "File must be an image");
}
