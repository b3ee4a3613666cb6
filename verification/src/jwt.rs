//! Claims of access and refresh tokens, and the identity of an
//! authenticated caller. Signing and checking the signature of a token is
//! left to whoever holds the secret; what a token may claim, and which
//! claims are accepted for what, is decided here.

use vstd::prelude::*;
use vstd::string::*;
use crate::error::{AppError, AppResult};
use crate::text::{begins_with, skip_chars, starts_with};

verus! {

/// What a token is good for.
#[derive(Debug, Clone, Copy, PartialEq, Eq, Structural)]
pub enum TokenType {
    AccessToken,
    RefreshToken,
}

/// How many seconds an access token is valid for: one hour.
pub const ACCESS_LIFETIME: i64 = 3600;

/// How many seconds a refresh token is valid for: seven days.
pub const REFRESH_LIFETIME: i64 = 604800;

/// What a token claims: its subject, the second at which it expires, and
/// what it is good for.
#[derive(Debug)]
pub struct Claims {
    pub sub: String,
    pub exp: usize,
    pub token_type: TokenType,
}

impl TokenType {
    /// How many seconds a token of this kind is valid for.
    pub open spec fn spec_lifetime(self) -> int {
        match self {
            TokenType::AccessToken => ACCESS_LIFETIME as int,
            TokenType::RefreshToken => REFRESH_LIFETIME as int,
        }
    }

    /// How many seconds a token of this kind is valid for.
    pub fn lifetime(&self) -> (seconds: i64)
        ensures
            seconds == self.spec_lifetime(),
    {
        match self {
            TokenType::AccessToken => ACCESS_LIFETIME,
            TokenType::RefreshToken => REFRESH_LIFETIME,
        }
    }
}

/// Whether the expiry of a token issued at second `now` can be told.
pub open spec fn can_issue(now: i64, token_type: TokenType) -> bool {
    &&& 0 <= now + token_type.spec_lifetime() <= usize::MAX
    &&& now + token_type.spec_lifetime() <= i64::MAX
}

impl Claims {
    /// The claims of a token of the given kind, issued to `user_id` at
    /// second `now`.
    pub fn issue(user_id: String, token_type: TokenType, now: i64) -> (claims: Claims)
        requires
            can_issue(now, token_type),
        ensures
            claims.sub@ == user_id@,
            claims.exp == now + token_type.spec_lifetime(),
            claims.token_type == token_type,
    {
        let lifetime = token_type.lifetime();
        let exp = now + lifetime;
        Claims { sub: user_id, exp: exp as usize, token_type }
    }
}

/// The claims of an access token for `user_id`, valid for one hour from
/// second `now`.
pub fn generate_access_token(user_id: String, now: i64) -> (claims: Claims)
    requires
        can_issue(now, TokenType::AccessToken),
    ensures
        claims.sub@ == user_id@,
        claims.exp == now + 3600,
        claims.token_type == TokenType::AccessToken,
{
    Claims::issue(user_id, TokenType::AccessToken, now)
}

/// The claims of a refresh token for `user_id`, valid for seven days from
/// second `now`.
pub fn generate_refresh_token(user_id: String, now: i64) -> (claims: Claims)
    requires
        can_issue(now, TokenType::RefreshToken),
    ensures
        claims.sub@ == user_id@,
        claims.exp == now + 604800,
        claims.token_type == TokenType::RefreshToken,
{
    Claims::issue(user_id, TokenType::RefreshToken, now)
}

/// Accepts the claims of a token that was presented for access: they must be
/// those of an access token.
pub fn verify_token(claims: Claims) -> (r: AppResult<Claims>)
    ensures
        r is Ok <==> claims.token_type == TokenType::AccessToken,
        r matches Ok(accepted) ==> accepted == claims,
        r matches Err(e) ==> e == AppError::InvalidToken,
{
    match claims.token_type {
        TokenType::AccessToken => Ok(claims),
        TokenType::RefreshToken => Err(AppError::InvalidToken),
    }
}

/// Exchanges the claims of a refresh token for those of a new access token
/// for the same subject, issued at second `now`.
pub fn refresh_access_token(claims: Claims, now: i64) -> (r: AppResult<Claims>)
    requires
        can_issue(now, TokenType::AccessToken),
    ensures
        r is Ok <==> claims.token_type == TokenType::RefreshToken,
        r matches Ok(fresh) ==> {
            &&& fresh.sub@ == claims.sub@
            &&& fresh.exp == now + 3600
            &&& fresh.token_type == TokenType::AccessToken
        },
        r matches Err(e) ==> e == AppError::InvalidToken,
{
    match claims.token_type {
        TokenType::RefreshToken => Ok(generate_access_token(claims.sub, now)),
        TokenType::AccessToken => Err(AppError::InvalidToken),
    }
}

/// The token that an `Authorization` header carries: what follows the
/// prefix `Bearer `, where the header begins with it.
pub open spec fn spec_bearer_token(header: Seq<char>) -> Option<Seq<char>> {
    if begins_with(header, "Bearer "@) {
        Some(header.skip(7))
    } else {
        None
    }
}

/// The token that an `Authorization` header carries.
pub fn bearer_token(header: &str) -> (token: Option<String>)
    ensures
        token matches Some(t) ==> spec_bearer_token(header@) == Some(t@),
        token is None ==> spec_bearer_token(header@) is None,
{
    proof {
        reveal_strlit("Bearer ");
    }
    if starts_with(header, "Bearer ") {
        Some(skip_chars(header, 7))
    } else {
        None
    }
}

/// A caller whose credential was accepted: `user_id` is the record
/// identifier of the user, as text.
#[derive(Debug)]
pub struct AuthUser {
    pub user_id: String,
}

impl AuthUser {
    /// The caller that a request comes from, given its `Authorization`
    /// header, if it has one, and what checking the token's signature and
    /// expiry gave: the subject of the claims, where the header carries a
    /// bearer token whose claims are those of an access token. Everything
    /// else is [`AppError::Unauthorized`].
    pub fn from_request(header: Option<&str>, decoded: AppResult<Claims>) -> (r: AppResult<
        AuthUser,
    >)
        ensures
            r is Ok <==> header is Some && spec_bearer_token(header->0@) is Some && decoded is Ok
                && decoded->Ok_0.token_type == TokenType::AccessToken,
            r matches Ok(user) ==> user.user_id@ == decoded->Ok_0.sub@,
            r matches Err(e) ==> e == AppError::Unauthorized,
    {
        let carried = match header {
            Some(header) => bearer_token(header),
            None => None,
        };
        if carried.is_none() {
            return Err(AppError::Unauthorized);
        }
        let claims = match decoded {
            Ok(claims) => claims,
            Err(_) => {
                return Err(AppError::Unauthorized);
            },
        };
        match verify_token(claims) {
            Ok(accepted) => Ok(AuthUser { user_id: accepted.sub }),
            Err(_) => Err(AppError::Unauthorized),
        }
    }
}

} // verus!
