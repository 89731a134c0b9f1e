//! The decisions of the login, refresh and identity endpoints, between the
//! datastore lookups that the caller makes.

use vstd::prelude::*;

use crate::error::HandlerError;
use crate::jwt::{
    create_access, create_refresh, decode_refresh, decoded_refresh, decodes_as_access,
    decodes_as_refresh, expiry_after, opt_str_view,
    opt_string_view, signed_token_of, AccessClaims, Role, ACCESS_TOKEN_TTL_SECS,
    REFRESH_TOKEN_TTL_SECS,
};
use crate::security::{evaluation, opt_claims_view, AccessTokenChecker, HttpSecurity, ServerConfig};

verus! {

/// Name of the cookie that carries the refresh token.
pub const REFRESH_TOKEN: &'static str = "refreshToken";

/// The identifier of a user record.
#[derive(Clone, Debug)]
pub struct AppUserId(pub String);

/// A user record, as the datastore holds it.
#[derive(Clone, Debug)]
pub struct AppUser {
    pub fullname: String,
    pub email: String,
    pub hashed_password: String,
    pub is_admin: bool,
}

/// The two tokens handed out on a successful login.
#[derive(Clone, Debug)]
pub struct LoginTokens {
    pub access_jwt: String,
    pub refresh_jwt: String,
}

/// The answer to a login request; a failure does not say whether the email
/// or the password was wrong.
#[derive(Clone, Debug)]
pub enum LoginResp {
    Tokens(LoginTokens),
    InvalidCredentials,
}

/// The answer to a refresh request.
#[derive(Clone, Debug)]
pub enum RefreshResp {
    AccessToken(String),
    InvalidRefreshToken,
}

/// What the identity endpoint returns.
#[derive(Clone, Debug)]
pub struct UserProfile {
    pub id: AppUserId,
    pub fullname: String,
    pub email: String,
    pub is_admin: bool,
}

/// The role that a user's access tokens carry.
pub open spec fn role_of(user: AppUser) -> Role {
    if user.is_admin {
        Role::Admin
    } else {
        Role::User
    }
}

/// The access token of `user` made at `now`.
pub open spec fn access_token_for(cfg: ServerConfig, user_id: AppUserId, user: AppUser, now: u64) -> Seq<char> {
    signed_token_of(cfg.jwt_access_secret@, user_id.0@, Some(role_of(user).name()), expiry_after(now, ACCESS_TOKEN_TTL_SECS) as int)
}

/// The refresh token of `user_id` made at `now`.
pub open spec fn refresh_token_for(cfg: ServerConfig, user_id: AppUserId, now: u64) -> Seq<char> {
    signed_token_of(cfg.jwt_access_secret@, user_id.0@, None, expiry_after(now, REFRESH_TOKEN_TTL_SECS) as int)
}

/// An access token for `user_id`, with the role the user record gives now:
/// `Admin` for an administrator, else `User`.
pub fn access_jwt_from_user(cfg: &ServerConfig, user_id: &AppUserId, user: &AppUser, now: u64) -> (r: String)
    ensures
        r@ == access_token_for(*cfg, *user_id, *user, now),
        decodes_as_access(cfg.jwt_access_secret@, r@, user_id.0@, role_of(*user), expiry_after(now, ACCESS_TOKEN_TTL_SECS)),
{
    let role = if user.is_admin {
        Role::Admin
    } else {
        Role::User
    };
    create_access(cfg.jwt_access_secret.as_str(), user_id.0.as_str(), role, now)
}

/// The answer to a login, given the user record found by email (if any)
/// and whether the password given matched its hash: a token pair for a
/// found user with a matching password, else `InvalidCredentials`.
pub fn login(cfg: &ServerConfig, found: Option<(AppUserId, AppUser)>, password_matches: bool, now: u64) -> (r: LoginResp)
    ensures
        match found {
            Some((id, user)) => if password_matches {
                r matches LoginResp::Tokens(t) && t.access_jwt@ == access_token_for(*cfg, id, user, now)
                    && t.refresh_jwt@ == refresh_token_for(*cfg, id, now)
                    && decodes_as_access(cfg.jwt_access_secret@, t.access_jwt@, id.0@, role_of(user), expiry_after(now, ACCESS_TOKEN_TTL_SECS))
                    && decodes_as_refresh(cfg.jwt_access_secret@, t.refresh_jwt@, id.0@, expiry_after(now, REFRESH_TOKEN_TTL_SECS))
            } else {
                r is InvalidCredentials
            },
            None => r is InvalidCredentials,
        },
{
    match found {
        None => LoginResp::InvalidCredentials,
        Some((user_id, user)) => {
            if password_matches {
                let access_jwt = access_jwt_from_user(cfg, &user_id, &user, now);
                let refresh_jwt = create_refresh(cfg.jwt_access_secret.as_str(), user_id.0.as_str(), now);
                LoginResp::Tokens(LoginTokens { access_jwt, refresh_jwt })
            } else {
                LoginResp::InvalidCredentials
            }
        },
    }
}

/// The refresh token to use: the one in the request body if there is one,
/// else the one from the cookie.
pub fn choose_refresh_token(from_body: Option<String>, from_cookie: Option<String>) -> (r: Option<String>)
    ensures
        r == (match from_body {
            Some(t) => Some(t),
            None => from_cookie,
        }),
{
    match from_body {
        Some(t) => Some(t),
        None => from_cookie,
    }
}

/// The next step of a refresh: answer at once, or look up a user first.
#[derive(Clone, Debug)]
pub enum RefreshStep {
    Respond(RefreshResp),
    LookUp(AppUserId),
}

/// The subject whose user record a refresh looks up, given the token from
/// the body and from the cookie (the body's first) at `now`.
pub open spec fn refresh_subject(secret: Seq<char>, from_body: Option<Seq<char>>, from_cookie: Option<Seq<char>>, now: u64) -> Option<Seq<char>> {
    let token = match from_body {
        Some(t) => Some(t),
        None => from_cookie,
    };
    match token {
        Some(t) => match decoded_refresh(secret, t, now) {
            Some(c) => Some(c.0),
            None => None,
        },
        None => None,
    }
}

/// Starts a refresh: without a token, or with one that is not a valid
/// refresh token at `now`, the answer is `InvalidRefreshToken`; else the
/// token's subject is to be looked up.
pub fn begin_refresh(cfg: &ServerConfig, from_body: Option<String>, from_cookie: Option<String>, now: u64) -> (r: RefreshStep)
    ensures
        match refresh_subject(cfg.jwt_access_secret@, opt_string_view(from_body), opt_string_view(from_cookie), now) {
            Some(sub) => r matches RefreshStep::LookUp(id) && id.0@ == sub,
            None => r matches RefreshStep::Respond(RefreshResp::InvalidRefreshToken),
        },
{
    match choose_refresh_token(from_body, from_cookie) {
        None => RefreshStep::Respond(RefreshResp::InvalidRefreshToken),
        Some(token) => match decode_refresh(cfg.jwt_access_secret.as_str(), token.as_str(), now) {
            Ok(claims) => RefreshStep::LookUp(AppUserId(claims.sub)),
            Err(_) => RefreshStep::Respond(RefreshResp::InvalidRefreshToken),
        },
    }
}

/// Ends a refresh, given the user record found for the token's subject:
/// a fresh access token whose role comes from that record, or
/// `InvalidRefreshToken` if the user is gone.
pub fn finish_refresh(cfg: &ServerConfig, user_id: &AppUserId, found: Option<AppUser>, now: u64) -> (r: RefreshResp)
    ensures
        match found {
            Some(user) => r matches RefreshResp::AccessToken(t) && t@ == access_token_for(*cfg, *user_id, user, now)
                && decodes_as_access(cfg.jwt_access_secret@, t@, user_id.0@, role_of(user), expiry_after(now, ACCESS_TOKEN_TTL_SECS)),
            None => r is InvalidRefreshToken,
        },
{
    match found {
        Some(user) => RefreshResp::AccessToken(access_jwt_from_user(cfg, user_id, &user, now)),
        None => RefreshResp::InvalidRefreshToken,
    }
}

/// The user that verified access claims speak for.
pub fn user_from_claims(claims: &AccessClaims) -> (r: AppUserId)
    ensures
        r.0@ == claims.sub@,
{
    AppUserId(claims.sub.clone())
}

/// The identity endpoint's answer, given the user record found for the
/// caller's claims: its profile, or `Forbidden` for a user that is gone.
pub fn who_am_i(found: Option<(AppUserId, AppUser)>) -> (r: Result<UserProfile, HandlerError>)
    ensures
        match found {
            Some((id, user)) => r matches Ok(p) && p.id == id && p.fullname == user.fullname
                && p.email == user.email && p.is_admin == user.is_admin,
            None => r == Err::<UserProfile, HandlerError>(HandlerError::Forbidden),
        },
{
    match found {
        Some((id, user)) => Ok(UserProfile { id, fullname: user.fullname, email: user.email, is_admin: user.is_admin }),
        None => Err(HandlerError::Forbidden),
    }
}

/// What a request handler is given: the shared state and the claims that
/// the security check admitted the request with (none for public endpoints).
pub struct AdlReqContext<S> {
    pub state: S,
    pub claims: Option<AccessClaims>,
}

/// The context of a request to an endpoint with level `security`, or
/// `Forbidden` where the request's `Authorization` header does not pass it.
pub fn get_adl_request_context<S>(state: S, checker: &AccessTokenChecker, security: &HttpSecurity, auth_header: Option<&str>, now: u64) -> (r: Result<AdlReqContext<S>, HandlerError>)
    ensures
        match evaluation(checker.jwt_access_secret@, *security, opt_str_view(auth_header), now) {
            Some(c) => r matches Ok(ctx) && ctx.state == state && opt_claims_view(ctx.claims) == c,
            None => r == Err::<AdlReqContext<S>, HandlerError>(HandlerError::Forbidden),
        },
{
    match checker.check_security(security, auth_header, now) {
        Ok(claims) => Ok(AdlReqContext { state, claims }),
        Err(e) => Err(e),
    }
}

} // verus!
