//! The security policy of an endpoint, and its evaluation against the
//! credentials of a request.

use vstd::prelude::*;

use crate::error::HandlerError;
use crate::text::is_single_field;
use crate::jwt::{
    bearer_header, bearer_token_from_auth_header, bearer_token_of, decode_access, decoded_access,
    decodes_as_access, lemma_bearer_header_round_trip, opt_str_view, verified_fields_of,
    AccessClaims, Role,
};

verus! {

/// The security level that an endpoint declares.
#[derive(Clone, Copy, Debug, PartialEq, Eq, Structural)]
pub enum HttpSecurity {
    /// No credential needed; no claims are produced.
    Public,
    /// A valid, unexpired access token of any role.
    Token,
    /// A valid, unexpired access token with exactly this role.
    TokenWithRole(Role),
}

/// Configuration shared by every request: the token signing secret.
#[derive(Clone, Debug)]
pub struct ServerConfig {
    pub jwt_access_secret: String,
}

pub open spec fn opt_claims_view(c: Option<AccessClaims>) -> Option<(Seq<char>, Role, u64)> {
    match c {
        Some(c) => Some(c@),
        None => None,
    }
}

/// The access claims that an `Authorization` header value carries at `now`.
pub open spec fn header_claims(secret: Seq<char>, header: Option<Seq<char>>, now: u64) -> Option<(Seq<char>, Role, u64)> {
    match header {
        Some(h) => match bearer_token_of(h) {
            Some(t) => decoded_access(secret, t, now),
            None => None,
        },
        None => None,
    }
}

/// Whether a level admits a request that carries `claims`, and with which
/// claims: `None` for a rejection, `Some(None)` for an admission without
/// identity, `Some(Some(c))` for an admission as `c`.
pub open spec fn admission(security: HttpSecurity, claims: Option<(Seq<char>, Role, u64)>) -> Option<Option<(Seq<char>, Role, u64)>> {
    match security {
        HttpSecurity::Public => Some(None),
        HttpSecurity::Token => match claims {
            Some(c) => Some(Some(c)),
            None => None,
        },
        HttpSecurity::TokenWithRole(role) => match claims {
            Some(c) => if c.1 == role {
                Some(Some(c))
            } else {
                None
            },
            None => None,
        },
    }
}

/// The outcome of evaluating `security` on a request with the given
/// `Authorization` header at `now`.
pub open spec fn evaluation(secret: Seq<char>, security: HttpSecurity, header: Option<Seq<char>>, now: u64) -> Option<Option<(Seq<char>, Role, u64)>> {
    match security {
        HttpSecurity::Public => Some(None),
        _ => admission(security, header_claims(secret, header, now)),
    }
}

/// The access claims of a request's `Authorization` header, if it holds a
/// bearer token that is valid at `now`.
pub fn claims_from_bearer_token(secret: &str, auth_header: Option<&str>, now: u64) -> (r: Option<AccessClaims>)
    ensures
        opt_claims_view(r) == header_claims(secret@, opt_str_view(auth_header), now),
{
    match auth_header {
        Some(h) => match bearer_token_from_auth_header(h) {
            Some(t) => match decode_access(secret, t.as_str(), now) {
                Ok(c) => Some(c),
                Err(_) => None,
            },
            None => None,
        },
        None => None,
    }
}

/// Evaluates an endpoint's security level against a request's
/// `Authorization` header at `now`. `Public` admits every request with no
/// claims; the token levels admit with the token's claims, or reject with
/// `Forbidden`, whatever the reason.
pub fn check_auth(cfg: &ServerConfig, security: &HttpSecurity, auth_header: Option<&str>, now: u64) -> (r: Result<Option<AccessClaims>, HandlerError>)
    ensures
        match r {
            Ok(c) => evaluation(cfg.jwt_access_secret@, *security, opt_str_view(auth_header), now) == Some(opt_claims_view(c)),
            Err(e) => evaluation(cfg.jwt_access_secret@, *security, opt_str_view(auth_header), now) is None
                && e == HandlerError::Forbidden,
        },
{
    match security {
        HttpSecurity::Public => Ok(None),
        HttpSecurity::Token => match claims_from_bearer_token(cfg.jwt_access_secret.as_str(), auth_header, now) {
            Some(c) => Ok(Some(c)),
            None => Err(HandlerError::Forbidden),
        },
        HttpSecurity::TokenWithRole(role) => match claims_from_bearer_token(cfg.jwt_access_secret.as_str(), auth_header, now) {
            Some(c) => if c.role == *role {
                Ok(Some(c))
            } else {
                Err(HandlerError::Forbidden)
            },
            None => Err(HandlerError::Forbidden),
        },
    }
}

/// Like `check_auth`, for handlers that need an identity: an admission
/// without claims is rejected too.
pub fn require_auth(cfg: &ServerConfig, security: &HttpSecurity, auth_header: Option<&str>, now: u64) -> (r: Result<AccessClaims, HandlerError>)
    ensures
        match r {
            Ok(c) => evaluation(cfg.jwt_access_secret@, *security, opt_str_view(auth_header), now) == Some(Some(c@)),
            Err(e) => !(evaluation(cfg.jwt_access_secret@, *security, opt_str_view(auth_header), now) matches Some(Some(_)))
                && e == HandlerError::Forbidden,
        },
{
    match check_auth(cfg, security, auth_header, now) {
        Ok(Some(c)) => Ok(c),
        Ok(None) => Err(HandlerError::Forbidden),
        Err(e) => Err(e),
    }
}

/// The identity of an admitted request, for handlers that need one: an
/// admission without claims is refused with `Forbidden`.
pub fn require_claims(claims: Option<AccessClaims>) -> (r: Result<AccessClaims, HandlerError>)
    ensures
        match claims {
            Some(c) => r matches Ok(k) && k@ == c@,
            None => r == Err::<AccessClaims, HandlerError>(HandlerError::Forbidden),
        },
{
    match claims {
        Some(c) => Ok(c),
        None => Err(HandlerError::Forbidden),
    }
}

/// A security checker holding the access-token secret, built once at start.
#[derive(Clone, Debug)]
pub struct AccessTokenChecker {
    pub jwt_access_secret: String,
}

/// A checker for tokens signed with `jwt_access_secret`.
pub fn new_access_token_checker(jwt_access_secret: String) -> (r: AccessTokenChecker)
    ensures
        r.jwt_access_secret@ == jwt_access_secret@,
{
    AccessTokenChecker { jwt_access_secret }
}

impl AccessTokenChecker {
    /// Evaluates `security` against the `Authorization` header at `now`,
    /// as `check_auth` does.
    pub fn check_security(&self, security: &HttpSecurity, auth_header: Option<&str>, now: u64) -> (r: Result<Option<AccessClaims>, HandlerError>)
        ensures
            match r {
                Ok(c) => evaluation(self.jwt_access_secret@, *security, opt_str_view(auth_header), now) == Some(opt_claims_view(c)),
                Err(e) => evaluation(self.jwt_access_secret@, *security, opt_str_view(auth_header), now) is None
                    && e == HandlerError::Forbidden,
            },
    {
        let cfg = ServerConfig { jwt_access_secret: self.jwt_access_secret.clone() };
        check_auth(&cfg, security, auth_header, now)
    }
}

/// A public endpoint admits every request, with no claims, whatever
/// credential it carries.
pub proof fn lemma_public_admits_all(secret: Seq<char>, header: Option<Seq<char>>, now: u64)
    ensures
        evaluation(secret, HttpSecurity::Public, header, now) == Some(None::<(Seq<char>, Role, u64)>),
{
}

/// An endpoint that asks for a role admits a request exactly when its
/// token is valid at `now` and carries that role: a valid `User` token is
/// refused by an `Admin` endpoint, and a valid `Admin` token admitted.
pub proof fn lemma_role_must_match(secret: Seq<char>, header: Option<Seq<char>>, now: u64, required: Role)
    ensures
        header_claims(secret, header, now) matches Some(c) && c.1 != required
            ==> evaluation(secret, HttpSecurity::TokenWithRole(required), header, now) is None,
        header_claims(secret, header, now) matches Some(c) && c.1 == required
            ==> evaluation(secret, HttpSecurity::TokenWithRole(required), header, now) == Some(header_claims(secret, header, now)),
        header_claims(secret, header, now) is None
            ==> evaluation(secret, HttpSecurity::TokenWithRole(required), header, now) is None,
{
}

/// A bearer token that fails validation at `now` (bad signature, expired)
/// is treated exactly as a missing header, by every security level.
pub proof fn lemma_invalid_token_as_missing(secret: Seq<char>, header: Seq<char>, now: u64, security: HttpSecurity)
    requires
        header_claims(secret, Some(header), now) is None,
    ensures
        evaluation(secret, security, Some(header), now) == evaluation(secret, security, None, now),
{
}

/// Sent as `Bearer <token>`, a token that is one field yields exactly the
/// claims the token itself decodes to.
pub proof fn lemma_bearer_header_claims(secret: Seq<char>, token: Seq<char>, now: u64)
    requires
        is_single_field(token),
    ensures
        header_claims(secret, Some(bearer_header(token)), now) == decoded_access(secret, token, now),
{
    lemma_bearer_header_round_trip(token);
}

/// An access token made for `sub` with `role`, sent as `Bearer <token>`
/// before its expiry, admits the request at the `Token` level with the
/// subject, role and expiry it was made with.
pub proof fn lemma_bearer_round_trip(secret: Seq<char>, token: Seq<char>, sub: Seq<char>, role: Role, exp: u64, now: u64)
    requires
        decodes_as_access(secret, token, sub, role, exp),
        now < exp,
    ensures
        evaluation(secret, HttpSecurity::Token, Some(bearer_header(token)), now) == Some(Some((sub, role, exp))),
{
    lemma_bearer_header_claims(secret, token, now);
    assert(decoded_access(secret, token, now) == Some((sub, role, exp)));
}

/// An endpoint that asks for `required` admits a valid access token sent
/// as `Bearer <token>` exactly when the token was made with that role: a
/// `User` token is refused by an `Admin` endpoint, an `Admin` token admitted.
pub proof fn lemma_bearer_role_must_match(secret: Seq<char>, token: Seq<char>, sub: Seq<char>, role: Role, exp: u64, now: u64, required: Role)
    requires
        decodes_as_access(secret, token, sub, role, exp),
        now < exp,
    ensures
        evaluation(secret, HttpSecurity::TokenWithRole(required), Some(bearer_header(token)), now) == (if role == required {
            Some(Some((sub, role, exp)))
        } else {
            None
        }),
{
    lemma_bearer_header_claims(secret, token, now);
    assert(decoded_access(secret, token, now) == Some((sub, role, exp)));
}

/// An access token sent as `Bearer <token>` at or after its expiry is
/// treated, by every security level, exactly as a missing header.
pub proof fn lemma_expired_bearer_as_missing(secret: Seq<char>, token: Seq<char>, sub: Seq<char>, role: Role, exp: u64, now: u64, security: HttpSecurity)
    requires
        decodes_as_access(secret, token, sub, role, exp),
        exp <= now,
    ensures
        evaluation(secret, security, Some(bearer_header(token)), now) == evaluation(secret, security, None, now),
{
    lemma_bearer_header_claims(secret, token, now);
    assert(decoded_access(secret, token, now) is None);
}

/// A one-field token that fails signature verification with `secret` (made
/// with a key that does not verify under it, or altered), sent as
/// `Bearer <token>`, is treated by every security level as a missing header.
pub proof fn lemma_unverified_bearer_as_missing(secret: Seq<char>, token: Seq<char>, now: u64, security: HttpSecurity)
    requires
        is_single_field(token),
        verified_fields_of(secret, token) is None,
    ensures
        evaluation(secret, security, Some(bearer_header(token)), now) == evaluation(secret, security, None, now),
{
    lemma_bearer_header_claims(secret, token, now);
}

} // verus!
