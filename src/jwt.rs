//! Signed access and refresh tokens: creation, and validation at a given time.

use vstd::prelude::*;

use crate::text::{
    ascii_fields, is_ascii_ws, is_single_field, lemma_fields_of_pair, lower_equals, lowered_equals,
    split_ascii_fields, str_equals, strings_view,
};

verus! {

/// Lifetime of an access token, in seconds.
pub const ACCESS_TOKEN_TTL_SECS: u64 = 3600;

/// Lifetime of a refresh token, in seconds (two weeks).
pub const REFRESH_TOKEN_TTL_SECS: u64 = 1209600;

/// The role embedded in an access token.
#[derive(Clone, Copy, Debug, PartialEq, Eq, Structural)]
pub enum Role {
    User,
    Admin,
}

pub open spec fn user_role_name() -> Seq<char> {
    seq!['u', 's', 'e', 'r']
}

pub open spec fn admin_role_name() -> Seq<char> {
    seq!['a', 'd', 'm', 'i', 'n']
}

/// The role whose claim text is `s`, if any.
pub open spec fn role_named(s: Seq<char>) -> Option<Role> {
    if s == user_role_name() {
        Some(Role::User)
    } else if s == admin_role_name() {
        Some(Role::Admin)
    } else {
        None
    }
}

impl Role {
    pub open spec fn name(self) -> Seq<char> {
        match self {
            Role::User => user_role_name(),
            Role::Admin => admin_role_name(),
        }
    }

    /// The text that stands for the role in a token's claims.
    pub fn as_str(&self) -> (r: &'static str)
        ensures
            r@ == self.name(),
    {
        match self {
            Role::User => {
                proof {
                    reveal_strlit("user");
                }
                "user"
            },
            Role::Admin => {
                proof {
                    reveal_strlit("admin");
                }
                "admin"
            },
        }
    }
}

/// The verified claims of an access token.
#[derive(Clone, Debug)]
pub struct AccessClaims {
    pub sub: String,
    pub role: Role,
    pub exp: u64,
}

impl View for AccessClaims {
    type V = (Seq<char>, Role, u64);

    open spec fn view(&self) -> (Seq<char>, Role, u64) {
        (self.sub@, self.role, self.exp)
    }
}

/// The verified claims of a refresh token: no role.
#[derive(Clone, Debug)]
pub struct RefreshClaims {
    pub sub: String,
    pub exp: u64,
}

impl View for RefreshClaims {
    type V = (Seq<char>, u64);

    open spec fn view(&self) -> (Seq<char>, u64) {
        (self.sub@, self.exp)
    }
}

/// A token that failed validation: bad signature, bad shape, missing claims,
/// or past its expiry. The reason is not kept.
#[derive(Clone, Copy, Debug, PartialEq, Eq, Structural)]
pub struct InvalidToken;

/// The claims read from a token whose signature was checked, before any
/// claim is interpreted.
pub struct TokenFields {
    pub sub: Option<String>,
    pub role: Option<String>,
    pub exp: Option<u64>,
}

pub open spec fn opt_string_view(o: Option<String>) -> Option<Seq<char>> {
    match o {
        Some(s) => Some(s@),
        None => None,
    }
}

pub open spec fn opt_str_view(o: Option<&str>) -> Option<Seq<char>> {
    match o {
        Some(s) => Some(s@),
        None => None,
    }
}

pub open spec fn fields_view(o: Option<TokenFields>) -> Option<(Option<Seq<char>>, Option<Seq<char>>, Option<u64>)> {
    match o {
        Some(f) => Some((opt_string_view(f.sub), opt_string_view(f.role), f.exp)),
        None => None,
    }
}

/// The token that HS256 signing with `secret` makes of the claims
/// `sub`, `role` (null where absent) and `exp`.
pub uninterp spec fn signed_token_of(secret: Seq<char>, sub: Seq<char>, role: Option<Seq<char>>, exp: int) -> Seq<char>;

/// What HS256 verification with `secret` reads from `token`: `None` where
/// the token is malformed or its signature does not match; else its `sub`,
/// `role` and `exp` claims, each where present with the expected JSON type.
pub uninterp spec fn verified_fields_of(secret: Seq<char>, token: Seq<char>) -> Option<(Option<Seq<char>>, Option<Seq<char>>, Option<u64>)>;

/// Relies on `jsonwebtoken::encode` with the default header (HS256) and
/// `EncodingKey::from_secret`: the token is a function of the secret and the
/// claims, and `jsonwebtoken::decode` with the same secret gives the claims
/// back. `encode` fails only when the key's family differs from the header's
/// algorithm or the claims do not serialise; neither can happen with an HMAC
/// key and a JSON object of strings and an integer. The token is three
/// unpadded base64url parts joined by `.`, so it is non-empty and holds no
/// whitespace.
#[verifier::external_body]
fn sign_claims(secret: &str, sub: &str, role: Option<&str>, exp: u64) -> (r: String)
    ensures
        r@ == signed_token_of(secret@, sub@, opt_str_view(role), exp as int),
        verified_fields_of(secret@, r@) == Some((Some(sub@), opt_str_view(role), Some(exp))),
        r@.len() > 0,
        forall|i: int| 0 <= i < r@.len() ==> !is_ascii_ws(r@[i]),
{
    let mut claims = serde_json::Map::new();
    claims.insert("sub".to_string(), serde_json::Value::from(sub));
    claims.insert("role".to_string(), serde_json::Value::from(role));
    claims.insert("exp".to_string(), serde_json::Value::from(exp));
    let key = jsonwebtoken::EncodingKey::from_secret(secret.as_bytes());
    jsonwebtoken::encode(&jsonwebtoken::Header::default(), &claims, &key).expect("HMAC signing")
}

/// Relies on `jsonwebtoken::decode` with `Validation::new(HS256)` and the
/// expiry check switched off (expiry is checked by the caller against a
/// given time): it checks the shape and the signature and that an `exp`
/// claim is present, and reads the claims as a JSON object.
#[verifier::external_body]
fn verify_signature(secret: &str, token: &str) -> (r: Option<TokenFields>)
    ensures
        fields_view(r) == verified_fields_of(secret@, token@),
{
    let mut validation = jsonwebtoken::Validation::new(jsonwebtoken::Algorithm::HS256);
    validation.validate_exp = false;
    let key = jsonwebtoken::DecodingKey::from_secret(secret.as_bytes());
    let c = jsonwebtoken::decode::<serde_json::Value>(token, &key, &validation).ok()?.claims;
    Some(TokenFields {
        sub: c.get("sub").and_then(|v| v.as_str()).map(String::from),
        role: c.get("role").and_then(|v| v.as_str()).map(String::from),
        exp: c.get("exp").and_then(|v| v.as_u64()),
    })
}


/// The claims that a token holds as access claims at time `now`: a valid
/// signature, a subject, a known role and an expiry later than `now`.
pub open spec fn decoded_access(secret: Seq<char>, token: Seq<char>, now: u64) -> Option<(Seq<char>, Role, u64)> {
    match verified_fields_of(secret, token) {
        Some((Some(sub), Some(role), Some(exp))) => match role_named(role) {
            Some(r) => if now < exp {
                Some((sub, r, exp))
            } else {
                None
            },
            None => None,
        },
        _ => None,
    }
}

/// The claims that a token holds as refresh claims at time `now`: a valid
/// signature, a subject and an expiry later than `now`.
pub open spec fn decoded_refresh(secret: Seq<char>, token: Seq<char>, now: u64) -> Option<(Seq<char>, u64)> {
    match verified_fields_of(secret, token) {
        Some((Some(sub), _, Some(exp))) => if now < exp {
            Some((sub, exp))
        } else {
            None
        },
        _ => None,
    }
}

/// Until its expiry `exp`, `token` is one field and decodes as an access
/// token for `sub` with `role`; from `exp` on it is refused.
pub open spec fn decodes_as_access(secret: Seq<char>, token: Seq<char>, sub: Seq<char>, role: Role, exp: u64) -> bool {
    &&& is_single_field(token)
    &&& forall|t: u64| t < exp ==> #[trigger] decoded_access(secret, token, t) == Some((sub, role, exp))
    &&& forall|t: u64| exp <= t ==> #[trigger] decoded_access(secret, token, t) is None
}

/// Until its expiry `exp`, `token` is one field and decodes as a refresh
/// token for `sub`; from `exp` on it is refused.
pub open spec fn decodes_as_refresh(secret: Seq<char>, token: Seq<char>, sub: Seq<char>, exp: u64) -> bool {
    &&& is_single_field(token)
    &&& forall|t: u64| t < exp ==> #[trigger] decoded_refresh(secret, token, t) == Some((sub, exp))
    &&& forall|t: u64| exp <= t ==> #[trigger] decoded_refresh(secret, token, t) is None
}

pub open spec fn expiry_after(now: u64, ttl: u64) -> u64 {
    if now as int + ttl as int > u64::MAX as int {
        u64::MAX
    } else {
        (now + ttl) as u64
    }
}

/// The role named by a claim's text.
pub fn role_from_str(s: &str) -> (r: Option<Role>)
    ensures
        r == role_named(s@),
{
    proof {
        reveal_strlit("user");
        reveal_strlit("admin");
        assert("user"@ =~= user_role_name());
        assert("admin"@ =~= admin_role_name());
    }
    if str_equals(s, "user") {
        Some(Role::User)
    } else if str_equals(s, "admin") {
        Some(Role::Admin)
    } else {
        None
    }
}

/// A signed access token for `sub` with `role`, expiring
/// `ACCESS_TOKEN_TTL_SECS` after `now` (at the largest time, if that is later).
pub fn create_access(secret: &str, sub: &str, role: Role, now: u64) -> (r: String)
    ensures
        r@ == signed_token_of(secret@, sub@, Some(role.name()), expiry_after(now, ACCESS_TOKEN_TTL_SECS) as int),
        verified_fields_of(secret@, r@) == Some((Some(sub@), Some(role.name()), Some(expiry_after(now, ACCESS_TOKEN_TTL_SECS)))),
        decodes_as_access(secret@, r@, sub@, role, expiry_after(now, ACCESS_TOKEN_TTL_SECS)),
{
    let exp = now.saturating_add(ACCESS_TOKEN_TTL_SECS);
    let r = sign_claims(secret, sub, Some(role.as_str()), exp);
    assert forall|t: u64| t < exp implies #[trigger] decoded_access(secret@, r@, t) == Some((sub@, role, exp)) by {
        lemma_access_round_trip(secret@, r@, sub@, role, exp, t);
    }
    r
}

/// A signed access token with the `User` role.
pub fn create_user_access(secret: &str, sub: &str, now: u64) -> (r: String)
    ensures
        r@ == signed_token_of(secret@, sub@, Some(Role::User.name()), expiry_after(now, ACCESS_TOKEN_TTL_SECS) as int),
        verified_fields_of(secret@, r@) == Some((Some(sub@), Some(Role::User.name()), Some(expiry_after(now, ACCESS_TOKEN_TTL_SECS)))),
        decodes_as_access(secret@, r@, sub@, Role::User, expiry_after(now, ACCESS_TOKEN_TTL_SECS)),
{
    create_access(secret, sub, Role::User, now)
}

/// A signed access token with the `Admin` role.
pub fn create_admin_access(secret: &str, sub: &str, now: u64) -> (r: String)
    ensures
        r@ == signed_token_of(secret@, sub@, Some(Role::Admin.name()), expiry_after(now, ACCESS_TOKEN_TTL_SECS) as int),
        verified_fields_of(secret@, r@) == Some((Some(sub@), Some(Role::Admin.name()), Some(expiry_after(now, ACCESS_TOKEN_TTL_SECS)))),
        decodes_as_access(secret@, r@, sub@, Role::Admin, expiry_after(now, ACCESS_TOKEN_TTL_SECS)),
{
    create_access(secret, sub, Role::Admin, now)
}

/// A signed refresh token for `sub`, with no role, expiring
/// `REFRESH_TOKEN_TTL_SECS` after `now` (at the largest time, if that is later).
pub fn create_refresh(secret: &str, sub: &str, now: u64) -> (r: String)
    ensures
        r@ == signed_token_of(secret@, sub@, None, expiry_after(now, REFRESH_TOKEN_TTL_SECS) as int),
        verified_fields_of(secret@, r@) == Some((Some(sub@), None::<Seq<char>>, Some(expiry_after(now, REFRESH_TOKEN_TTL_SECS)))),
        decodes_as_refresh(secret@, r@, sub@, expiry_after(now, REFRESH_TOKEN_TTL_SECS)),
{
    let exp = now.saturating_add(REFRESH_TOKEN_TTL_SECS);
    let r = sign_claims(secret, sub, None, exp);
    assert forall|t: u64| t < exp implies #[trigger] decoded_refresh(secret@, r@, t) == Some((sub@, exp)) by {
        lemma_refresh_round_trip(secret@, r@, sub@, exp, t);
    }
    r
}

/// Validates an access token at time `now`. Every failure (signature, shape,
/// missing or unknown claim, expiry) gives the one error `InvalidToken`.
pub fn decode_access(secret: &str, token: &str, now: u64) -> (r: Result<AccessClaims, InvalidToken>)
    ensures
        match r {
            Ok(c) => decoded_access(secret@, token@, now) == Some(c@),
            Err(_) => decoded_access(secret@, token@, now) is None,
        },
{
    match verify_signature(secret, token) {
        Some(TokenFields { sub: Some(sub), role: Some(role), exp: Some(exp) }) => {
            match role_from_str(role.as_str()) {
                Some(r) => if now < exp {
                    Ok(AccessClaims { sub, role: r, exp })
                } else {
                    Err(InvalidToken)
                },
                None => Err(InvalidToken),
            }
        },
        _ => Err(InvalidToken),
    }
}

/// Validates a refresh token at time `now`; any failure gives `InvalidToken`.
pub fn decode_refresh(secret: &str, token: &str, now: u64) -> (r: Result<RefreshClaims, InvalidToken>)
    ensures
        match r {
            Ok(c) => decoded_refresh(secret@, token@, now) == Some(c@),
            Err(_) => decoded_refresh(secret@, token@, now) is None,
        },
{
    match verify_signature(secret, token) {
        Some(TokenFields { sub: Some(sub), role: _, exp: Some(exp) }) => {
            if now < exp {
                Ok(RefreshClaims { sub, exp })
            } else {
                Err(InvalidToken)
            }
        },
        _ => Err(InvalidToken),
    }
}

/// The token of an `Authorization` header value: there are exactly two
/// fields separated by ASCII whitespace, and the first is `bearer` in any
/// ASCII case.
pub open spec fn bearer_token_of(header: Seq<char>) -> Option<Seq<char>> {
    let fields = ascii_fields(header);
    if fields.len() == 2 && lowered_equals(fields[0], bearer_scheme()) {
        Some(fields[1])
    } else {
        None
    }
}

pub open spec fn bearer_scheme() -> Seq<char> {
    seq!['b', 'e', 'a', 'r', 'e', 'r']
}

/// The `Authorization` header value `Bearer <token>`.
pub open spec fn bearer_header(token: Seq<char>) -> Seq<char> {
    seq!['B', 'e', 'a', 'r', 'e', 'r'] + seq![' '] + token
}

/// A token that is one field comes back out of its `Bearer` header.
pub proof fn lemma_bearer_header_round_trip(token: Seq<char>)
    requires
        is_single_field(token),
    ensures
        bearer_token_of(bearer_header(token)) == Some(token),
{
    let w: Seq<char> = seq!['B', 'e', 'a', 'r', 'e', 'r'];
    assert(is_single_field(w));
    lemma_fields_of_pair(w, token);
    let f = ascii_fields(bearer_header(token));
    assert(f =~= seq![w, token]);
    assert(f[0] == w);
    assert(lowered_equals(w, bearer_scheme()));
}

/// Extracts the token from an `Authorization: Bearer <token>` header value;
/// any other shape counts as no token.
pub fn bearer_token_from_auth_header(header: &str) -> (r: Option<String>)
    ensures
        opt_string_view(r) == bearer_token_of(header@),
{
    proof {
        reveal_strlit("bearer");
        assert("bearer"@ =~= bearer_scheme());
    }
    let mut fields = split_ascii_fields(header);
    if fields.len() == 2 && lower_equals(fields[0].as_str(), "bearer") {
        let token = fields.pop().unwrap();
        assert(token@ == strings_view(fields@.push(token))[1]);
        Some(token)
    } else {
        None
    }
}

/// A token that an access token's creation made with `secret` decodes with
/// the same secret, at any time before its expiry, to the subject and role
/// it was made with.
pub proof fn lemma_access_round_trip(secret: Seq<char>, token: Seq<char>, sub: Seq<char>, role: Role, exp: u64, now: u64)
    requires
        verified_fields_of(secret, token) == Some((Some(sub), Some(role.name()), Some(exp))),
        now < exp,
    ensures
        decoded_access(secret, token, now) == Some((sub, role, exp)),
{
}

/// A refresh token made with `secret` decodes with the same secret, at any
/// time before its expiry, to the subject it was made with.
pub proof fn lemma_refresh_round_trip(secret: Seq<char>, token: Seq<char>, sub: Seq<char>, exp: u64, now: u64)
    requires
        verified_fields_of(secret, token) == Some((Some(sub), None::<Seq<char>>, Some(exp))),
        now < exp,
    ensures
        decoded_refresh(secret, token, now) == Some((sub, exp)),
{
}

/// A token whose expiry is not later than `now` is rejected, as access
/// token and as refresh token, whatever else it holds.
pub proof fn lemma_expired_rejected(secret: Seq<char>, token: Seq<char>, now: u64)
    requires
        verified_fields_of(secret, token) matches Some((_, _, Some(exp))) && exp <= now,
    ensures
        decoded_access(secret, token, now) is None,
        decoded_refresh(secret, token, now) is None,
{
}

/// A token that does not pass signature verification with `secret` (made
/// with another secret, or altered) is rejected as access and as refresh token.
pub proof fn lemma_unverified_rejected(secret: Seq<char>, token: Seq<char>, now: u64)
    requires
        verified_fields_of(secret, token) is None,
    ensures
        decoded_access(secret, token, now) is None,
        decoded_refresh(secret, token, now) is None,
{
}

} // verus!
