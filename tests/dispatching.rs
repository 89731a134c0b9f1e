use api_core::cookies::{clearing_cookie, cookie_named, first_value, get_cookie, refresh_cookie};
use api_core::dispatch::{dispatch, Dispatch, ALLOW_CORS};
use api_core::error::HandlerError;
use api_core::handler::{
    access_jwt_from_user, begin_refresh, choose_refresh_token, finish_refresh,
    get_adl_request_context, login, user_from_claims, who_am_i, AppUser, AppUserId, LoginResp,
    RefreshResp, RefreshStep, REFRESH_TOKEN,
};
use api_core::jwt::{create_access, create_refresh, decode_access, Role, REFRESH_TOKEN_TTL_SECS};
use api_core::response::{
    json_response, login_response, logout_response, make_err_response, preflight_response, respond,
};
use api_core::routes::{api_routes, EndpointDescriptor, Method, Operation, RouteTable};
use api_core::security::{
    check_auth, claims_from_bearer_token, new_access_token_checker, require_auth, require_claims, HttpSecurity,
    ServerConfig,
};

const NOW: u64 = 1_700_000_000;

fn cfg() -> ServerConfig {
    ServerConfig { jwt_access_secret: "s3cret".to_string() }
}

fn user(is_admin: bool) -> AppUser {
    AppUser {
        fullname: "Ada Lovelace".to_string(),
        email: "ada@example.com".to_string(),
        hashed_password: "hash".to_string(),
        is_admin,
    }
}

fn bearer(role: Role) -> String {
    format!("Bearer {}", create_access("s3cret", "u1", role, NOW))
}

fn headers(r: &api_core::response::Response) -> Vec<(&str, &str)> {
    r.headers.iter().map(|(a, b)| (a.as_str(), b.as_str())).collect()
}

#[test]
fn public_admits_any_credential() {
    let c = cfg();
    assert!(check_auth(&c, &HttpSecurity::Public, None, NOW).unwrap().is_none());
    assert!(check_auth(&c, &HttpSecurity::Public, Some("garbage"), NOW).unwrap().is_none());
    let b = bearer(Role::Admin);
    assert!(check_auth(&c, &HttpSecurity::Public, Some(&b), NOW).unwrap().is_none());
}

#[test]
fn token_level_needs_valid_token() {
    let c = cfg();
    assert_eq!(check_auth(&c, &HttpSecurity::Token, None, NOW).unwrap_err(), HandlerError::Forbidden);
    assert_eq!(check_auth(&c, &HttpSecurity::Token, Some("Bearer junk"), NOW).unwrap_err(), HandlerError::Forbidden);
    let b = bearer(Role::User);
    let claims = check_auth(&c, &HttpSecurity::Token, Some(&b), NOW).unwrap().unwrap();
    assert_eq!(claims.sub, "u1");
    assert_eq!(claims.role, Role::User);
    assert!(check_auth(&c, &HttpSecurity::Token, Some(&b), NOW + 10_000).is_err());
}

#[test]
fn admin_level_rejects_user_token() {
    let c = cfg();
    let b = bearer(Role::User);
    assert_eq!(
        check_auth(&c, &HttpSecurity::TokenWithRole(Role::Admin), Some(&b), NOW).unwrap_err(),
        HandlerError::Forbidden
    );
}

#[test]
fn admin_level_admits_admin_token() {
    let c = cfg();
    let b = bearer(Role::Admin);
    let claims = check_auth(&c, &HttpSecurity::TokenWithRole(Role::Admin), Some(&b), NOW).unwrap().unwrap();
    assert_eq!(claims.role, Role::Admin);
}

#[test]
fn require_auth_needs_identity() {
    let c = cfg();
    assert_eq!(require_auth(&c, &HttpSecurity::Public, None, NOW).unwrap_err(), HandlerError::Forbidden);
    let b = bearer(Role::User);
    assert_eq!(require_auth(&c, &HttpSecurity::Token, Some(&b), NOW).unwrap().sub, "u1");
    assert_eq!(require_claims(None).unwrap_err(), HandlerError::Forbidden);
    let claims = check_auth(&c, &HttpSecurity::Token, Some(&b), NOW).unwrap();
    assert_eq!(require_claims(claims).unwrap().sub, "u1");
}

#[test]
fn checker_and_context() {
    let checker = new_access_token_checker("s3cret".to_string());
    let b = bearer(Role::User);
    let ctx = get_adl_request_context(42u32, &checker, &HttpSecurity::Token, Some(&b), NOW).unwrap();
    assert_eq!(ctx.state, 42);
    assert_eq!(ctx.claims.unwrap().sub, "u1");
    assert_eq!(
        get_adl_request_context(1u32, &checker, &HttpSecurity::Token, None, NOW).err(),
        Some(HandlerError::Forbidden)
    );
    assert!(checker.check_security(&HttpSecurity::Public, None, NOW).unwrap().is_none());
    assert!(claims_from_bearer_token("s3cret", Some(&b), NOW).is_some());
    assert!(claims_from_bearer_token("other", Some(&b), NOW).is_none());
}

#[test]
fn route_table_matches_exactly() {
    let t = api_routes();
    let i = t.find(Method::Post, "/login").unwrap();
    assert_eq!(t.endpoints[i].op, Operation::Login);
    assert!(t.find(Method::Get, "/login").is_none());
    assert!(t.find(Method::Post, "/login/").is_none());
    assert!(t.find(Method::Post, "/log").is_none());
    let w = t.find(Method::Get, "/whoami").unwrap();
    assert_eq!(t.endpoints[w].op, Operation::WhoAmI);
    assert_eq!(t.endpoints.len(), 8);
}

#[test]
fn duplicate_endpoint_refused() {
    let mut t = RouteTable::new();
    assert!(t.add(EndpointDescriptor::post("/a", HttpSecurity::Public, Operation::Ping)).is_ok());
    assert!(t.add(EndpointDescriptor::get("/a", HttpSecurity::Public, Operation::Healthy)).is_ok());
    assert!(t.add(EndpointDescriptor::post("/a", HttpSecurity::Token, Operation::Login)).is_err());
    assert_eq!(t.endpoints.len(), 2);
    assert!(EndpointDescriptor::post("/a", HttpSecurity::Public, Operation::Ping).matches(Method::Post, "/a"));
    assert!(!EndpointDescriptor::post("/a", HttpSecurity::Public, Operation::Ping).matches(Method::Get, "/a"));
}

#[test]
fn options_is_preflight_on_any_path() {
    let t = api_routes();
    let c = cfg();
    assert!(ALLOW_CORS);
    assert!(matches!(dispatch(&t, true, &c, Method::Options, "/nowhere", None, NOW), Dispatch::Preflight));
    assert!(matches!(dispatch(&t, true, &c, Method::Options, "/login", None, NOW), Dispatch::Preflight));
    let r = preflight_response();
    assert_eq!(r.status, 200);
    assert_eq!(
        headers(&r),
        vec![
            ("Access-Control-Allow-Headers", "*"),
            ("Access-Control-Allow-Method", "*"),
            ("Access-Control-Allow-Origin", "*")
        ]
    );
    assert!(r.body.is_empty());
}

#[test]
fn options_without_cors_is_not_found() {
    let t = api_routes();
    assert!(matches!(
        dispatch(&t, false, &cfg(), Method::Options, "/login", None, NOW),
        Dispatch::Fail(HandlerError::NotFound)
    ));
}

#[test]
fn unknown_route_is_not_found() {
    let t = api_routes();
    let d = dispatch(&t, true, &cfg(), Method::Get, "/nowhere", None, NOW);
    assert!(matches!(d, Dispatch::Fail(HandlerError::NotFound)));
    let r = make_err_response(HandlerError::NotFound);
    assert_eq!(r.status, 404);
    assert!(r.body.is_empty());
    assert_eq!(headers(&r), vec![("Access-Control-Allow-Origin", "*")]);
}

#[test]
fn token_endpoint_without_header_is_forbidden() {
    let t = api_routes();
    let d = dispatch(&t, true, &cfg(), Method::Get, "/whoami", None, NOW);
    match d {
        Dispatch::Fail(e) => {
            assert_eq!(e, HandlerError::Forbidden);
            let r = make_err_response(e);
            assert_eq!(r.status, 403);
            assert!(r.body.is_empty());
            assert_eq!(headers(&r), vec![("Access-Control-Allow-Origin", "*")]);
        }
        _ => panic!("expected a rejection"),
    }
}

#[test]
fn token_endpoint_with_token_is_admitted() {
    let t = api_routes();
    let b = bearer(Role::User);
    match dispatch(&t, true, &cfg(), Method::Post, "/messages/new", Some(&b), NOW) {
        Dispatch::Admitted { op, has_body, claims, .. } => {
            assert_eq!(op, Operation::NewMessage);
            assert!(has_body);
            assert_eq!(claims.unwrap().sub, "u1");
        }
        _ => panic!("expected an admission"),
    }
}

#[test]
fn malformed_body_on_admitted_request_is_bad_request() {
    let t = api_routes();
    let b = bearer(Role::User);
    let d = dispatch(&t, true, &cfg(), Method::Post, "/messages/new", Some(&b), NOW);
    assert!(matches!(d, Dispatch::Admitted { has_body: true, .. }));
    let decoded: Result<serde_json::Value, _> = serde_json::from_str("{\"message\": ");
    assert!(decoded.is_err());
    let r = respond(Err(HandlerError::BadRequest));
    assert_eq!(r.status, 400);
    assert!(r.body.is_empty());
    assert_eq!(headers(&r), vec![("Access-Control-Allow-Origin", "*")]);
}

#[test]
fn error_statuses() {
    assert_eq!(HandlerError::NotFound.status(), 404);
    assert_eq!(HandlerError::Forbidden.status(), 403);
    assert_eq!(HandlerError::BadRequest.status(), 400);
    assert_eq!(HandlerError::Internal.status(), 500);
    assert_eq!(make_err_response(HandlerError::Internal).status, 500);
}

#[test]
fn json_response_headers() {
    let r = json_response("{}".to_string());
    assert_eq!(r.status, 200);
    assert_eq!(r.body, "{}");
    assert_eq!(headers(&r), vec![("Access-Control-Allow-Origin", "*"), ("Content-Type", "application/json")]);
    let r2 = respond(Ok("[1]".to_string()));
    assert_eq!(r2.body, "[1]");
}

#[test]
fn login_with_correct_password_gives_tokens_and_cookie() {
    let c = cfg();
    let resp = login(&c, Some((AppUserId("u1".to_string()), user(false))), true, NOW);
    let tokens = match &resp {
        LoginResp::Tokens(t) => t.clone(),
        LoginResp::InvalidCredentials => panic!("expected tokens"),
    };
    assert_eq!(decode_access("s3cret", &tokens.access_jwt, NOW).unwrap().role, Role::User);
    let r = login_response("{}".to_string(), &resp);
    assert_eq!(r.status, 200);
    let cookie = format!("refreshToken={}; HttpOnly", tokens.refresh_jwt);
    assert_eq!(
        headers(&r),
        vec![
            ("Access-Control-Allow-Origin", "*"),
            ("Set-Cookie", cookie.as_str()),
            ("Content-Type", "application/json")
        ]
    );
}

#[test]
fn login_with_wrong_password_is_invalid_credentials() {
    let c = cfg();
    let resp = login(&c, Some((AppUserId("u1".to_string()), user(false))), false, NOW);
    assert!(matches!(resp, LoginResp::InvalidCredentials));
    let r = login_response("\"invalidCredentials\"".to_string(), &resp);
    assert_eq!(r.status, 200);
    assert_eq!(r.headers.len(), 2);
    assert!(matches!(login(&c, None, true, NOW), LoginResp::InvalidCredentials));
}

#[test]
fn admin_user_gets_admin_token() {
    let c = cfg();
    let t = access_jwt_from_user(&c, &AppUserId("a".to_string()), &user(true), NOW);
    assert_eq!(decode_access("s3cret", &t, NOW).unwrap().role, Role::Admin);
}

#[test]
fn refresh_with_expired_cookie_token_is_invalid() {
    let c = cfg();
    let old = create_refresh("s3cret", "u1", NOW);
    let header = format!("theme=dark; {}={}", REFRESH_TOKEN, old);
    let from_cookie = get_cookie(Some(&header), REFRESH_TOKEN);
    assert_eq!(from_cookie.as_deref(), Some(old.as_str()));
    let step = begin_refresh(&c, None, from_cookie, NOW + REFRESH_TOKEN_TTL_SECS + 1);
    assert!(matches!(step, RefreshStep::Respond(RefreshResp::InvalidRefreshToken)));
    assert_eq!(json_response("\"invalidRefreshToken\"".to_string()).status, 200);
}

#[test]
fn refresh_with_valid_cookie_token_gives_access_token() {
    let c = cfg();
    let tok = create_refresh("s3cret", "u1", NOW);
    match begin_refresh(&c, None, Some(tok), NOW + 5) {
        RefreshStep::LookUp(id) => {
            assert_eq!(id.0, "u1");
            match finish_refresh(&c, &id, Some(user(true)), NOW + 5) {
                RefreshResp::AccessToken(a) => {
                    assert_eq!(decode_access("s3cret", &a, NOW + 5).unwrap().role, Role::Admin)
                }
                _ => panic!("expected an access token"),
            }
            assert!(matches!(finish_refresh(&c, &id, None, NOW), RefreshResp::InvalidRefreshToken));
        }
        _ => panic!("expected a lookup"),
    }
    assert!(matches!(begin_refresh(&c, None, None, NOW), RefreshStep::Respond(RefreshResp::InvalidRefreshToken)));
}

#[test]
fn body_token_wins_over_cookie() {
    let c = cfg();
    assert_eq!(choose_refresh_token(Some("a".to_string()), Some("b".to_string())), Some("a".to_string()));
    assert_eq!(choose_refresh_token(None, Some("b".to_string())), Some("b".to_string()));
    assert_eq!(choose_refresh_token(None, None), None);
    let good = create_refresh("s3cret", "u1", NOW);
    let step = begin_refresh(&c, Some("junk".to_string()), Some(good), NOW);
    assert!(matches!(step, RefreshStep::Respond(RefreshResp::InvalidRefreshToken)));
}

#[test]
fn cookie_lookup() {
    assert_eq!(get_cookie(Some("a=1; refreshToken=xyz; b=2"), "refreshToken"), Some("xyz".to_string()));
    assert_eq!(get_cookie(Some("a=1; b=2"), "refreshToken"), None);
    assert_eq!(get_cookie(Some("broken; a=1; a=2"), "a"), Some("1".to_string()));
    assert_eq!(get_cookie(None, "a"), None);
}

#[test]
fn set_cookie_values() {
    assert_eq!(refresh_cookie("refreshToken", "abc"), "refreshToken=abc; HttpOnly");
    assert_eq!(clearing_cookie("refreshToken"), "refreshToken=; HttpOnly; Max-Age=0");
    let r = logout_response("{}".to_string());
    assert_eq!(
        headers(&r),
        vec![
            ("Access-Control-Allow-Origin", "*"),
            ("Set-Cookie", "refreshToken=; HttpOnly; Max-Age=0"),
            ("Content-Type", "application/json")
        ]
    );
}

#[test]
fn identity_endpoint() {
    let c = cfg();
    let t = create_access("s3cret", "u9", Role::User, NOW);
    let claims = decode_access("s3cret", &t, NOW).unwrap();
    let id = user_from_claims(&claims);
    assert_eq!(id.0, "u9");
    let p = who_am_i(Some((id, user(true)))).unwrap();
    assert_eq!(p.id.0, "u9");
    assert_eq!(p.email, "ada@example.com");
    assert!(p.is_admin);
    assert_eq!(who_am_i(None).err(), Some(HandlerError::Forbidden));
    let _ = c;
}

#[test]
fn api_routes_table() {
    let t = api_routes();
    let expected = [
        (Method::Get, "/healthy", HttpSecurity::Public, false, Operation::Healthy),
        (Method::Post, "/ping", HttpSecurity::Public, true, Operation::Ping),
        (Method::Post, "/login", HttpSecurity::Public, true, Operation::Login),
        (Method::Post, "/refresh", HttpSecurity::Public, true, Operation::Refresh),
        (Method::Post, "/logout", HttpSecurity::Public, true, Operation::Logout),
        (Method::Post, "/messages/new", HttpSecurity::Token, true, Operation::NewMessage),
        (Method::Post, "/messages/recent", HttpSecurity::Token, true, Operation::RecentMessages),
        (Method::Get, "/whoami", HttpSecurity::Token, false, Operation::WhoAmI),
    ];
    assert_eq!(t.endpoints.len(), expected.len());
    for (e, (m, p, s, b, o)) in t.endpoints.iter().zip(expected.iter()) {
        assert_eq!(e.method, *m);
        assert_eq!(e.path, *p);
        assert_eq!(e.security, *s);
        assert_eq!(e.has_body, *b);
        assert_eq!(e.op, *o);
    }
}

#[test]
fn first_value_over_pairs() {
    let pairs = vec![
        ("a".to_string(), "1".to_string()),
        ("refreshToken".to_string(), "x".to_string()),
        ("refreshToken".to_string(), "y".to_string()),
    ];
    assert_eq!(first_value(&pairs, "refreshToken"), Some("x".to_string()));
    assert_eq!(first_value(&pairs, "b"), None);
    assert_eq!(first_value(&Vec::new(), "a"), None);
    assert_eq!(cookie_named("x=1;  y = 2 ;", "y"), Some("2".to_string()));
}

#[test]
fn bearer_header_of_created_tokens() {
    let c = cfg();
    let user_tok = create_access("s3cret", "sub-1", Role::User, NOW);
    let admin_tok = create_access("s3cret", "sub-2", Role::Admin, NOW);
    assert!(!user_tok.chars().any(|ch| ch.is_ascii_whitespace()));
    let admin_level = HttpSecurity::TokenWithRole(Role::Admin);
    let uh = format!("Bearer {}", user_tok);
    let ah = format!("Bearer {}", admin_tok);
    assert_eq!(check_auth(&c, &admin_level, Some(&uh), NOW).unwrap_err(), HandlerError::Forbidden);
    let claims = check_auth(&c, &admin_level, Some(&ah), NOW).unwrap().unwrap();
    assert_eq!(claims.sub, "sub-2");
    assert_eq!(claims.role, Role::Admin);
    let later = NOW + api_core::jwt::ACCESS_TOKEN_TTL_SECS;
    assert_eq!(
        check_auth(&c, &HttpSecurity::Token, Some(&uh), later).unwrap_err(),
        check_auth(&c, &HttpSecurity::Token, None, later).unwrap_err()
    );
}
