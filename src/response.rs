//! The responses the server sends: CORS preflight answers, JSON results,
//! and bodiless errors.

use vstd::prelude::*;

use crate::cookies::{clearing_cookie, refresh_cookie};
use crate::error::HandlerError;
use crate::handler::{LoginResp, REFRESH_TOKEN};

verus! {

/// A response: status, headers in order, and body text (empty for none).
#[derive(Clone, Debug)]
pub struct Response {
    pub status: u16,
    pub headers: Vec<(String, String)>,
    pub body: String,
}

pub open spec fn headers_view(v: Seq<(String, String)>) -> Seq<(Seq<char>, Seq<char>)> {
    v.map_values(|p: (String, String)| (p.0@, p.1@))
}

fn header(name: &str, value: &str) -> (r: (String, String))
    ensures
        r.0@ == name@,
        r.1@ == value@,
{
    (String::from_str(name), String::from_str(value))
}

/// The answer to an `OPTIONS` request: status 200, the three permissive
/// CORS headers, no body.
pub fn preflight_response() -> (r: Response)
    ensures
        r.status == 200,
        headers_view(r.headers@) == seq![
            ("Access-Control-Allow-Headers"@, "*"@),
            ("Access-Control-Allow-Method"@, "*"@),
            ("Access-Control-Allow-Origin"@, "*"@),
        ],
        r.body@.len() == 0,
{
    let mut headers: Vec<(String, String)> = Vec::new();
    headers.push(header("Access-Control-Allow-Headers", "*"));
    headers.push(header("Access-Control-Allow-Method", "*"));
    headers.push(header("Access-Control-Allow-Origin", "*"));
    let r = Response { status: 200, headers, body: String::new() };
    assert(headers_view(r.headers@) =~= seq![
        ("Access-Control-Allow-Headers"@, "*"@),
        ("Access-Control-Allow-Method"@, "*"@),
        ("Access-Control-Allow-Origin"@, "*"@),
    ]);
    r
}

/// A successful result: status 200, the CORS origin header, the JSON
/// content type, and the encoded result as body.
pub fn json_response(body: String) -> (r: Response)
    ensures
        r.status == 200,
        headers_view(r.headers@) == seq![
            ("Access-Control-Allow-Origin"@, "*"@),
            ("Content-Type"@, "application/json"@),
        ],
        r.body == body,
{
    let mut headers: Vec<(String, String)> = Vec::new();
    headers.push(header("Access-Control-Allow-Origin", "*"));
    headers.push(header("Content-Type", "application/json"));
    let r = Response { status: 200, headers, body };
    assert(headers_view(r.headers@) =~= seq![
        ("Access-Control-Allow-Origin"@, "*"@),
        ("Content-Type"@, "application/json"@),
    ]);
    r
}

/// A successful result that also sets a cookie: the CORS origin header,
/// `Set-Cookie`, the JSON content type.
fn json_response_with_cookie(body: String, set_cookie: String) -> (r: Response)
    ensures
        r.status == 200,
        headers_view(r.headers@) == seq![
            ("Access-Control-Allow-Origin"@, "*"@),
            ("Set-Cookie"@, set_cookie@),
            ("Content-Type"@, "application/json"@),
        ],
        r.body == body,
{
    let mut headers: Vec<(String, String)> = Vec::new();
    headers.push(header("Access-Control-Allow-Origin", "*"));
    headers.push(header("Set-Cookie", set_cookie.as_str()));
    headers.push(header("Content-Type", "application/json"));
    let r = Response { status: 200, headers, body };
    assert(headers_view(r.headers@) =~= seq![
        ("Access-Control-Allow-Origin"@, "*"@),
        ("Set-Cookie"@, set_cookie@),
        ("Content-Type"@, "application/json"@),
    ]);
    r
}

/// The answer to a login whose outcome `resp` was encoded as `body`: on
/// success the refresh token also goes out as an `HttpOnly` cookie.
pub fn login_response(body: String, resp: &LoginResp) -> (r: Response)
    ensures
        r.status == 200,
        r.body == body,
        match resp {
            LoginResp::Tokens(t) => headers_view(r.headers@) == seq![
                ("Access-Control-Allow-Origin"@, "*"@),
                ("Set-Cookie"@, REFRESH_TOKEN@ + "="@ + t.refresh_jwt@ + "; HttpOnly"@),
                ("Content-Type"@, "application/json"@),
            ],
            LoginResp::InvalidCredentials => headers_view(r.headers@) == seq![
                ("Access-Control-Allow-Origin"@, "*"@),
                ("Content-Type"@, "application/json"@),
            ],
        },
{
    match resp {
        LoginResp::Tokens(t) => json_response_with_cookie(body, refresh_cookie(REFRESH_TOKEN, t.refresh_jwt.as_str())),
        LoginResp::InvalidCredentials => json_response(body),
    }
}

/// The answer to a logout: the refresh cookie is overwritten with an empty
/// value that expires at once.
pub fn logout_response(body: String) -> (r: Response)
    ensures
        r.status == 200,
        r.body == body,
        headers_view(r.headers@) == seq![
            ("Access-Control-Allow-Origin"@, "*"@),
            ("Set-Cookie"@, REFRESH_TOKEN@ + "=; HttpOnly; Max-Age=0"@),
            ("Content-Type"@, "application/json"@),
        ],
{
    json_response_with_cookie(body, clearing_cookie(REFRESH_TOKEN))
}

/// The answer to a failed request: its status, the CORS origin header, no
/// body; the detail of the failure never reaches the client.
pub fn make_err_response(e: HandlerError) -> (r: Response)
    ensures
        r.status == e.status_code(),
        headers_view(r.headers@) == seq![("Access-Control-Allow-Origin"@, "*"@)],
        r.body@.len() == 0,
{
    let mut headers: Vec<(String, String)> = Vec::new();
    headers.push(header("Access-Control-Allow-Origin", "*"));
    let r = Response { status: e.status(), headers, body: String::new() };
    assert(headers_view(r.headers@) =~= seq![("Access-Control-Allow-Origin"@, "*"@)]);
    r
}

/// The answer to a request whose handler gave `outcome`: the encoded result,
/// or the failure's status with no body.
pub fn respond(outcome: Result<String, HandlerError>) -> (r: Response)
    ensures
        match outcome {
            Ok(body) => r.status == 200 && r.body == body && headers_view(r.headers@) == seq![
                ("Access-Control-Allow-Origin"@, "*"@),
                ("Content-Type"@, "application/json"@),
            ],
            Err(e) => r.status == e.status_code() && r.body@.len() == 0
                && headers_view(r.headers@) == seq![("Access-Control-Allow-Origin"@, "*"@)],
        },
{
    match outcome {
        Ok(body) => json_response(body),
        Err(e) => make_err_response(e),
    }
}

} // verus!
