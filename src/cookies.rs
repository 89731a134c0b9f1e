//! Reading a named cookie from a `Cookie` header, and writing the
//! `Set-Cookie` values that deliver and clear the refresh token.

use vstd::prelude::*;

use crate::jwt::{opt_str_view, opt_string_view};
use crate::text::str_equals;

verus! {

pub open spec fn pairs_view(v: Seq<(String, String)>) -> Seq<(Seq<char>, Seq<char>)> {
    v.map_values(|p: (String, String)| (p.0@, p.1@))
}

/// The name and value of each well-formed cookie of a `Cookie` header
/// value, in order, as the cookie crate parses them without decoding.
pub uninterp spec fn parsed_cookies_of(header: Seq<char>) -> Seq<(Seq<char>, Seq<char>)>;

/// Relies on `cookie::Cookie::split_parse`: it cuts the header at `;` and
/// parses each piece as `name=value`; the pieces that fail to parse are
/// left out. The result depends on the header text alone.
#[verifier::external_body]
fn parse_cookie_pairs(header: &str) -> (r: Vec<(String, String)>)
    ensures
        pairs_view(r@) == parsed_cookies_of(header@),
{
    cookie::Cookie::split_parse(header)
        .filter_map(|c| c.ok())
        .map(|c| (c.name().to_string(), c.value().to_string()))
        .collect()
}

/// Relies on `cookie::Cookie::build` with `http_only(true)` and its
/// `Display`, which writes `name=value` and then `; HttpOnly`.
#[verifier::external_body]
fn http_only_cookie(name: &str, value: &str) -> (r: String)
    ensures
        r@ == name@ + "="@ + value@ + "; HttpOnly"@,
{
    cookie::Cookie::build((name.to_string(), value.to_string())).http_only(true).to_string()
}

/// Relies on `cookie::Cookie::build` with an empty value, `max_age` of zero
/// seconds and `http_only(true)`, and its `Display`, which writes
/// `name=`, then `; HttpOnly`, then `; Max-Age=0`.
#[verifier::external_body]
fn expired_http_only_cookie(name: &str) -> (r: String)
    ensures
        r@ == name@ + "=; HttpOnly; Max-Age=0"@,
{
    cookie::Cookie::build((name.to_string(), String::new()))
        .max_age(time::Duration::seconds(0))
        .http_only(true)
        .to_string()
}

/// The value of the first pair named `name`.
pub open spec fn first_value_named(pairs: Seq<(Seq<char>, Seq<char>)>, name: Seq<char>) -> Option<Seq<char>>
    decreases pairs.len(),
{
    if pairs.len() == 0 {
        None
    } else if pairs[0].0 == name {
        Some(pairs[0].1)
    } else {
        first_value_named(pairs.drop_first(), name)
    }
}

/// The value of the cookie named `name` in a `Cookie` header value.
pub open spec fn cookie_value_of(header: Option<Seq<char>>, name: Seq<char>) -> Option<Seq<char>> {
    match header {
        Some(h) => first_value_named(parsed_cookies_of(h), name),
        None => None,
    }
}

/// The value of the first well-formed cookie named `name` in the request's
/// `Cookie` header, if there is such a header and such a cookie.
pub fn get_cookie(cookie_header: Option<&str>, name: &str) -> (r: Option<String>)
    ensures
        opt_string_view(r) == cookie_value_of(opt_str_view(cookie_header), name@),
{
    match cookie_header {
        Some(h) => cookie_named(h, name),
        None => None,
    }
}

/// The value of the first well-formed cookie named `name` in a `Cookie`
/// header value.
pub fn cookie_named(header: &str, name: &str) -> (r: Option<String>)
    ensures
        opt_string_view(r) == first_value_named(parsed_cookies_of(header@), name@),
{
    let pairs = parse_cookie_pairs(header);
    first_value(&pairs, name)
}

/// The value of the first pair named `name`, in order.
pub fn first_value(pairs: &Vec<(String, String)>, name: &str) -> (r: Option<String>)
    ensures
        opt_string_view(r) == first_value_named(pairs_view(pairs@), name@),
{
    let ghost pv = pairs_view(pairs@);
    let mut i: usize = 0;
    assert(pv.skip(0) == pv);
    while i < pairs.len()
        invariant
            pv == pairs_view(pairs@),
            i <= pairs@.len(),
            first_value_named(pv, name@) == first_value_named(pv.skip(i as int), name@),
        decreases pairs@.len() - i,
    {
        let ghost rest = pv.skip(i as int);
        assert(rest[0] == pv[i as int]);
        assert(pv[i as int] == (pairs@[i as int].0@, pairs@[i as int].1@));
        if str_equals(pairs[i].0.as_str(), name) {
            let v = pairs[i].1.clone();
            assert(v@ == pairs@[i as int].1@);
            assert(opt_string_view(Some(v)) == Some(rest[0].1));
            assert(first_value_named(rest, name@) == Some(rest[0].1));
            return Some(v);
        }
        assert(rest.drop_first() == pv.skip(i + 1));
        i = i + 1;
    }
    assert(pv.skip(i as int).len() == 0);
    None
}

/// The `Set-Cookie` value that hands a client its refresh token: readable
/// by the server only (`HttpOnly`).
pub fn refresh_cookie(name: &str, refresh_jwt: &str) -> (r: String)
    ensures
        r@ == name@ + "="@ + refresh_jwt@ + "; HttpOnly"@,
{
    http_only_cookie(name, refresh_jwt)
}

/// The `Set-Cookie` value that clears the refresh token: an empty value
/// that expires at once.
pub fn clearing_cookie(name: &str) -> (r: String)
    ensures
        r@ == name@ + "=; HttpOnly; Max-Age=0"@,
{
    expired_http_only_cookie(name)
}

} // verus!
