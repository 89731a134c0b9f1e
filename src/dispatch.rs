//! Dispatch of a request: CORS preflight, endpoint selection and the
//! security gate, before any body is read.

use vstd::prelude::*;

use crate::error::HandlerError;
use crate::jwt::{opt_str_view, AccessClaims};
use crate::routes::{match_index, Method, Operation, RouteTable};
use crate::security::{check_auth, evaluation, opt_claims_view, ServerConfig};

verus! {

/// Whether every response carries permissive CORS headers and `OPTIONS`
/// requests are answered directly.
pub const ALLOW_CORS: bool = true;

/// What to do with a request once its method, path and `Authorization`
/// header are known.
#[derive(Clone, Debug)]
pub enum Dispatch {
    /// Answer the CORS preflight directly.
    Preflight,
    /// Answer with this failure, without reading the body.
    Fail(HandlerError),
    /// Run the endpoint at `index`: decode the body where `has_body`, then
    /// call the handler of `op` with `claims`.
    Admitted { index: usize, op: Operation, has_body: bool, claims: Option<AccessClaims> },
}

/// Selects and guards the endpoint for a request. With CORS on, `OPTIONS`
/// is a preflight on any path. Otherwise a request that matches no endpoint
/// fails with `NotFound`; one that its endpoint's security level refuses
/// fails with `Forbidden`; else it is admitted with the level's claims.
pub fn dispatch(
    table: &RouteTable,
    allow_cors: bool,
    cfg: &ServerConfig,
    method: Method,
    path: &str,
    auth_header: Option<&str>,
    now: u64,
) -> (r: Dispatch)
    ensures
        allow_cors && method == Method::Options ==> r is Preflight,
        !(allow_cors && method == Method::Options) ==> match match_index(table.endpoints@, method, path@) {
            None => r == Dispatch::Fail(HandlerError::NotFound),
            Some(i) => match evaluation(cfg.jwt_access_secret@, table.endpoints@[i].security, opt_str_view(auth_header), now) {
                None => r == Dispatch::Fail(HandlerError::Forbidden),
                Some(c) => r matches Dispatch::Admitted { index, op, has_body, claims }
                    && index == i && op == table.endpoints@[i].op
                    && has_body == table.endpoints@[i].has_body
                    && opt_claims_view(claims) == c,
            },
        },
{
    if allow_cors && method == Method::Options {
        return Dispatch::Preflight;
    }
    match table.find(method, path) {
        None => Dispatch::Fail(HandlerError::NotFound),
        Some(i) => {
            let d = &table.endpoints[i];
            match check_auth(cfg, &d.security, auth_header, now) {
                Ok(claims) => Dispatch::Admitted { index: i, op: d.op, has_body: d.has_body, claims },
                Err(e) => Dispatch::Fail(e),
            }
        },
    }
}

} // verus!
