//! Endpoint descriptors, the route table and request dispatch.

use vstd::prelude::*;

use crate::security::HttpSecurity;
use crate::text::str_equals;

verus! {

/// The request method, as far as dispatch tells methods apart.
#[derive(Clone, Copy, Debug, PartialEq, Eq, Structural)]
pub enum Method {
    Get,
    Post,
    Options,
    Other,
}

/// The API operations that endpoints are bound to.
#[derive(Clone, Copy, Debug, PartialEq, Eq, Structural)]
pub enum Operation {
    Healthy,
    Ping,
    Login,
    Refresh,
    Logout,
    NewMessage,
    RecentMessages,
    WhoAmI,
}

/// One API operation: method, static path, security level, and whether a
/// JSON request body is decoded for it.
#[derive(Clone, Debug)]
pub struct EndpointDescriptor {
    pub method: Method,
    pub path: String,
    pub security: HttpSecurity,
    pub has_body: bool,
    pub op: Operation,
}

impl EndpointDescriptor {
    pub open spec fn matches_spec(&self, method: Method, path: Seq<char>) -> bool {
        self.method == method && self.path@ == path
    }

    /// A POST endpoint, whose request body is decoded.
    pub fn post(path: &str, security: HttpSecurity, op: Operation) -> (r: EndpointDescriptor)
        ensures
            r.method == Method::Post,
            r.path@ == path@,
            r.security == security,
            r.has_body,
            r.op == op,
    {
        EndpointDescriptor { method: Method::Post, path: String::from_str(path), security, has_body: true, op }
    }

    /// A GET endpoint, with no request body.
    pub fn get(path: &str, security: HttpSecurity, op: Operation) -> (r: EndpointDescriptor)
        ensures
            r.method == Method::Get,
            r.path@ == path@,
            r.security == security,
            !r.has_body,
            r.op == op,
    {
        EndpointDescriptor { method: Method::Get, path: String::from_str(path), security, has_body: false, op }
    }

    /// Whether a request with this method and path is for this endpoint:
    /// equal method and equal path, no prefix or pattern matching.
    pub fn matches(&self, method: Method, path: &str) -> (r: bool)
        ensures
            r == self.matches_spec(method, path@),
    {
        self.method == method && str_equals(self.path.as_str(), path)
    }
}

/// Registering an endpoint whose method and path are already taken.
#[derive(Clone, Copy, Debug, PartialEq, Eq, Structural)]
pub struct DuplicateEndpoint;

/// The endpoints of the API, no two with the same method and path.
pub struct RouteTable {
    pub endpoints: Vec<EndpointDescriptor>,
}

/// Whether endpoint `i` is the first that a request for `method` and
/// `path` matches.
pub open spec fn first_match(endpoints: Seq<EndpointDescriptor>, method: Method, path: Seq<char>, i: int) -> bool {
    0 <= i < endpoints.len() && endpoints[i].matches_spec(method, path)
        && forall|j: int| 0 <= j < i ==> !(#[trigger] endpoints[j]).matches_spec(method, path)
}

/// The index of the endpoint that a request for `method` and `path` goes
/// to: the first that matches (in a well-formed table, the only one).
pub open spec fn match_index(endpoints: Seq<EndpointDescriptor>, method: Method, path: Seq<char>) -> Option<int> {
    if exists|i: int| first_match(endpoints, method, path, i) {
        Some(choose|i: int| first_match(endpoints, method, path, i))
    } else {
        None
    }
}

/// The first match is the only index that is a first match.
proof fn lemma_first_match_unique(endpoints: Seq<EndpointDescriptor>, method: Method, path: Seq<char>, i: int)
    requires
        first_match(endpoints, method, path, i),
    ensures
        match_index(endpoints, method, path) == Some(i),
{
    let k = choose|k: int| first_match(endpoints, method, path, k);
    assert(first_match(endpoints, method, path, k));
    if k < i {
        assert(!endpoints[k].matches_spec(method, path));
    } else if k > i {
        assert(!endpoints[i].matches_spec(method, path));
    }
}

impl RouteTable {
    /// No two endpoints share method and path.
    pub open spec fn wf(&self) -> bool {
        forall|i: int, j: int|
            0 <= i < self.endpoints@.len() && 0 <= j < self.endpoints@.len() && i != j
                ==> !(#[trigger] self.endpoints@[i]).matches_spec(
                (#[trigger] self.endpoints@[j]).method,
                self.endpoints@[j].path@,
            )
    }

    /// An empty table.
    pub fn new() -> (r: RouteTable)
        ensures
            r.wf(),
            r.endpoints@.len() == 0,
    {
        RouteTable { endpoints: Vec::new() }
    }

    /// Adds an endpoint, unless one with the same method and path is there.
    pub fn add(&mut self, d: EndpointDescriptor) -> (r: Result<(), DuplicateEndpoint>)
        requires
            old(self).wf(),
        ensures
            final(self).wf(),
            match r {
                Ok(()) => match_index(old(self).endpoints@, d.method, d.path@) is None
                    && final(self).endpoints@ == old(self).endpoints@.push(d),
                Err(_) => match_index(old(self).endpoints@, d.method, d.path@) is Some
                    && final(self).endpoints@ == old(self).endpoints@,
            },
    {
        match self.find(d.method, d.path.as_str()) {
            Some(_) => Err(DuplicateEndpoint),
            None => {
                let ghost before = self.endpoints@;
                self.endpoints.push(d);
                assert forall|i: int, j: int|
                    0 <= i < self.endpoints@.len() && 0 <= j < self.endpoints@.len() && i != j
                        implies !(#[trigger] self.endpoints@[i]).matches_spec(
                        (#[trigger] self.endpoints@[j]).method,
                        self.endpoints@[j].path@,
                    ) by {
                    if i == before.len() as int {
                        assert(!before[j].matches_spec(d.method, d.path@));
                    } else if j == before.len() as int {
                        assert(!before[i].matches_spec(d.method, d.path@));
                    }
                }
                Ok(())
            },
        }
    }

    /// The index of the endpoint whose method and path are the request's.
    pub fn find(&self, method: Method, path: &str) -> (r: Option<usize>)
        ensures
            match r {
                Some(i) => i < self.endpoints@.len() && self.endpoints@[i as int].matches_spec(method, path@)
                    && match_index(self.endpoints@, method, path@) == Some(i as int),
                None => match_index(self.endpoints@, method, path@) is None
                    && forall|k: int| 0 <= k < self.endpoints@.len() ==> !(#[trigger] self.endpoints@[k]).matches_spec(method, path@),
            },
    {
        let mut i: usize = 0;
        while i < self.endpoints.len()
            invariant
                i <= self.endpoints@.len(),
                forall|k: int| 0 <= k < i ==> !(#[trigger] self.endpoints@[k]).matches_spec(method, path@),
            decreases self.endpoints@.len() - i,
        {
            if self.endpoints[i].matches(method, path) {
                proof {
                    lemma_first_match_unique(self.endpoints@, method, path@, i as int);
                }
                return Some(i);
            }
            i = i + 1;
        }
        assert forall|k: int| !first_match(self.endpoints@, method, path@, k) by {
            if 0 <= k < self.endpoints@.len() {
                assert(!self.endpoints@[k].matches_spec(method, path@));
            }
        }
        None
    }
}

/// In a well-formed table, the endpoint a request matches is the only one
/// it matches, and the one it goes to.
pub proof fn lemma_match_unique(table: &RouteTable, method: Method, path: Seq<char>, i: int)
    requires
        table.wf(),
        0 <= i < table.endpoints@.len(),
        table.endpoints@[i].matches_spec(method, path),
    ensures
        match_index(table.endpoints@, method, path) == Some(i),
        forall|j: int| 0 <= j < table.endpoints@.len() && (#[trigger] table.endpoints@[j]).matches_spec(method, path) ==> j == i,
{
    let e = table.endpoints@;
    assert forall|j: int| 0 <= j < e.len() && (#[trigger] e[j]).matches_spec(method, path) implies j == i by {
        if j != i {
            assert(!e[j].matches_spec(e[i].method, e[i].path@));
        }
    }
    lemma_first_match_unique(e, method, path, i);
}

/// A request goes to endpoint `d` of a well-formed table exactly when its
/// method and path are `d`'s; at most one endpoint matches.
pub proof fn lemma_match_iff(table: &RouteTable, method: Method, path: Seq<char>, i: int)
    requires
        table.wf(),
        0 <= i < table.endpoints@.len(),
    ensures
        (match_index(table.endpoints@, method, path) == Some(i)) <==> (
            table.endpoints@[i].method == method && table.endpoints@[i].path@ == path),
{
    if table.endpoints@[i].matches_spec(method, path) {
        lemma_match_unique(table, method, path, i);
    } else if match_index(table.endpoints@, method, path) == Some(i) {
        let e = table.endpoints@;
        let k = choose|k: int| first_match(e, method, path, k);
        assert(first_match(e, method, path, k));
    }
}

/// The endpoints of this API, in the order they are tried: health check,
/// ping, login, refresh and logout are public; creating and listing
/// messages and the identity endpoint need an access token.
pub fn api_routes() -> (r: RouteTable)
    ensures
        r.wf(),
        r.endpoints@.len() == 8,
        r.endpoints@[0].method == Method::Get && r.endpoints@[0].path@ == "/healthy"@
            && r.endpoints@[0].security == HttpSecurity::Public && !r.endpoints@[0].has_body
            && r.endpoints@[0].op == Operation::Healthy,
        r.endpoints@[1].method == Method::Post && r.endpoints@[1].path@ == "/ping"@
            && r.endpoints@[1].security == HttpSecurity::Public && r.endpoints@[1].has_body
            && r.endpoints@[1].op == Operation::Ping,
        r.endpoints@[2].method == Method::Post && r.endpoints@[2].path@ == "/login"@
            && r.endpoints@[2].security == HttpSecurity::Public && r.endpoints@[2].has_body
            && r.endpoints@[2].op == Operation::Login,
        r.endpoints@[3].method == Method::Post && r.endpoints@[3].path@ == "/refresh"@
            && r.endpoints@[3].security == HttpSecurity::Public && r.endpoints@[3].has_body
            && r.endpoints@[3].op == Operation::Refresh,
        r.endpoints@[4].method == Method::Post && r.endpoints@[4].path@ == "/logout"@
            && r.endpoints@[4].security == HttpSecurity::Public && r.endpoints@[4].has_body
            && r.endpoints@[4].op == Operation::Logout,
        r.endpoints@[5].method == Method::Post && r.endpoints@[5].path@ == "/messages/new"@
            && r.endpoints@[5].security == HttpSecurity::Token && r.endpoints@[5].has_body
            && r.endpoints@[5].op == Operation::NewMessage,
        r.endpoints@[6].method == Method::Post && r.endpoints@[6].path@ == "/messages/recent"@
            && r.endpoints@[6].security == HttpSecurity::Token && r.endpoints@[6].has_body
            && r.endpoints@[6].op == Operation::RecentMessages,
        r.endpoints@[7].method == Method::Get && r.endpoints@[7].path@ == "/whoami"@
            && r.endpoints@[7].security == HttpSecurity::Token && !r.endpoints@[7].has_body
            && r.endpoints@[7].op == Operation::WhoAmI,
{
    let mut endpoints: Vec<EndpointDescriptor> = Vec::new();
    endpoints.push(EndpointDescriptor::get("/healthy", HttpSecurity::Public, Operation::Healthy));
    endpoints.push(EndpointDescriptor::post("/ping", HttpSecurity::Public, Operation::Ping));
    endpoints.push(EndpointDescriptor::post("/login", HttpSecurity::Public, Operation::Login));
    endpoints.push(EndpointDescriptor::post("/refresh", HttpSecurity::Public, Operation::Refresh));
    endpoints.push(EndpointDescriptor::post("/logout", HttpSecurity::Public, Operation::Logout));
    endpoints.push(EndpointDescriptor::post("/messages/new", HttpSecurity::Token, Operation::NewMessage));
    endpoints.push(EndpointDescriptor::post("/messages/recent", HttpSecurity::Token, Operation::RecentMessages));
    endpoints.push(EndpointDescriptor::get("/whoami", HttpSecurity::Token, Operation::WhoAmI));
    let r = RouteTable { endpoints };
    proof {
        reveal_strlit("/healthy");
        reveal_strlit("/ping");
        reveal_strlit("/login");
        reveal_strlit("/refresh");
        reveal_strlit("/logout");
        reveal_strlit("/messages/new");
        reveal_strlit("/messages/recent");
        reveal_strlit("/whoami");
        let e = r.endpoints@;
        assert(e[0].path@.len() == 8);
        assert(e[1].path@.len() == 5);
        assert(e[2].path@.len() == 6);
        assert(e[3].path@.len() == 8);
        assert(e[4].path@.len() == 7);
        assert(e[5].path@.len() == 13);
        assert(e[6].path@.len() == 16);
        assert(e[7].path@.len() == 7);
        assert forall|i: int, j: int|
            0 <= i < e.len() && 0 <= j < e.len() && i != j
                implies !(#[trigger] e[i]).matches_spec((#[trigger] e[j]).method, e[j].path@) by {
            if e[i].method == e[j].method {
                assert(e[i].path@.len() != e[j].path@.len());
            }
        }
    }
    r
}

} // verus!
