//! Routing of method and path to a handler, the fixed response bodies of the
//! handlers other than the operation endpoint, and the CORS headers that every
//! response carries.

use vstd::prelude::*;
use crate::json::{bool_text, member, object, quoted, string_array, write_string_array, ObjectWriter, quote};

verus! {

/// The handler that serves a request.
#[derive(PartialEq, Eq, Structural, Clone, Copy, Debug)]
pub enum Route {
    /// `GET /`: the health envelope.
    Root,
    /// `GET /health`: the health envelope.
    Health,
    /// `POST /zkp`: the operation dispatcher.
    Operations,
    /// `OPTIONS /zkp`: the CORS preflight acknowledgment; no operation runs.
    Preflight,
    /// Anything else: 404 with the list of endpoints.
    NotFound,
}

pub open spec fn spec_resolve(method: Seq<char>, path: Seq<char>) -> Route {
    if method == "GET"@ && path == "/"@ {
        Route::Root
    } else if method == "GET"@ && path == "/health"@ {
        Route::Health
    } else if method == "POST"@ && path == "/zkp"@ {
        Route::Operations
    } else if method == "OPTIONS"@ && path == "/zkp"@ {
        Route::Preflight
    } else {
        Route::NotFound
    }
}

fn same_text(a: &str, b: &str) -> (r: bool)
    ensures
        r == (a@ == b@),
{
    String::from_str(a) == String::from_str(b)
}

/// The route for a request with this method and path.
pub fn resolve(method: &str, path: &str) -> (r: Route)
    ensures
        r == spec_resolve(method@, path@),
{
    if same_text(method, "GET") && same_text(path, "/") {
        Route::Root
    } else if same_text(method, "GET") && same_text(path, "/health") {
        Route::Health
    } else if same_text(method, "POST") && same_text(path, "/zkp") {
        Route::Operations
    } else if same_text(method, "OPTIONS") && same_text(path, "/zkp") {
        Route::Preflight
    } else {
        Route::NotFound
    }
}

impl Route {
    /// The status of the route, where it does not depend on the request body:
    /// 200 for the health and preflight handlers, 404 for an unknown route.
    pub open spec fn spec_fixed_status(&self) -> Option<u16> {
        match *self {
            Route::Operations => None,
            Route::NotFound => Some(404u16),
            _ => Some(200u16),
        }
    }

    pub fn fixed_status(&self) -> (r: Option<u16>)
        ensures
            r == self.spec_fixed_status(),
    {
        match *self {
            Route::Operations => None,
            Route::NotFound => Some(404),
            _ => Some(200),
        }
    }
}

/// The endpoints that the service offers, as listed in its bodies.
pub open spec fn endpoint_list() -> Seq<Seq<char>> {
    seq!["GET /"@, "GET /health"@, "POST /zkp"@, "OPTIONS /zkp"@]
}

/// The error of the 404 body.
pub open spec fn not_found_text() -> Seq<char> {
    "Endpoint not found. Available endpoints: GET /, GET /health, POST /zkp, OPTIONS /zkp"@
}

/// The 404 body at `timestamp`.
pub open spec fn not_found_json(timestamp: Seq<char>) -> Seq<char> {
    object(seq![
        member("success"@, bool_text(false)),
        member("error"@, quoted(not_found_text())),
        member("timestamp"@, quoted(timestamp)),
    ])
}

/// The health envelope at `timestamp`.
pub open spec fn health_json(timestamp: Seq<char>) -> Seq<char> {
    object(seq![
        member("status"@, quoted("healthy"@)),
        member("service"@, quoted("spartan-zkp"@)),
        member("version"@, quoted("0.1.0"@)),
        member("timestamp"@, quoted(timestamp)),
        member("uptime"@, quoted("online"@)),
        member("endpoints"@, string_array(endpoint_list())),
    ])
}

/// The preflight acknowledgment, keys in sorted order.
pub open spec fn preflight_json() -> Seq<char> {
    object(seq![
        member("allowed_headers"@, string_array(seq!["Content-Type"@, "Authorization"@])),
        member("allowed_methods"@, string_array(seq!["GET"@, "POST"@, "OPTIONS"@])),
        member("message"@, quoted("CORS preflight successful"@)),
    ])
}

/// The 404 body, with the time of the request.
pub fn not_found_body(timestamp: &str) -> (r: String)
    ensures
        r@ == not_found_json(timestamp@),
{
    let mut w = ObjectWriter::new();
    let f = String::from_str("false");
    proof {
        reveal_strlit("false");
        assert(f@ =~= bool_text(false));
    }
    w.member("success", f.as_str());
    let e = quote("Endpoint not found. Available endpoints: GET /, GET /health, POST /zkp, OPTIONS /zkp");
    w.member("error", e.as_str());
    let t = quote(timestamp);
    w.member("timestamp", t.as_str());
    proof {
        assert(w.members() =~= seq![
            member("success"@, bool_text(false)),
            member("error"@, quoted(not_found_text())),
            member("timestamp"@, quoted(timestamp@)),
        ]);
    }
    w.finish()
}

/// The health envelope served at `/` and `/health`, with the current time.
pub fn health_body(timestamp: &str) -> (r: String)
    ensures
        r@ == health_json(timestamp@),
{
    let mut w = ObjectWriter::new();
    let s = quote("healthy");
    w.member("status", s.as_str());
    let n = quote("spartan-zkp");
    w.member("service", n.as_str());
    let v = quote("0.1.0");
    w.member("version", v.as_str());
    let t = quote(timestamp);
    w.member("timestamp", t.as_str());
    let u = quote("online");
    w.member("uptime", u.as_str());
    let mut items: Vec<String> = Vec::new();
    items.push(String::from_str("GET /"));
    items.push(String::from_str("GET /health"));
    items.push(String::from_str("POST /zkp"));
    items.push(String::from_str("OPTIONS /zkp"));
    proof {
        assert(items@.map_values(|t: String| t@) =~= endpoint_list());
    }
    let e = write_string_array(&items);
    w.member("endpoints", e.as_str());
    proof {
        assert(w.members() =~= seq![
            member("status"@, quoted("healthy"@)),
            member("service"@, quoted("spartan-zkp"@)),
            member("version"@, quoted("0.1.0"@)),
            member("timestamp"@, quoted(timestamp@)),
            member("uptime"@, quoted("online"@)),
            member("endpoints"@, string_array(endpoint_list())),
        ]);
    }
    w.finish()
}

/// The body of the preflight acknowledgment.
pub fn preflight_body() -> (r: String)
    ensures
        r@ == preflight_json(),
{
    let mut w = ObjectWriter::new();
    let mut hs: Vec<String> = Vec::new();
    hs.push(String::from_str("Content-Type"));
    hs.push(String::from_str("Authorization"));
    proof {
        assert(hs@.map_values(|t: String| t@) =~= seq!["Content-Type"@, "Authorization"@]);
    }
    let h = write_string_array(&hs);
    w.member("allowed_headers", h.as_str());
    let mut ms: Vec<String> = Vec::new();
    ms.push(String::from_str("GET"));
    ms.push(String::from_str("POST"));
    ms.push(String::from_str("OPTIONS"));
    proof {
        assert(ms@.map_values(|t: String| t@) =~= seq!["GET"@, "POST"@, "OPTIONS"@]);
    }
    let m = write_string_array(&ms);
    w.member("allowed_methods", m.as_str());
    let g = quote("CORS preflight successful");
    w.member("message", g.as_str());
    proof {
        assert(w.members() =~= seq![
            member("allowed_headers"@, string_array(seq!["Content-Type"@, "Authorization"@])),
            member("allowed_methods"@, string_array(seq!["GET"@, "POST"@, "OPTIONS"@])),
            member("message"@, quoted("CORS preflight successful"@)),
        ]);
    }
    w.finish()
}

/// The headers that every response carries: permissive CORS and a JSON body.
pub open spec fn common_headers() -> Seq<(Seq<char>, Seq<char>)> {
    seq![
        ("Access-Control-Allow-Origin"@, "*"@),
        ("Access-Control-Allow-Methods"@, "GET, POST, OPTIONS"@),
        ("Access-Control-Allow-Headers"@, "Content-Type, Authorization"@),
        ("Content-Type"@, "application/json"@),
    ]
}

/// The headers for a response of `route`: the common ones, and for the
/// preflight acknowledgment also `Access-Control-Max-Age: 86400`.
pub open spec fn route_headers(route: Route) -> Seq<(Seq<char>, Seq<char>)> {
    if route == Route::Preflight {
        common_headers().insert(3, ("Access-Control-Max-Age"@, "86400"@))
    } else {
        common_headers()
    }
}

fn header(name: &str, value: &str) -> (r: (String, String))
    ensures
        r.0@ == name@,
        r.1@ == value@,
{
    (String::from_str(name), String::from_str(value))
}

/// The headers to send with a response of `route`, in order.
pub fn headers(route: Route) -> (r: Vec<(String, String)>)
    ensures
        r@.map_values(|h: (String, String)| (h.0@, h.1@)) == route_headers(route),
{
    let mut r: Vec<(String, String)> = Vec::new();
    r.push(header("Access-Control-Allow-Origin", "*"));
    r.push(header("Access-Control-Allow-Methods", "GET, POST, OPTIONS"));
    r.push(header("Access-Control-Allow-Headers", "Content-Type, Authorization"));
    if route == Route::Preflight {
        r.push(header("Access-Control-Max-Age", "86400"));
    }
    r.push(header("Content-Type", "application/json"));
    proof {
        assert(r@.map_values(|h: (String, String)| (h.0@, h.1@)) =~= route_headers(route));
    }
    r
}

} // verus!
