//! The responder: a fixed listening address, one route (`GET /`) and one
//! constant response, and the startup decision after the bind.
use vstd::prelude::*;
use vstd::string::StrSliceExecFns;
use vstd::string::StringExecFns;

verus! {

/// An HTTP request method.
#[derive(Clone, Copy, Debug, PartialEq, Eq, Structural)]
pub enum Method {
    Get,
    Head,
    Post,
    Put,
    Delete,
    Patch,
    Options,
    Connect,
    Trace,
    /// Any method not named above.
    Other,
}

/// What the routing reads of a request: its method and its path.
pub struct Request {
    pub method: Method,
    pub path: String,
}

/// The mathematical value of a request.
pub struct RequestView {
    pub method: Method,
    pub path: Seq<char>,
}

impl View for Request {
    type V = RequestView;

    open spec fn view(&self) -> RequestView {
        RequestView { method: self.method, path: self.path@ }
    }
}

/// A response: a status code and a text body.
pub struct Response {
    pub status: u16,
    pub body: String,
}

/// The mathematical value of a response.
pub struct ResponseView {
    pub status: u16,
    pub body: Seq<char>,
}

impl View for Response {
    type V = ResponseView;

    open spec fn view(&self) -> ResponseView {
        ResponseView { status: self.status, body: self.body@ }
    }
}

/// A route: a method and a path.
pub struct Route {
    pub method: Method,
    pub path: String,
}

/// Where the responder listens: an IPv4 address and a port.
#[derive(Clone, Copy, Debug, PartialEq, Eq)]
pub struct ServerConfig {
    pub address: [u8; 4],
    pub port: u16,
}

/// The loopback address, 127.0.0.1.
pub open spec fn loopback() -> Seq<u8> {
    seq![127u8, 0u8, 0u8, 1u8]
}

/// The port the responder listens on.
pub const PORT: u16 = 3000;

impl ServerConfig {
    /// The fixed listening address: 127.0.0.1, port 3000.
    pub fn fixed() -> (r: ServerConfig)
        ensures
            r.address@ == loopback(),
            r.port == 3000,
    {
        let r = ServerConfig { address: [127u8, 0u8, 0u8, 1u8], port: PORT };
        assert(r.address@ =~= loopback());
        r
    }
}

/// What startup does once the bind has been tried.
#[derive(Clone, Copy, Debug, PartialEq, Eq, Structural)]
pub enum Startup {
    /// The socket is held: serve requests on it.
    Serve,
    /// The bind failed: end the process at once, with no retry and no other port.
    Terminate,
}

/// The startup decision: serve when the bind succeeded, else terminate.
pub fn after_bind(bound: bool) -> (r: Startup)
    ensures
        r == Startup::Serve <==> bound,
        r == Startup::Terminate <==> !bound,
{
    if bound {
        Startup::Serve
    } else {
        Startup::Terminate
    }
}

/// The path of the one route.
pub open spec fn root_path() -> Seq<char> {
    seq!['/']
}

/// The body served on the one route.
pub open spec fn greeting_body() -> Seq<char> {
    seq![
        'H', 'e', 'l', 'l', 'o', ' ', 'f', 'r', 'i', 'e', 'n', 'd', ' ', 'f', 'r', 'o', 'm', ' ',
        'A', 'x', 'u', 'm', '.',
    ]
}

/// The response on the one route: status 200 and the greeting body.
pub open spec fn greeting_response() -> ResponseView {
    ResponseView { status: 200, body: greeting_body() }
}

/// Whether a request falls on the one route: a GET to `/`.
pub open spec fn is_root_get(req: RequestView) -> bool {
    req.method == Method::Get && req.path == root_path()
}

/// What the responder answers: the greeting on the one route, and nothing of
/// its own elsewhere (the framework's default behaviour then applies).
pub open spec fn serve(req: RequestView) -> Option<ResponseView> {
    if is_root_get(req) {
        Some(greeting_response())
    } else {
        None
    }
}

/// The route that the responder defines: GET on `/`.
pub fn root_route() -> (r: Route)
    ensures
        r.method == Method::Get,
        r.path@ == root_path(),
{
    proof {
        reveal_strlit("/");
    }
    let path = String::from_str("/");
    assert(path@ =~= root_path());
    Route { method: Method::Get, path }
}

/// The handler of the one route: it cannot fail and reads nothing.
pub fn root_response() -> (r: Response)
    ensures
        r@ == greeting_response(),
{
    proof {
        reveal_strlit("Hello friend from Axum.");
    }
    let body = String::from_str("Hello friend from Axum.");
    assert(body@ =~= greeting_body());
    Response { status: 200, body }
}

impl Route {
    /// Whether a request has this route's method and exactly this route's path.
    pub fn matches(&self, req: &Request) -> (r: bool)
        ensures
            r <==> (req.method == self.method && req.path@ == self.path@),
    {
        if req.method != self.method {
            return false;
        }
        let a = req.path.as_str();
        let b = self.path.as_str();
        let n = a.unicode_len();
        if n != b.unicode_len() {
            return false;
        }
        let mut i: usize = 0;
        while i < n
            invariant
                n == a@.len(),
                n == b@.len(),
                a@ == req.path@,
                b@ == self.path@,
                i <= n,
                forall|j: int| 0 <= j < i ==> a@[j] == b@[j],
            decreases n - i,
        {
            if a.get_char(i) != b.get_char(i) {
                return false;
            }
            i = i + 1;
        }
        assert(a@ =~= b@);
        true
    }
}

/// Answers a request: `Some` with the greeting exactly on `GET /`, `None` on
/// every other method or path.
pub fn respond(req: &Request) -> (r: Option<Response>)
    ensures
        r.is_some() <==> is_root_get(req@),
        r.is_some() ==> r.unwrap()@ == greeting_response(),
        r.is_some() ==> Some(r.unwrap()@) == serve(req@),
        r.is_none() ==> serve(req@).is_none(),
{
    let route = root_route();
    if route.matches(req) {
        Some(root_response())
    } else {
        None
    }
}

/// `GET /` is answered with status 200 and the greeting body, each time it is
/// asked: the answer depends on the request alone.
pub proof fn lemma_root_always_greets(req: RequestView)
    requires
        req.method == Method::Get,
        req.path == root_path(),
    ensures
        serve(req) == Some(greeting_response()),
        serve(req).unwrap().status == 200,
        serve(req).unwrap().body == greeting_body(),
{
}

/// A request with another path, or another method on `/`, does not fall on
/// the route: the responder gives no answer of its own.
pub proof fn lemma_other_requests_unmatched(req: RequestView)
    requires
        req.method != Method::Get || req.path != root_path(),
    ensures
        serve(req).is_none(),
{
}

} // verus!
