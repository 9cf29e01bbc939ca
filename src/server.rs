use std::sync::Arc;

use vstd::prelude::*;

use crate::request::{request_parts, HttpRequest};
use crate::response::{response_bytes, HttpResponse};
use crate::router::{HttpMethod, Router};
use crate::status::StatusCode;
use crate::text::lossy_text;

verus! {

/// What a connection task does with the bytes that it read.
pub enum Action {
    /// The peer closed before sending anything: close without writing.
    Close,
    /// Write these bytes, then close.
    Reply(Vec<u8>),
    /// Run the handler of the route at this index on the request, write the
    /// bytes of its response, then close.
    Dispatch(usize, HttpRequest),
}

/// `action` is what a connection owes to `raw` under the routes `table`:
/// nothing for an empty read, `400` for bytes that are no request, the
/// matching route where one is registered for exactly the request's path
/// and method, and `404` otherwise.
pub open spec fn action_for(table: Seq<(Seq<char>, HttpMethod)>, raw: Seq<u8>, action: Action) -> bool {
    if raw.len() == 0 {
        action is Close
    } else {
        match request_parts(raw) {
            Err(_) => action matches Action::Reply(b) && b@ == response_bytes(400, Seq::empty()),
            Ok(parts) => if table.contains((lossy_text(parts.1), parts.0)) {
                action matches Action::Dispatch(i, req) && i < table.len() && table[i as int] == (
                    lossy_text(parts.1),
                    parts.0,
                ) && req.made_of(parts)
            } else {
                action matches Action::Reply(b) && b@ == response_bytes(404, Seq::empty())
            },
        }
    }
}

/// Two actions that no client could tell apart: the same bytes written, or
/// the same route run on requests that agree in every part.
pub open spec fn same_action(a: Action, b: Action) -> bool {
    match (a, b) {
        (Action::Close, Action::Close) => true,
        (Action::Reply(x), Action::Reply(y)) => x@ == y@,
        (Action::Dispatch(i, p), Action::Dispatch(j, q)) => {
            &&& i == j
            &&& p.spec_method() == q.spec_method()
            &&& p.spec_path() == q.spec_path()
            &&& p.spec_version() == q.spec_version()
            &&& p.spec_headers() == q.spec_headers()
            &&& p.spec_body() == q.spec_body()
        },
        _ => false,
    }
}

/// The same bytes sent twice to the same routes are treated the same way
/// both times; with a handler whose response depends on the request alone,
/// the two responses then carry the same status and body, and
/// `HttpResponse::to_bytes` writes the same bytes for both.
pub proof fn lemma_identical_bytes_identical_action(
    table: Seq<(Seq<char>, HttpMethod)>,
    raw: Seq<u8>,
    first: Action,
    second: Action,
)
    requires
        table.no_duplicates(),
        action_for(table, raw, first),
        action_for(table, raw, second),
    ensures
        same_action(first, second),
{
}

impl<F> Router<F> {
    /// Decides what a connection does with the bytes `raw` that it read.
    pub fn dispatch(&self, raw: &[u8]) -> (r: Action)
        ensures
            action_for(self.table(), raw@, r),
    {
        if raw.len() == 0 {
            return Action::Close;
        }
        match HttpRequest::parse(raw) {
            Err(_) => Action::Reply(HttpResponse::status_code(StatusCode::bad_request()).to_bytes()),
            Ok(req) => match self.lookup(req.path(), req.method()) {
                Some(i) => Action::Dispatch(i, req),
                None => Action::Reply(HttpResponse::status_code(StatusCode::not_found()).to_bytes()),
            },
        }
    }
}

/// A server: where it listens, and the routes that it serves.
pub struct Server<F> {
    ip_addr: String,
    port: u16,
    router: Arc<Router<F>>,
}

impl<F> Server<F> {
    pub closed spec fn spec_ip_addr(self) -> Seq<char> {
        self.ip_addr@
    }

    pub closed spec fn spec_port(self) -> u16 {
        self.port
    }

    pub closed spec fn spec_router(self) -> Router<F> {
        *self.router
    }

    /// A server that will listen on `ip_addr:port` and serve `router`.
    pub fn new(ip_addr: String, port: u16, router: Router<F>) -> (r: Server<F>)
        ensures
            r.spec_ip_addr() == ip_addr@,
            r.spec_port() == port,
            r.spec_router() == router,
    {
        let router = Arc::new(router);
        Server { ip_addr, port, router }
    }

    pub fn ip_addr(&self) -> (r: &str)
        ensures
            r@ == self.spec_ip_addr(),
    {
        self.ip_addr.as_str()
    }

    pub fn port(&self) -> (r: u16)
        ensures
            r == self.spec_port(),
    {
        self.port
    }

    /// The routes, shared with every connection task.
    pub fn router(&self) -> (r: &Arc<Router<F>>)
        ensures
            **r == self.spec_router(),
    {
        &self.router
    }
}

} // verus!
