use vstd::prelude::*;

use crate::bytes::bytes_eq;

verus! {

/// The request methods that a route can be bound to.
#[derive(Clone, Copy, Debug, PartialEq, Eq, Structural)]
pub enum HttpMethod {
    Get,
    Post,
    Put,
    Delete,
    Patch,
    Head,
    Options,
    Trace,
    Connect,
}

impl HttpMethod {
    /// The token that names the method on the wire.
    pub open spec fn token(self) -> Seq<u8> {
        match self {
            HttpMethod::Get => seq![71u8, 69, 84],
            HttpMethod::Post => seq![80u8, 79, 83, 84],
            HttpMethod::Put => seq![80u8, 85, 84],
            HttpMethod::Delete => seq![68u8, 69, 76, 69, 84, 69],
            HttpMethod::Patch => seq![80u8, 65, 84, 67, 72],
            HttpMethod::Head => seq![72u8, 69, 65, 68],
            HttpMethod::Options => seq![79u8, 80, 84, 73, 79, 78, 83],
            HttpMethod::Trace => seq![84u8, 82, 65, 67, 69],
            HttpMethod::Connect => seq![67u8, 79, 78, 78, 69, 67, 84],
        }
    }

    /// The method whose token is `t`, if any.
    pub open spec fn of_token(t: Seq<u8>) -> Option<HttpMethod> {
        if exists|m: HttpMethod| m.token() == t {
            Some(choose|m: HttpMethod| m.token() == t)
        } else {
            None
        }
    }

    /// Reads a method token; `None` for a token outside the nine methods.
    pub fn from_token(t: &[u8]) -> (r: Option<HttpMethod>)
        ensures
            r == HttpMethod::of_token(t@),
    {
        proof {
            lemma_tokens_distinct();
        }
        let w: [u8; 3] = [71u8, 69, 84];
        assert(w@ =~= HttpMethod::Get.token());
        if bytes_eq(t, &w) {
            return Some(HttpMethod::Get);
        }
        let w: [u8; 4] = [80u8, 79, 83, 84];
        assert(w@ =~= HttpMethod::Post.token());
        if bytes_eq(t, &w) {
            return Some(HttpMethod::Post);
        }
        let w: [u8; 3] = [80u8, 85, 84];
        assert(w@ =~= HttpMethod::Put.token());
        if bytes_eq(t, &w) {
            return Some(HttpMethod::Put);
        }
        let w: [u8; 6] = [68u8, 69, 76, 69, 84, 69];
        assert(w@ =~= HttpMethod::Delete.token());
        if bytes_eq(t, &w) {
            return Some(HttpMethod::Delete);
        }
        let w: [u8; 5] = [80u8, 65, 84, 67, 72];
        assert(w@ =~= HttpMethod::Patch.token());
        if bytes_eq(t, &w) {
            return Some(HttpMethod::Patch);
        }
        let w: [u8; 4] = [72u8, 69, 65, 68];
        assert(w@ =~= HttpMethod::Head.token());
        if bytes_eq(t, &w) {
            return Some(HttpMethod::Head);
        }
        let w: [u8; 7] = [79u8, 80, 84, 73, 79, 78, 83];
        assert(w@ =~= HttpMethod::Options.token());
        if bytes_eq(t, &w) {
            return Some(HttpMethod::Options);
        }
        let w: [u8; 5] = [84u8, 82, 65, 67, 69];
        assert(w@ =~= HttpMethod::Trace.token());
        if bytes_eq(t, &w) {
            return Some(HttpMethod::Trace);
        }
        let w: [u8; 7] = [67u8, 79, 78, 78, 69, 67, 84];
        assert(w@ =~= HttpMethod::Connect.token());
        if bytes_eq(t, &w) {
            return Some(HttpMethod::Connect);
        }
        None
    }
}

/// Distinct methods have distinct tokens.
pub proof fn lemma_tokens_distinct()
    ensures
        forall|a: HttpMethod, b: HttpMethod| a.token() == b.token() ==> a == b,
{
    assert forall|a: HttpMethod, b: HttpMethod| a.token() == b.token() implies a == b by {
        if a != b {
            let (ta, tb) = (a.token(), b.token());
            if ta.len() == tb.len() {
                assert(ta[0] != tb[0] || ta[1] != tb[1]);
            }
        }
    }
}

/// A request handler bound to one method. `F` is the callable that serves
/// the request; the router stores it and hands it back, and never calls it.
pub struct Handler<F> {
    method: HttpMethod,
    func: F,
}

impl<F> Handler<F> {
    pub closed spec fn spec_method(self) -> HttpMethod {
        self.method
    }

    pub closed spec fn spec_func(self) -> F {
        self.func
    }

    /// A handler for `method`.
    pub fn new(method: HttpMethod, func: F) -> (r: Handler<F>)
        ensures
            r.spec_method() == method,
            r.spec_func() == func,
    {
        Handler { method, func }
    }

    pub fn get_method(&self) -> (r: &HttpMethod)
        ensures
            *r == self.spec_method(),
    {
        &self.method
    }

    pub fn get_func(&self) -> (r: &F)
        ensures
            *r == self.spec_func(),
    {
        &self.func
    }
}

/// A handler for `GET` requests.
pub fn get<F>(func: F) -> (r: Handler<F>)
    ensures
        r.spec_method() == HttpMethod::Get,
        r.spec_func() == func,
{
    Handler::new(HttpMethod::Get, func)
}

/// A handler for `POST` requests.
pub fn post<F>(func: F) -> (r: Handler<F>)
    ensures
        r.spec_method() == HttpMethod::Post,
        r.spec_func() == func,
{
    Handler::new(HttpMethod::Post, func)
}

/// A handler for `PUT` requests.
pub fn put<F>(func: F) -> (r: Handler<F>)
    ensures
        r.spec_method() == HttpMethod::Put,
        r.spec_func() == func,
{
    Handler::new(HttpMethod::Put, func)
}

/// A handler for `DELETE` requests.
pub fn delete<F>(func: F) -> (r: Handler<F>)
    ensures
        r.spec_method() == HttpMethod::Delete,
        r.spec_func() == func,
{
    Handler::new(HttpMethod::Delete, func)
}

/// A handler for `PATCH` requests.
pub fn patch<F>(func: F) -> (r: Handler<F>)
    ensures
        r.spec_method() == HttpMethod::Patch,
        r.spec_func() == func,
{
    Handler::new(HttpMethod::Patch, func)
}

/// A handler for `HEAD` requests.
pub fn head<F>(func: F) -> (r: Handler<F>)
    ensures
        r.spec_method() == HttpMethod::Head,
        r.spec_func() == func,
{
    Handler::new(HttpMethod::Head, func)
}

/// A handler for `OPTIONS` requests.
pub fn options<F>(func: F) -> (r: Handler<F>)
    ensures
        r.spec_method() == HttpMethod::Options,
        r.spec_func() == func,
{
    Handler::new(HttpMethod::Options, func)
}

/// A handler for `TRACE` requests.
pub fn trace<F>(func: F) -> (r: Handler<F>)
    ensures
        r.spec_method() == HttpMethod::Trace,
        r.spec_func() == func,
{
    Handler::new(HttpMethod::Trace, func)
}

/// A handler for `CONNECT` requests.
pub fn connect<F>(func: F) -> (r: Handler<F>)
    ensures
        r.spec_method() == HttpMethod::Connect,
        r.spec_func() == func,
{
    Handler::new(HttpMethod::Connect, func)
}

/// Why a route could not be registered.
#[derive(Clone, Copy, Debug, PartialEq, Eq, Structural)]
pub enum RouteError {
    /// A route for the same path and method is already registered.
    DuplicateRoute,
}

/// The table after registering `(path, method)`, or `None` when that pair is
/// already taken.
pub open spec fn registration(
    table: Seq<(Seq<char>, HttpMethod)>,
    path: Seq<char>,
    method: HttpMethod,
) -> Option<Seq<(Seq<char>, HttpMethod)>> {
    if table.contains((path, method)) {
        None
    } else {
        Some(table.push((path, method)))
    }
}

/// Routes from a path and a method to a handler; no pair is registered twice.
pub struct Router<F> {
    routes: Vec<(String, Handler<F>)>,
}

impl<F> Router<F> {
    /// The registered `(path, method)` pairs, in order of registration.
    pub closed spec fn table(self) -> Seq<(Seq<char>, HttpMethod)> {
        self.routes@.map_values(|e: (String, Handler<F>)| (e.0@, e.1.spec_method()))
    }

    /// The registered handlers, in order of registration.
    pub closed spec fn handlers(self) -> Seq<Handler<F>> {
        self.routes@.map_values(|e: (String, Handler<F>)| e.1)
    }

    #[verifier::type_invariant]
    spec fn distinct_routes(self) -> bool {
        self.table().no_duplicates()
    }


    /// A router with no routes.
    pub fn new() -> (r: Router<F>)
        ensures
            r.table() == Seq::<(Seq<char>, HttpMethod)>::empty(),
    {
        let r = Router { routes: Vec::new() };
        assert(r.table() =~= Seq::<(Seq<char>, HttpMethod)>::empty());
        r
    }

    /// Registers `handler` under `path` for the handler's method; fails when
    /// that path and method are taken.
    pub fn route(self, path: String, handler: Handler<F>) -> (r: Result<Router<F>, RouteError>)
        ensures
            match registration(self.table(), path@, handler.spec_method()) {
                Some(t) => r matches Ok(rt) && rt.table() == t && rt.handlers()
                    == self.handlers().push(handler),
                None => r == Err::<Router<F>, RouteError>(RouteError::DuplicateRoute),
            },
    {
        proof {
            use_type_invariant(&self);
        }
        let method = handler.method;
        if self.lookup(path.as_str(), method).is_some() {
            return Err(RouteError::DuplicateRoute);
        }
        let ghost old_table = self.table();
        let ghost old_handlers = self.handlers();
        let ghost pm = (path@, method);
        let ghost h = handler;
        let mut routes = self.routes;
        routes.push((path, handler));
        let ghost nt = routes@.map_values(|e: (String, Handler<F>)| (e.0@, e.1.spec_method()));
        assert(nt =~= old_table.push(pm));
        assert(nt.no_duplicates()) by {
            assert forall|i: int, j: int|
                0 <= i < nt.len() && 0 <= j < nt.len() && i != j implies nt[i] != nt[j] by {
                if i < old_table.len() && j < old_table.len() {
                    assert(nt[i] == old_table[i] && nt[j] == old_table[j]);
                } else if i < old_table.len() {
                    assert(nt[i] == old_table[i]);
                    assert(old_table.contains(old_table[i]));
                } else if j < old_table.len() {
                    assert(nt[j] == old_table[j]);
                    assert(old_table.contains(old_table[j]));
                }
            }
        }
        let r = Router { routes };
        assert(r.table() == nt);
        assert(r.handlers() =~= old_handlers.push(h));
        Ok(r)
    }

    /// The index of the route registered for `path` and `method`.
    pub fn lookup(&self, path: &str, method: HttpMethod) -> (r: Option<usize>)
        ensures
            r is Some <==> self.table().contains((path@, method)),
            r matches Some(i) ==> i < self.table().len() && self.table()[i as int] == (path@, method),
    {
        let key = path.to_owned();
        let mut i: usize = 0;
        while i < self.routes.len()
            invariant
                key@ == path@,
                i <= self.routes@.len(),
                forall|j: int| 0 <= j < i ==> self.table()[j] != (path@, method),
            decreases self.routes@.len() - i,
        {
            if self.routes[i].0 == key && self.routes[i].1.method == method {
                assert(self.table()[i as int] == (path@, method));
                return Some(i);
            }
            assert(self.table()[i as int] != (path@, method));
            i += 1;
        }
        proof {
            if self.table().contains((path@, method)) {
                let j = self.table().index_of((path@, method));
                assert(self.table()[j] == (path@, method));
            }
        }
        None
    }

    /// The handler of the route at `index`.
    pub fn handler(&self, index: usize) -> (r: &Handler<F>)
        requires
            index < self.table().len(),
        ensures
            *r == self.handlers()[index as int],
    {
        &self.routes[index].1
    }

    /// All registered routes: each path with its handler.
    pub fn get_routes(&self) -> (r: &Vec<(String, Handler<F>)>)
        ensures
            r@.map_values(|e: (String, Handler<F>)| (e.0@, e.1.spec_method())) == self.table(),
    {
        &self.routes
    }
}

/// A pair can be registered once: registering it again fails, while the
/// same path under another method is accepted.
pub proof fn lemma_route_uniqueness(
    table: Seq<(Seq<char>, HttpMethod)>,
    path: Seq<char>,
    method: HttpMethod,
    other: HttpMethod,
)
    requires
        registration(table, path, method) is Some,
        method != other,
        !table.contains((path, other)),
    ensures
        registration(registration(table, path, method)->Some_0, path, method) is None,
        registration(registration(table, path, method)->Some_0, path, other) is Some,
{
    let t = table.push((path, method));
    assert(t[table.len() as int] == (path, method));
    if t.contains((path, other)) {
        let j = t.index_of((path, other));
        assert(t[j] == (path, other));
        assert(table[j] == (path, other));
    }
}

} // verus!
