//! What the service reads of an incoming request.

use crate::text::same_text;
use vstd::prelude::*;

verus! {

/// An HTTP request method. A token that is none of the nine standard ones is
/// `Other`.
#[derive(Clone, Copy, Debug, PartialEq, Eq, Structural)]
pub enum Method {
    Get,
    Head,
    Post,
    Put,
    Delete,
    Connect,
    Options,
    Trace,
    Patch,
    Other,
}

/// The method that a token names. Tokens are case-sensitive.
pub open spec fn method_of(token: Seq<char>) -> Method {
    if token == "GET"@ {
        Method::Get
    } else if token == "HEAD"@ {
        Method::Head
    } else if token == "POST"@ {
        Method::Post
    } else if token == "PUT"@ {
        Method::Put
    } else if token == "DELETE"@ {
        Method::Delete
    } else if token == "CONNECT"@ {
        Method::Connect
    } else if token == "OPTIONS"@ {
        Method::Options
    } else if token == "TRACE"@ {
        Method::Trace
    } else if token == "PATCH"@ {
        Method::Patch
    } else {
        Method::Other
    }
}

impl Method {
    /// The token that names the method; `Other` has none.
    pub open spec fn token_of(self) -> Option<Seq<char>> {
        match self {
            Method::Get => Some("GET"@),
            Method::Head => Some("HEAD"@),
            Method::Post => Some("POST"@),
            Method::Put => Some("PUT"@),
            Method::Delete => Some("DELETE"@),
            Method::Connect => Some("CONNECT"@),
            Method::Options => Some("OPTIONS"@),
            Method::Trace => Some("TRACE"@),
            Method::Patch => Some("PATCH"@),
            Method::Other => None,
        }
    }

    /// The token that names the method; `Other` has none.
    pub fn token(&self) -> (token: Option<&'static str>)
        ensures
            token.deep_view() == self.token_of(),
    {
        match self {
            Method::Get => Some("GET"),
            Method::Head => Some("HEAD"),
            Method::Post => Some("POST"),
            Method::Put => Some("PUT"),
            Method::Delete => Some("DELETE"),
            Method::Connect => Some("CONNECT"),
            Method::Options => Some("OPTIONS"),
            Method::Trace => Some("TRACE"),
            Method::Patch => Some("PATCH"),
            Method::Other => None,
        }
    }

    /// Reads a method from its token on the request line.
    pub fn from_token(token: &str) -> (method: Method)
        ensures
            method == method_of(token@),
    {
        if same_text(token, "GET") {
            Method::Get
        } else if same_text(token, "HEAD") {
            Method::Head
        } else if same_text(token, "POST") {
            Method::Post
        } else if same_text(token, "PUT") {
            Method::Put
        } else if same_text(token, "DELETE") {
            Method::Delete
        } else if same_text(token, "CONNECT") {
            Method::Connect
        } else if same_text(token, "OPTIONS") {
            Method::Options
        } else if same_text(token, "TRACE") {
            Method::Trace
        } else if same_text(token, "PATCH") {
            Method::Patch
        } else {
            Method::Other
        }
    }
}

/// A method is read back from its own token.
pub proof fn lemma_token_names_its_method(method: Method)
    requires
        method != Method::Other,
    ensures
        method.token_of() is Some,
        method_of(method.token_of()->Some_0) == method,
{
    reveal_strlit("GET");
    reveal_strlit("HEAD");
    reveal_strlit("POST");
    reveal_strlit("PUT");
    reveal_strlit("DELETE");
    reveal_strlit("CONNECT");
    reveal_strlit("OPTIONS");
    reveal_strlit("TRACE");
    reveal_strlit("PATCH");
    assert("GET"@.len() == 3 && "PUT"@.len() == 3 && "GET"@[0] != "PUT"@[0]);
    assert("HEAD"@.len() == 4 && "POST"@.len() == 4 && "HEAD"@[0] != "POST"@[0]);
    assert("TRACE"@.len() == 5 && "PATCH"@.len() == 5 && "TRACE"@[0] != "PATCH"@[0]);
    assert("DELETE"@.len() == 6);
    assert("CONNECT"@.len() == 7 && "OPTIONS"@.len() == 7 && "CONNECT"@[0] != "OPTIONS"@[0]);
}

/// What contracts say of a [`Request`].
pub struct RequestView {
    pub method: Method,
    pub path: Seq<char>,
    pub origin: Option<Seq<char>>,
    pub requested_method: Option<Method>,
}

impl RequestView {
    /// The method that the request declares to the cross-origin check: for a
    /// preflight, an `OPTIONS` request that names the method it asks leave
    /// for, that method; for any other request, its own.
    pub open spec fn declared_method(self) -> Method {
        match self.requested_method {
            Some(asked) if self.method == Method::Options => asked,
            _ => self.method,
        }
    }
}

/// An incoming request, as far as the service looks at it.
#[derive(Clone, Debug, PartialEq, Eq)]
pub struct Request {
    /// The method on the request line.
    pub method: Method,
    /// The path of the target, without the query.
    pub path: String,
    /// The `Origin` header, if the request has one.
    pub origin: Option<String>,
    /// The `Access-Control-Request-Method` header, if the request has one.
    pub requested_method: Option<Method>,
}

impl View for Request {
    type V = RequestView;

    open spec fn view(&self) -> RequestView {
        RequestView {
            method: self.method,
            path: self.path@,
            origin: self.origin.deep_view(),
            requested_method: self.requested_method,
        }
    }
}

impl Request {
    /// A request with this method and path, and none of the cross-origin
    /// headers.
    pub fn new(method: Method, path: String) -> (request: Request)
        ensures
            request@ == (RequestView {
                method,
                path: path@,
                origin: None,
                requested_method: None,
            }),
    {
        Request { method, path, origin: None, requested_method: None }
    }

    /// See [`RequestView::declared_method`].
    pub fn declared_method(&self) -> (method: Method)
        ensures
            method == self@.declared_method(),
    {
        match self.requested_method {
            Some(asked) if self.method == Method::Options => asked,
            _ => self.method,
        }
    }
}

} // verus!
