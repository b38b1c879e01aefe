//! The cross-origin policy: one origin and one method are let through.

use crate::request::Method;
use crate::request::Request;
use crate::response::cors_view;
use crate::response::CorsHeaders;
use crate::response::CorsHeadersView;
use crate::response::Response;
use crate::response::ResponseView;
use crate::text::same_text;
use vstd::prelude::*;

verus! {

/// The one origin that the policy lets through. There is no wildcard.
pub const ALLOWED_ORIGIN: &'static str = "http://localhost:63342";

/// The one method that the policy lets through.
pub const ALLOWED_METHOD: Method = Method::Delete;

/// Whether the policy lets a request through: it names an origin, that
/// origin is the allowed one letter for letter, and the method it declares
/// is the allowed one.
pub open spec fn permits(origin: Option<Seq<char>>, method: Method) -> bool {
    origin == Some(ALLOWED_ORIGIN@) && method == ALLOWED_METHOD
}

/// The cross-origin headers that a request is answered with: the allowed
/// origin and method where the policy lets it through, none otherwise.
pub open spec fn granted(origin: Option<Seq<char>>, method: Method) -> Option<CorsHeadersView> {
    if permits(origin, method) {
        Some(CorsHeadersView { allow_origin: ALLOWED_ORIGIN@, allow_method: ALLOWED_METHOD })
    } else {
        None
    }
}

/// Whether the policy lets through a request with this `Origin` header and
/// this declared method.
pub fn allows(origin: Option<&str>, method: Method) -> (allowed: bool)
    ensures
        allowed == permits(origin.deep_view(), method),
{
    match origin {
        Some(origin) => same_text(origin, ALLOWED_ORIGIN) && method == ALLOWED_METHOD,
        None => false,
    }
}

/// The cross-origin headers for a request with this `Origin` header and this
/// declared method.
pub fn grant(origin: Option<&str>, method: Method) -> (headers: Option<CorsHeaders>)
    ensures
        cors_view(headers) == granted(origin.deep_view(), method),
{
    if allows(origin, method) {
        Some(CorsHeaders { allow_origin: ALLOWED_ORIGIN.to_owned(), allow_method: ALLOWED_METHOD })
    } else {
        None
    }
}

/// Puts on `response` the cross-origin headers that `request` is granted,
/// and takes off any it had. Status and body stay as they are.
pub fn apply(request: &Request, response: Response) -> (answered: Response)
    ensures
        answered@ == (ResponseView {
            cors: granted(request@.origin, request@.declared_method()),
            ..response@
        }),
{
    let origin = match &request.origin {
        Some(origin) => Some(origin.as_str()),
        None => None,
    };
    let cors = grant(origin, request.declared_method());
    Response { status: response.status, body: response.body, cors }
}

/// A request is granted the headers if and only if it declares the origin
/// `http://localhost:63342` and the method `DELETE`: with another origin or
/// none, or with another method, it is granted nothing. The headers that are
/// granted name that origin and that method, never the request's own.
pub proof fn lemma_one_request_is_let_through(origin: Option<Seq<char>>, method: Method)
    ensures
        granted(origin, method) is Some <==> origin == Some("http://localhost:63342"@) && method
            == Method::Delete,
        granted(origin, method) is Some ==> granted(origin, method) == Some(
            CorsHeadersView { allow_origin: "http://localhost:63342"@, allow_method: Method::Delete },
        ),
{
}

} // verus!
