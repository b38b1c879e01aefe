//! The router: from a method and a path to a handler, and from a request to
//! its response.

use crate::cors::apply;
use crate::cors::granted;
use crate::domain::QuestionView;
use crate::handler::answer_of;
use crate::handler::get_question;
use crate::handler::greeting;
use crate::handler::hello;
use crate::handler::lemma_fixed_id_is_numeric;
use crate::handler::FIXED_ID;
use crate::request::Method;
use crate::request::Request;
use crate::request::RequestView;
use crate::response::Body;
use crate::response::BodyView;
use crate::response::ContentType;
use crate::response::CorsHeadersView;
use crate::response::Response;
use crate::response::ResponseView;
use crate::response::Status;
use crate::text::same_text;
use vstd::prelude::*;

verus! {

/// The path of the liveness route.
pub const HELLO_PATH: &'static str = "/hello";

/// The path of the question route.
pub const QUESTION_PATH: &'static str = "/question";

/// Where a request is sent.
#[derive(Clone, Copy, Debug, PartialEq, Eq, Structural)]
pub enum Route {
    /// The liveness handler.
    Hello,
    /// The question handler.
    Question,
    /// No handler: the request is answered with 404.
    NotFound,
}

/// The route of a method and a path: `GET` on one of the two paths, letter
/// for letter, selects its handler, and every other pair selects none.
pub open spec fn route_of(method: Method, path: Seq<char>) -> Route {
    if method == Method::Get && path == HELLO_PATH@ {
        Route::Hello
    } else if method == Method::Get && path == QUESTION_PATH@ {
        Route::Question
    } else {
        Route::NotFound
    }
}

/// What the handler of a route answers, before the cross-origin policy.
pub open spec fn handled(route: Route) -> ResponseView {
    match route {
        Route::Hello => greeting(),
        Route::Question => answer_of(FIXED_ID@),
        Route::NotFound => ResponseView {
            status: Status::NotFound,
            body: BodyView::Empty,
            cors: None,
        },
    }
}

/// The response to a request: what the handler of its route answers, with
/// the cross-origin headers that its origin and declared method are granted.
pub open spec fn response_of(request: RequestView) -> ResponseView {
    ResponseView {
        cors: granted(request.origin, request.declared_method()),
        ..handled(route_of(request.method, request.path))
    }
}

/// Selects the route of a method and a path.
pub fn route(method: Method, path: &str) -> (selected: Route)
    ensures
        selected == route_of(method, path@),
{
    if method != Method::Get {
        Route::NotFound
    } else if same_text(path, HELLO_PATH) {
        Route::Hello
    } else if same_text(path, QUESTION_PATH) {
        Route::Question
    } else {
        Route::NotFound
    }
}

/// Runs the handler of a route.
pub fn dispatch(selected: Route) -> (response: Response)
    ensures
        response@ == handled(selected),
{
    match selected {
        Route::Hello => hello(),
        Route::Question => get_question(),
        Route::NotFound => Response { status: Status::NotFound, body: Body::Empty, cors: None },
    }
}

/// Answers a request: routes it, runs the handler, and applies the
/// cross-origin policy to what the handler answered.
pub fn serve(request: &Request) -> (response: Response)
    ensures
        response@ == response_of(request@),
{
    let answered = dispatch(route(request.method, request.path.as_str()));
    apply(request, answered)
}

/// `GET /hello` is answered with 200 and the greeting as plain text,
/// whatever else the request holds.
pub proof fn lemma_hello_is_greeted(request: RequestView)
    requires
        request.method == Method::Get,
        request.path == "/hello"@,
    ensures
        response_of(request).status == Status::Success,
        response_of(request).status.code_of() == 200,
        response_of(request).body == BodyView::Text("hello world!"@),
        response_of(request).body.content_type() == Some(ContentType::PlainText),
{
}

/// Two `GET /hello` requests, the same one again or another, are answered
/// with the same status and body.
pub proof fn lemma_hello_is_repeatable(first: RequestView, second: RequestView)
    requires
        first.method == Method::Get,
        first.path == "/hello"@,
        second.method == Method::Get,
        second.path == "/hello"@,
    ensures
        response_of(first).status == response_of(second).status,
        response_of(first).body == response_of(second).body,
        first == second ==> response_of(first) == response_of(second),
{
}

/// `GET /question` is answered with 200 and, as JSON, the question whose
/// identifier is the fixed one, with the fixed title, content and tag.
pub proof fn lemma_question_is_answered(request: RequestView)
    requires
        request.method == Method::Get,
        request.path == "/question"@,
    ensures
        response_of(request).status == Status::Success,
        response_of(request).status.code_of() == 200,
        response_of(request).body == BodyView::Json(
            QuestionView {
                id: "1"@,
                title: "First Question"@,
                content: "How are u?"@,
                tags: Some(seq!["faq"@]),
            },
        ),
        response_of(request).body.content_type() == Some(ContentType::Json),
{
    assert(HELLO_PATH@ != QUESTION_PATH@) by {
        reveal_strlit("/hello");
        reveal_strlit("/question");
        assert(HELLO_PATH@.len() == 6 && QUESTION_PATH@.len() == 9);
    }
    lemma_fixed_id_is_numeric();
}

/// Whatever is not `GET` on one of the two paths is answered with 404 and
/// no body.
pub proof fn lemma_unknown_route_is_not_found(request: RequestView)
    requires
        !(request.method == Method::Get && (request.path == "/hello"@ || request.path
            == "/question"@)),
    ensures
        response_of(request).status == Status::NotFound,
        response_of(request).status.code_of() == 404,
        response_of(request).body == BodyView::Empty,
{
}

/// A response carries the cross-origin headers if and only if the request
/// declares the origin `http://localhost:63342` and the method `DELETE`,
/// whatever its route; and the headers name that origin and that method.
pub proof fn lemma_headers_follow_policy(request: RequestView)
    ensures
        response_of(request).cors is Some <==> request.origin == Some("http://localhost:63342"@)
            && request.declared_method() == Method::Delete,
        response_of(request).cors is Some ==> response_of(request).cors == Some(
            CorsHeadersView { allow_origin: "http://localhost:63342"@, allow_method: Method::Delete },
        ),
{
}

/// The cross-origin policy leaves status and body as the handler set them.
pub proof fn lemma_policy_keeps_answer(request: RequestView)
    ensures
        response_of(request).status == handled(route_of(request.method, request.path)).status,
        response_of(request).body == handled(route_of(request.method, request.path)).body,
{
}

} // verus!
