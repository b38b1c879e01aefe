//! The handlers: the liveness greeting, and the question handler, which
//! builds the question for an identifier, checks the identifier, and answers.

use crate::domain::InvalidId;
use crate::domain::Question;
use crate::domain::QuestionId;
use crate::domain::QuestionView;
use crate::domain::ValidationError;
use crate::response::outcome_view;
use crate::response::refusal_response;
use crate::response::respond;
use crate::response::response_for;
use crate::response::Body;
use crate::response::BodyView;
use crate::response::ContentType;
use crate::response::Response;
use crate::response::ResponseView;
use crate::response::Status;
use crate::text::decimal_value;
use crate::text::unsigned_decimal;
use vstd::prelude::*;

verus! {

/// The body of the liveness route.
pub const GREETING: &'static str = "hello world!";

/// The identifier that the service asks for.
pub const FIXED_ID: &'static str = "1";

/// The title of every question.
pub const TITLE: &'static str = "First Question";

/// The content of every question.
pub const CONTENT: &'static str = "How are u?";

/// The one tag of every question.
pub const TAG: &'static str = "faq";

/// What the liveness handler answers: 200 and the greeting.
pub open spec fn greeting() -> ResponseView {
    ResponseView { status: Status::Success, body: BodyView::Text(GREETING@), cors: None }
}

/// The question under an identifier. There is no store behind the service:
/// every question has the same title, content and tag.
pub open spec fn question_of(id: Seq<char>) -> QuestionView {
    QuestionView { id, title: TITLE@, content: CONTENT@, tags: Some(seq![TAG@]) }
}

/// What asking for an identifier leads to: the question, if the identifier
/// writes a 32-bit unsigned integer, and `InvalidId` if not.
pub open spec fn outcome_of(id: Seq<char>) -> Result<QuestionView, InvalidId> {
    if unsigned_decimal(id) is Some {
        Ok(question_of(id))
    } else {
        Err(InvalidId)
    }
}

/// The response to a request for the question under `text`: a refusal for
/// the empty text, and for any other what its outcome becomes.
pub open spec fn answer_of(text: Seq<char>) -> ResponseView {
    if text.len() == 0 {
        refusal_response(ValidationError::Empty)
    } else {
        response_for(outcome_of(text))
    }
}

/// Answers a liveness request. Nothing is checked.
pub fn hello() -> (response: Response)
    ensures
        response@ == greeting(),
{
    Response { status: Status::Success, body: Body::Text(GREETING.to_owned()), cors: None }
}

/// Builds the question under `id`.
pub fn find_question(id: QuestionId) -> (question: Question)
    ensures
        question@ == question_of(id@),
{
    let mut tags: Vec<String> = Vec::new();
    tags.push(TAG.to_owned());
    assert(tags.deep_view() =~= seq![TAG@]);
    Question::new(id, TITLE.to_owned(), CONTENT.to_owned(), Some(tags))
}

/// Lets a question through if its identifier writes a 32-bit unsigned
/// integer.
pub fn check_id(question: Question) -> (outcome: Result<Question, InvalidId>)
    ensures
        unsigned_decimal(question@.id) is Some ==> outcome == Ok::<Question, InvalidId>(question),
        unsigned_decimal(question@.id) is None ==> outcome == Err::<Question, InvalidId>(InvalidId),
{
    match question.id().number() {
        Some(_) => Ok(question),
        None => Err(InvalidId),
    }
}

/// Asks for the question under `id`.
pub fn question_outcome(id: QuestionId) -> (outcome: Result<Question, InvalidId>)
    ensures
        outcome_view(outcome) == outcome_of(id@),
{
    check_id(find_question(id))
}

/// Answers a request for the question under `text`.
pub fn get_question_by_id(text: &str) -> (response: Response)
    ensures
        response@ == answer_of(text@),
{
    match QuestionId::parse(text) {
        Ok(id) => respond(question_outcome(id)),
        Err(error) => error.into_response(),
    }
}

/// An identifier that writes no 32-bit unsigned integer leads to
/// `InvalidId`, and that to 500 with the fixed text, as plain text.
pub proof fn lemma_unreadable_id_is_server_error(id: QuestionId)
    requires
        id.well_formed(),
        unsigned_decimal(id@) is None,
    ensures
        outcome_of(id@) == Err::<QuestionView, InvalidId>(InvalidId),
        answer_of(id@) == response_for(outcome_of(id@)),
        answer_of(id@).status == Status::InternalServerError,
        answer_of(id@).status.code_of() == 500,
        answer_of(id@).body == BodyView::Text("Cannot parse id into integer"@),
        answer_of(id@).body.content_type() == Some(ContentType::PlainText),
{
}

/// The fixed identifier writes the number one.
pub proof fn lemma_fixed_id_is_numeric()
    ensures
        unsigned_decimal(FIXED_ID@) == Some(1u32),
{
    reveal_strlit("1");
    reveal_with_fuel(decimal_value, 2);
}

/// Answers a request for the one question that the service asks for: always
/// 200 and the question under the fixed identifier.
pub fn get_question() -> (response: Response)
    ensures
        response@ == answer_of(FIXED_ID@),
        response@ == response_for(Ok(question_of(FIXED_ID@))),
{
    proof {
        lemma_fixed_id_is_numeric();
    }
    get_question_by_id(FIXED_ID)
}

} // verus!
