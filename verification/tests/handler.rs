use question_service::domain::InvalidId;
use question_service::domain::Question;
use question_service::domain::QuestionId;
use question_service::domain::ValidationError;
use question_service::handler::check_id;
use question_service::handler::find_question;
use question_service::handler::get_question;
use question_service::handler::get_question_by_id;
use question_service::handler::hello;
use question_service::handler::question_outcome;
use question_service::response::Body;
use question_service::response::ContentType;
use question_service::response::Response;
use question_service::response::Status;
use question_service::response::respond;

fn identifier(text: &str) -> QuestionId {
    match QuestionId::parse(text) {
        Ok(id) => id,
        Err(error) => panic!("{:?} was refused: {:?}", text, error),
    }
}

fn first_question(id: &str) -> Question {
    Question::new(
        identifier(id),
        "First Question".to_string(),
        "How are u?".to_string(),
        Some(vec!["faq".to_string()]),
    )
}

fn cannot_parse() -> Response {
    Response {
        status: Status::InternalServerError,
        body: Body::Text("Cannot parse id into integer".to_string()),
        cors: None,
    }
}

#[test]
fn hello_greets_under_200() {
    let response = hello();
    assert_eq!(response.status.code(), 200);
    assert_eq!(response.body, Body::Text("hello world!".to_string()));
    assert_eq!(response.body.content_type(), Some(ContentType::PlainText));
    assert_eq!(response.cors, None);
}

#[test]
fn validation_error_into_response_is_500_with_its_message() {
    let response = ValidationError::Empty.into_response();
    assert_eq!(response.status.code(), 500);
    assert_eq!(response.body, Body::Text("No id provided".to_string()));
    assert_eq!(response.body.content_type(), Some(ContentType::PlainText));
    assert_eq!(response, get_question_by_id(""));
}

#[test]
fn find_question_fills_in_the_fixed_attributes() {
    assert_eq!(find_question(identifier("1")), first_question("1"));
    assert_eq!(find_question(identifier("abc")), first_question("abc"));
}

#[test]
fn check_id_lets_a_numeric_identifier_through() {
    assert_eq!(check_id(first_question("1")), Ok(first_question("1")));
    assert_eq!(check_id(first_question("+20")), Ok(first_question("+20")));
}

#[test]
fn check_id_stops_any_other_identifier() {
    assert_eq!(check_id(first_question("one")), Err(InvalidId));
    assert_eq!(check_id(first_question("-1")), Err(InvalidId));
    assert_eq!(check_id(first_question("4294967296")), Err(InvalidId));
}

#[test]
fn question_outcome_is_the_question_or_invalid_id() {
    assert_eq!(question_outcome(identifier("1")), Ok(first_question("1")));
    assert_eq!(question_outcome(identifier("12")), Ok(first_question("12")));
    assert_eq!(question_outcome(identifier("not-a-number")), Err(InvalidId));
    assert_eq!(question_outcome(identifier("1 ")), Err(InvalidId));
}

#[test]
fn respond_sends_the_question_as_json_under_200() {
    let response = respond(Ok(first_question("1")));
    assert_eq!(response.status, Status::Success);
    assert_eq!(response.status.code(), 200);
    assert_eq!(response.body.content_type(), Some(ContentType::Json));
    assert_eq!(response.body, Body::Json(first_question("1")));
    assert_eq!(response.cors, None);
}

#[test]
fn respond_sends_the_fixed_text_under_500() {
    let response = respond(Err(InvalidId));
    assert_eq!(response.status, Status::InternalServerError);
    assert_eq!(response.status.code(), 500);
    assert_eq!(response.body.content_type(), Some(ContentType::PlainText));
    assert_eq!(response.body, Body::Text("Cannot parse id into integer".to_string()));
    assert_eq!(response.cors, None);
}

#[test]
fn invalid_id_into_response_is_what_respond_sends() {
    assert_eq!(InvalidId.into_response(), cannot_parse());
    assert_eq!(InvalidId.into_response(), respond(Err(InvalidId)));
}

#[test]
fn get_question_answers_the_first_question() {
    let response = get_question();
    assert_eq!(response.status.code(), 200);
    match &response.body {
        Body::Json(question) => {
            assert_eq!(question.id().as_str(), "1");
            assert_eq!(question.title(), "First Question");
            assert_eq!(question.content(), "How are u?");
            assert_eq!(question.tags(), &Some(vec!["faq".to_string()]));
        }
        other => panic!("the body is {:?}", other),
    }
    assert_eq!(response, respond(Ok(first_question("1"))));
}

#[test]
fn get_question_answers_the_same_every_time() {
    assert_eq!(get_question(), get_question());
}

#[test]
fn answer_to_a_numeric_identifier_is_its_question() {
    assert_eq!(get_question_by_id("1"), get_question());
    assert_eq!(get_question_by_id("250"), respond(Ok(first_question("250"))));
}

#[test]
fn answer_to_a_non_numeric_identifier_is_500() {
    for text in ["abc", "one", "-1", "1.5", " 1", "4294967296", "\u{ff11}"] {
        let response = get_question_by_id(text);
        assert_eq!(response.status.code(), 500);
        assert_eq!(response.body, Body::Text("Cannot parse id into integer".to_string()));
        assert_eq!(response, cannot_parse());
    }
}

#[test]
fn answer_to_the_empty_identifier_is_500_with_the_refusal() {
    let response = get_question_by_id("");
    assert_eq!(response.status, Status::InternalServerError);
    assert_eq!(response.body, Body::Text("No id provided".to_string()));
    assert_eq!(response.cors, None);
}
