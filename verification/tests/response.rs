use ecdict::response::{ROOT_BODY, STATUS_OK};
use ecdict::{root_response, words_response, ContentType, EcdictError, Response, StoreError, Word};

fn hello() -> Word {
    Word {
        word: "hello".to_string(),
        definition: "a greeting".to_string(),
        translation: "你好".to_string(),
        phonetic: "/həˈloʊ/".to_string(),
    }
}

#[test]
fn root_answers_with_the_fixed_line() {
    let response = root_response();
    assert_eq!(response.status, 200);
    assert_eq!(response.content_type, ContentType::Text);
    assert_eq!(response.body, "REST API FOR ECDICT");
    assert_eq!(ROOT_BODY, "REST API FOR ECDICT");
}

#[test]
fn status_is_two_hundred() {
    assert_eq!(STATUS_OK, 200);
}

#[test]
fn content_type_headers() {
    assert_eq!(ContentType::Text.header_value(), "text/plain; charset=utf-8");
    assert_eq!(ContentType::Json.header_value(), "application/json");
}

#[test]
fn json_response_carries_the_body() {
    assert_eq!(
        Response::json("{}".to_string()),
        Response { status: 200, content_type: ContentType::Json, body: "{}".to_string() }
    );
}

#[test]
fn word_becomes_its_object() {
    let response = hello().into_response();
    assert_eq!(response.status, 200);
    assert_eq!(response.content_type, ContentType::Json);
    assert_eq!(
        response.body,
        "{\"word\":\"hello\",\"definition\":\"a greeting\",\"translation\":\"你好\",\"phonetic\":\"/həˈloʊ/\"}"
    );
}

#[test]
fn error_becomes_the_err_object() {
    let response = EcdictError::DBError(StoreError::RowNotFound).into_response();
    assert_eq!(response.status, 200);
    assert_eq!(response.content_type, ContentType::Json);
    assert_eq!(response.body, "{\"err\":\"DBError(RowNotFound)\"}");
}

#[test]
fn list_becomes_an_array() {
    let response = words_response(&vec![hello(), hello()]);
    assert_eq!(response.status, 200);
    assert_eq!(response.content_type, ContentType::Json);
    let one = hello().into_response().body;
    assert_eq!(response.body, format!("[{},{}]", one, one));
    assert_eq!(words_response(&vec![]).body, "[]");
}
