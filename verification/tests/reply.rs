use async_graphql::http::{playground_source, GraphQLPlaygroundConfig};
use async_graphql::ParseRequestError;
use async_graphql_warp::GraphQLBadRequest;
use simple_graphql::reply::{
    check_query, classify, error_reply, graphql_path, html_page, judge_query, playground_page,
    recover, Rejected, Reply, STATUS_BAD_REQUEST, STATUS_INTERNAL_SERVER_ERROR, STATUS_OK,
};

#[test]
fn status_codes_are_the_http_ones() {
    assert_eq!(STATUS_OK, 200);
    assert_eq!(STATUS_BAD_REQUEST, 400);
    assert_eq!(STATUS_INTERNAL_SERVER_ERROR, 500);
}

#[test]
fn graphql_path_is_slash_graphql() {
    assert_eq!(graphql_path(), "/graphql");
}

#[test]
fn html_page_is_a_200_with_html_content_type() {
    let reply = html_page("<p>hi</p>".to_string());
    assert_eq!(
        reply,
        Reply {
            status: 200,
            content_type: Some("text/html".to_string()),
            body: "<p>hi</p>".to_string(),
        }
    );
}

#[test]
fn playground_page_is_the_rendered_client_for_the_graphql_endpoint() {
    let reply = playground_page();
    assert_eq!(reply.status, 200);
    assert_eq!(reply.content_type.as_deref(), Some("text/html"));
    assert_eq!(reply.body, playground_source(GraphQLPlaygroundConfig::new("/graphql")));
    assert!(reply.body.contains("<!DOCTYPE html>"));
    assert!(reply.body.contains("\"endpoint\":\"/graphql\""));
    assert_ne!(reply.body, "/graphql");
}

#[test]
fn playground_page_is_the_same_each_time() {
    assert_eq!(playground_page(), playground_page());
}

#[test]
fn classify_tells_bad_requests_from_the_rest() {
    assert_eq!(
        classify(Some("no query".to_string())),
        Rejected::BadRequest { message: "no query".to_string() }
    );
    assert_eq!(classify(None), Rejected::Unhandled);
}

#[test]
fn bad_request_is_answered_with_400_and_the_reason() {
    let reply = error_reply(Rejected::BadRequest { message: "Invalid request: eof".to_string() });
    assert_eq!(
        reply,
        Reply { status: 400, content_type: None, body: "Invalid request: eof".to_string() }
    );
}

#[test]
fn bad_request_with_empty_reason_keeps_the_empty_body() {
    let reply = error_reply(Rejected::BadRequest { message: String::new() });
    assert_eq!(reply.status, 400);
    assert_eq!(reply.body, "");
}

#[test]
fn unhandled_failure_is_answered_with_500_and_the_fixed_text() {
    let reply = error_reply(Rejected::Unhandled);
    assert_eq!(
        reply,
        Reply { status: 500, content_type: None, body: "INTERNAL_SERVER_ERROR".to_string() }
    );
}

#[test]
fn recover_reads_a_bad_request_off_the_rejection() {
    let rejection = warp::reject::custom(GraphQLBadRequest(ParseRequestError::MissingFiles));
    let reply = recover(&rejection);
    assert_eq!(reply.status, 400);
    assert_eq!(reply.body, "Missing files");
    assert_eq!(reply.content_type, None);
}

#[test]
fn recover_answers_an_oversized_payload_as_a_bad_request() {
    let rejection = warp::reject::custom(GraphQLBadRequest(ParseRequestError::PayloadTooLarge));
    let reply = recover(&rejection);
    assert_eq!(reply.status, 400);
    assert_eq!(reply.body, "Payload too large");
}

#[test]
fn recover_carries_the_parse_error_of_an_invalid_request() {
    let cause: Box<dyn std::error::Error + Send + Sync> = "unexpected token".into();
    let rejection = warp::reject::custom(GraphQLBadRequest(ParseRequestError::InvalidRequest(cause)));
    let reply = recover(&rejection);
    assert_eq!(reply.status, 400);
    assert_eq!(reply.body, "Invalid request: unexpected token");
}

#[test]
fn recover_answers_not_found_with_500() {
    let reply = recover(&warp::reject::not_found());
    assert_eq!(
        reply,
        Reply { status: 500, content_type: None, body: "INTERNAL_SERVER_ERROR".to_string() }
    );
}

#[derive(Debug)]
struct OutOfService;

impl warp::reject::Reject for OutOfService {}

#[test]
fn recover_answers_a_foreign_rejection_with_500() {
    let reply = recover(&warp::reject::custom(OutOfService));
    assert_eq!(
        reply,
        Reply { status: 500, content_type: None, body: "INTERNAL_SERVER_ERROR".to_string() }
    );
}

#[test]
fn judged_query_is_let_through_when_it_parsed() {
    assert_eq!(judge_query(None), None);
}

#[test]
fn judged_query_is_a_bad_request_with_the_parser_message() {
    assert_eq!(
        judge_query(Some("unexpected end".to_string())),
        Some(Rejected::BadRequest { message: "unexpected end".to_string() })
    );
}

#[test]
fn well_formed_query_is_let_through() {
    assert_eq!(check_query("{ __typename }"), None);
    assert_eq!(check_query("query Q($id: ID!) { node(id: $id) { id } }"), None);
}

#[test]
fn query_that_does_not_parse_is_a_bad_request() {
    let message = async_graphql::parser::parse_query("{ unclosed").unwrap_err().to_string();
    assert!(!message.is_empty());
    assert_eq!(check_query("{ unclosed"), Some(Rejected::BadRequest { message }));
}

#[test]
fn empty_query_is_a_bad_request() {
    let verdict = check_query("");
    assert!(matches!(verdict, Some(Rejected::BadRequest { .. })));
}

#[test]
fn refused_query_is_answered_with_400_and_the_parser_message() {
    let cause = check_query("query {{").unwrap();
    let message = async_graphql::parser::parse_query("query {{").unwrap_err().to_string();
    assert_eq!(error_reply(cause), Reply { status: 400, content_type: None, body: message });
}

#[test]
fn refused_queries_always_come_with_a_message() {
    for text in ["", "{", "}", "query", "{ a(b: 1e999999999999) }", "{ a } { b }", "fragment F on T { a }"] {
        if let Some(Rejected::BadRequest { message }) = check_query(text) {
            assert!(!message.is_empty());
        }
    }
    assert!(check_query("{").is_some());
}

#[test]
fn verdict_is_the_one_of_the_text_given() {
    let first = async_graphql::parser::parse_query("{ a(").unwrap_err().to_string();
    let second = async_graphql::parser::parse_query("{ a } }").unwrap_err().to_string();
    assert_ne!(first, second);
    assert_eq!(check_query("{ a("), Some(Rejected::BadRequest { message: first }));
    assert_eq!(check_query("{ a } }"), Some(Rejected::BadRequest { message: second }));
}

#[test]
fn bad_request_with_an_empty_message_is_answered_with_an_empty_body() {
    let silent = std::io::Error::other("");
    let rejection = warp::reject::custom(GraphQLBadRequest(ParseRequestError::Io(silent)));
    let reply = recover(&rejection);
    assert_eq!(reply.status, 400);
    assert_eq!(reply.body, "");
}
