use llama_client::client::{
    LlamaCppClient, ClientError, check_status, chat_completion_from_reply, completion_from_reply,
    embedding_from_reply,
};

#[test]
fn success_statuses_pass_the_body_through() {
    for st in [200u16, 201, 204, 299] {
        let r = check_status(st, "body".to_string());
        assert_eq!(r.unwrap(), "body");
    }
}

#[test]
fn non_success_statuses_become_api_errors() {
    for st in [100u16, 199, 300, 404, 500] {
        let r = check_status(st, "oops".to_string());
        match r {
            Err(ClientError::Api { status, body }) => {
                assert_eq!(status, st);
                assert_eq!(body, "oops");
            }
            _ => panic!("expected an API error for status {}", st),
        }
    }
}

#[test]
fn api_error_message_contains_status_and_body() {
    let r = chat_completion_from_reply(500, "{\"error\":\"oom\"}".to_string());
    let e = r.err().unwrap();
    let msg = e.message();
    assert_eq!(msg, "API error (500): {\"error\":\"oom\"}");
    assert!(msg.contains("500"));
    assert!(msg.contains("{\"error\":\"oom\"}"));
}

#[test]
fn successful_chat_reply_parses() {
    let body = "{\"id\":\"c1\",\"object\":\"o\",\"created\":9,\"model\":\"m\",\"choices\":[],\"usage\":{\"prompt_tokens\":1,\"total_tokens\":1}}";
    let r = chat_completion_from_reply(200, body.to_string()).unwrap();
    assert_eq!(r.id, "c1");
    assert_eq!(r.created, 9);
}

#[test]
fn successful_reply_with_bad_body_is_a_parse_error() {
    let r = chat_completion_from_reply(200, "not json".to_string());
    assert!(matches!(r, Err(ClientError::Parse)));
    let r = completion_from_reply(200, "{}".to_string());
    assert!(matches!(r, Err(ClientError::Parse)));
    let r = embedding_from_reply(200, "[]".to_string());
    assert!(matches!(r, Err(ClientError::Parse)));
}

#[test]
fn completion_and_embedding_replies_parse() {
    let r = completion_from_reply(200, "{\"content\":\"hi\"}".to_string()).unwrap();
    assert_eq!(r.content, "hi");
    let body = "{\"object\":\"list\",\"data\":[],\"model\":\"m\",\"usage\":{\"prompt_tokens\":0,\"total_tokens\":0}}";
    let r = embedding_from_reply(200, body.to_string()).unwrap();
    assert_eq!(r.model, "m");
}

#[test]
fn non_success_reply_keeps_status_and_body() {
    let r = completion_from_reply(503, "busy".to_string());
    match r {
        Err(ClientError::Api { status, body }) => {
            assert_eq!(status, 503);
            assert_eq!(body, "busy");
        }
        _ => panic!("expected an API error"),
    }
}

#[test]
fn client_urls_and_bearer_header() {
    let c = LlamaCppClient::new("http://localhost:1337".to_string());
    assert_eq!(c.chat_completions_url(), "http://localhost:1337/v1/chat/completions");
    assert_eq!(c.completions_url(), "http://localhost:1337/v1/completions");
    assert_eq!(c.embeddings_url(), "http://localhost:1337/v1/embeddings");
    assert!(c.bearer_header().is_none());

    let c = LlamaCppClient::with_api_key("http://h".to_string(), "tok".to_string());
    assert_eq!(c.bearer_header().unwrap(), "Bearer tok");
}

#[test]
fn default_client_points_at_localhost() {
    let c = LlamaCppClient::default();
    assert_eq!(c.base_url, "http://localhost:8080");
    assert!(c.api_key.is_none());
}

#[test]
fn parse_error_message_is_stable() {
    let msg = ClientError::Parse.message();
    assert_eq!(msg, "failed to parse response body");
}
