use llama_client::model::{ChatCompletionRequest, CompletionRequest, EmbeddingRequest, Decimal, Message};
use llama_client::ser::{chat_completion_payload, completion_payload, embedding_payload};

#[test]
fn chat_payload_required_only_omits_optionals() {
    let r = ChatCompletionRequest::new("m".to_string());
    let p = chat_completion_payload(&r);
    assert_eq!(p, "{\"model\":\"m\",\"messages\":[]}");
    assert!(!p.contains("temperature"));
    assert!(!p.contains("max_tokens"));
    assert!(!p.contains("top_p"));
    assert!(!p.contains("stream"));
    assert!(!p.contains("stop"));
    assert!(!p.contains("null"));
}

#[test]
fn chat_payload_one_message() {
    let r = ChatCompletionRequest::new("m".to_string()).message(Message::user("hi".to_string()));
    let p = chat_completion_payload(&r);
    assert_eq!(p, "{\"model\":\"m\",\"messages\":[{\"role\":\"user\",\"content\":\"hi\"}]}");
}

#[test]
fn chat_payload_all_optionals_exact_values() {
    let r = ChatCompletionRequest::new("m".to_string())
        .message(Message::system("s".to_string()))
        .message(Message::user("u".to_string()))
        .temperature(Decimal::new(0, 700))
        .max_tokens(100)
        .top_p(Decimal::new(0, 950))
        .stream(true)
        .stop(vec!["a".to_string(), "b".to_string()]);
    let p = chat_completion_payload(&r);
    assert_eq!(
        p,
        "{\"model\":\"m\",\"messages\":[{\"role\":\"system\",\"content\":\"s\"},{\"role\":\"user\",\"content\":\"u\"}],\"temperature\":0.700,\"max_tokens\":100,\"top_p\":0.950,\"stream\":true,\"stop\":[\"a\",\"b\"]}"
    );
}

#[test]
fn chat_payload_is_valid_json_and_omits_unset() {
    let r = ChatCompletionRequest::new("my-model".to_string())
        .message(Message::user("hello".to_string()))
        .max_tokens(7);
    let p = chat_completion_payload(&r);
    let v: serde_json::Value = serde_json::from_str(&p).unwrap();
    assert_eq!(v["model"].as_str().unwrap(), "my-model");
    assert_eq!(v["max_tokens"].as_u64().unwrap(), 7);
    assert!(v.get("temperature").is_none());
    assert!(v.get("top_p").is_none());
    assert!(v.get("stream").is_none());
    assert!(v.get("stop").is_none());
    assert_eq!(v["messages"][0]["role"].as_str().unwrap(), "user");
}

#[test]
fn chat_payload_temperature_exact_value_via_json() {
    let r = ChatCompletionRequest::new("m".to_string()).temperature(Decimal::new(0, 700));
    let p = chat_completion_payload(&r);
    let v: serde_json::Value = serde_json::from_str(&p).unwrap();
    assert_eq!(v["temperature"].as_f64().unwrap(), 0.7);
}

#[test]
fn chat_payload_escapes_strings() {
    let content = "a\"b\\c\nd\te\rf\u{1}g".to_string();
    let r = ChatCompletionRequest::new("m".to_string()).message(Message::assistant(content));
    let p = chat_completion_payload(&r);
    assert_eq!(
        p,
        "{\"model\":\"m\",\"messages\":[{\"role\":\"assistant\",\"content\":\"a\\\"b\\\\c\\nd\\te\\rf\\u0001g\"}]}"
    );
    let v: serde_json::Value = serde_json::from_str(&p).unwrap();
    assert_eq!(
        v["messages"][0]["content"].as_str().unwrap(),
        "a\"b\\c\nd\te\rf\u{1}g"
    );
}

#[test]
fn completion_payload_required_only() {
    let r = CompletionRequest::new("m".to_string(), "The quick".to_string());
    let p = completion_payload(&r);
    assert_eq!(p, "{\"model\":\"m\",\"prompt\":\"The quick\"}");
    assert!(!p.contains("temperature"));
    assert!(!p.contains("null"));
}

#[test]
fn completion_payload_with_optionals() {
    let r = CompletionRequest::new("m".to_string(), "p".to_string())
        .temperature(Decimal::new(0, 800))
        .max_tokens(20)
        .stream(false);
    let p = completion_payload(&r);
    assert_eq!(
        p,
        "{\"model\":\"m\",\"prompt\":\"p\",\"temperature\":0.800,\"max_tokens\":20,\"stream\":false}"
    );
}

#[test]
fn embedding_payload_exact() {
    let r = EmbeddingRequest::new("m".to_string(), "Hello, world!".to_string());
    let p = embedding_payload(&r);
    assert_eq!(p, "{\"model\":\"m\",\"input\":\"Hello, world!\"}");
}

#[test]
fn builders_set_fields() {
    let r = ChatCompletionRequest::new("m".to_string())
        .messages(vec![Message::user("x".to_string())])
        .stream(true);
    assert_eq!(r.model, "m");
    assert_eq!(r.messages.len(), 1);
    assert_eq!(r.messages[0].role, "user");
    assert_eq!(r.stream, Some(true));
    assert!(r.check_wf());
    let c = CompletionRequest::new("m".to_string(), "p".to_string()).max_tokens(3);
    assert_eq!(c.max_tokens, Some(3));
    assert_eq!(c.prompt, "p");
    assert!(c.check_wf());
}

#[test]
fn message_roles() {
    assert_eq!(Message::system("a".to_string()).role, "system");
    assert_eq!(Message::user("b".to_string()).role, "user");
    assert_eq!(Message::assistant("c".to_string()).role, "assistant");
    assert_eq!(Message::user("b".to_string()).content, "b");
}

#[test]
fn decimal_whole_units() {
    let r = ChatCompletionRequest::new("m".to_string()).temperature(Decimal::new(2, 0));
    let p = chat_completion_payload(&r);
    assert!(p.contains("\"temperature\":2.000"));
}
