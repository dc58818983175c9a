use llama_client::parse::{
    parse_chat_completion_response, parse_chat_completion_chunk, parse_completion_response,
    parse_embedding_response,
};

const CHAT_BODY: &str = "{\"id\":\"c1\",\"object\":\"chat.completion\",\"created\":123,\"model\":\"m\",\"choices\":[{\"index\":0,\"message\":{\"role\":\"assistant\",\"content\":\"hello\"},\"finish_reason\":\"stop\"}],\"usage\":{\"prompt_tokens\":5,\"completion_tokens\":7,\"total_tokens\":12}}";

#[test]
fn chat_response_all_fields() {
    let r = parse_chat_completion_response(CHAT_BODY).unwrap();
    assert_eq!(r.id, "c1");
    assert_eq!(r.object, "chat.completion");
    assert_eq!(r.created, 123);
    assert_eq!(r.model, "m");
    assert_eq!(r.choices.len(), 1);
    assert_eq!(r.choices[0].index, 0);
    assert_eq!(r.choices[0].message.role, "assistant");
    assert_eq!(r.choices[0].message.content, "hello");
    assert_eq!(r.choices[0].finish_reason.as_deref(), Some("stop"));
    assert_eq!(r.usage.prompt_tokens, 5);
    assert_eq!(r.usage.completion_tokens, Some(7));
    assert_eq!(r.usage.total_tokens, 12);
}

#[test]
fn chat_response_with_whitespace() {
    let body = "{ \"id\" : \"c1\" ,\n \"object\" : \"x\" , \"created\" : 1 , \"model\" : \"m\" , \"choices\" : [ ] , \"usage\" : { \"prompt_tokens\" : 1 , \"total_tokens\" : 1 } }\n";
    let r = parse_chat_completion_response(body).unwrap();
    assert_eq!(r.id, "c1");
    assert_eq!(r.choices.len(), 0);
    assert_eq!(r.usage.completion_tokens, None);
}

#[test]
fn chat_response_optional_absent_maps_to_none() {
    let body = "{\"id\":\"c\",\"object\":\"o\",\"created\":0,\"model\":\"m\",\"choices\":[{\"index\":0,\"message\":{\"role\":\"assistant\",\"content\":\"\"}}],\"usage\":{\"prompt_tokens\":0,\"total_tokens\":0}}";
    let r = parse_chat_completion_response(body).unwrap();
    assert_eq!(r.choices[0].finish_reason, None);
    assert_eq!(r.usage.completion_tokens, None);
}

#[test]
fn chat_response_null_optional_maps_to_none() {
    let body = "{\"id\":\"c\",\"object\":\"o\",\"created\":0,\"model\":\"m\",\"choices\":[{\"index\":0,\"message\":{\"role\":\"a\",\"content\":\"\"},\"finish_reason\":null}],\"usage\":{\"prompt_tokens\":0,\"completion_tokens\":null,\"total_tokens\":0}}";
    let r = parse_chat_completion_response(body).unwrap();
    assert_eq!(r.choices[0].finish_reason, None);
    assert_eq!(r.usage.completion_tokens, None);
}

#[test]
fn chat_response_missing_required_field_fails() {
    let body = "{\"id\":\"c\",\"object\":\"o\",\"created\":0,\"model\":\"m\",\"choices\":[]}";
    assert!(parse_chat_completion_response(body).is_none());
}

#[test]
fn chat_response_wrong_type_fails() {
    let body = "{\"id\":\"c\",\"object\":\"o\",\"created\":\"zero\",\"model\":\"m\",\"choices\":[],\"usage\":{\"prompt_tokens\":0,\"total_tokens\":0}}";
    assert!(parse_chat_completion_response(body).is_none());
}

#[test]
fn chat_response_trailing_garbage_fails() {
    let mut body = CHAT_BODY.to_string();
    body.push_str("x");
    assert!(parse_chat_completion_response(&body).is_none());
}

#[test]
fn chat_response_malformed_fails() {
    assert!(parse_chat_completion_response("not json").is_none());
    assert!(parse_chat_completion_response("").is_none());
    assert!(parse_chat_completion_response("{").is_none());
}

#[test]
fn chat_response_unescapes_strings() {
    let body = "{\"id\":\"a\\\"b\\\\c\\nd\\u0041e\",\"object\":\"o\",\"created\":0,\"model\":\"m\",\"choices\":[],\"usage\":{\"prompt_tokens\":0,\"total_tokens\":0}}";
    let r = parse_chat_completion_response(body).unwrap();
    assert_eq!(r.id, "a\"b\\c\ndAe");
}

#[test]
fn chat_response_lone_surrogate_escape_fails() {
    let body = "{\"id\":\"\\uD800\",\"object\":\"o\",\"created\":0,\"model\":\"m\",\"choices\":[],\"usage\":{\"prompt_tokens\":0,\"total_tokens\":0}}";
    assert!(parse_chat_completion_response(body).is_none());
}

#[test]
fn chat_response_u32_overflow_fails() {
    let body = "{\"id\":\"c\",\"object\":\"o\",\"created\":0,\"model\":\"m\",\"choices\":[],\"usage\":{\"prompt_tokens\":4294967296,\"total_tokens\":0}}";
    assert!(parse_chat_completion_response(body).is_none());
}

#[test]
fn chat_response_large_created_ok() {
    let body = "{\"id\":\"c\",\"object\":\"o\",\"created\":18446744073709551615,\"model\":\"m\",\"choices\":[],\"usage\":{\"prompt_tokens\":0,\"total_tokens\":0}}";
    let r = parse_chat_completion_response(body).unwrap();
    assert_eq!(r.created, u64::MAX);
    let over = "{\"id\":\"c\",\"object\":\"o\",\"created\":18446744073709551616,\"model\":\"m\",\"choices\":[],\"usage\":{\"prompt_tokens\":0,\"total_tokens\":0}}";
    assert!(parse_chat_completion_response(over).is_none());
}

#[test]
fn chunk_parses_with_delta_variants() {
    let body = "{\"id\":\"a\",\"object\":\"chat.completion.chunk\",\"created\":1,\"model\":\"m\",\"choices\":[{\"index\":0,\"delta\":{\"role\":\"assistant\",\"content\":\"He\"},\"finish_reason\":null}]}";
    let c = parse_chat_completion_chunk(body).unwrap();
    assert_eq!(c.id, "a");
    assert_eq!(c.choices[0].delta.role.as_deref(), Some("assistant"));
    assert_eq!(c.choices[0].delta.content.as_deref(), Some("He"));
    assert_eq!(c.choices[0].finish_reason, None);

    let only_content = "{\"id\":\"a\",\"object\":\"o\",\"created\":1,\"model\":\"m\",\"choices\":[{\"index\":0,\"delta\":{\"content\":\"x\"}}]}";
    let c = parse_chat_completion_chunk(only_content).unwrap();
    assert_eq!(c.choices[0].delta.role, None);
    assert_eq!(c.choices[0].delta.content.as_deref(), Some("x"));

    let empty_delta = "{\"id\":\"a\",\"object\":\"o\",\"created\":1,\"model\":\"m\",\"choices\":[{\"index\":0,\"delta\":{},\"finish_reason\":\"stop\"}]}";
    let c = parse_chat_completion_chunk(empty_delta).unwrap();
    assert_eq!(c.choices[0].delta.role, None);
    assert_eq!(c.choices[0].delta.content, None);
    assert_eq!(c.choices[0].finish_reason.as_deref(), Some("stop"));
}

#[test]
fn chunk_multiple_choices_in_order() {
    let body = "{\"id\":\"a\",\"object\":\"o\",\"created\":1,\"model\":\"m\",\"choices\":[{\"index\":0,\"delta\":{\"content\":\"x\"}},{\"index\":1,\"delta\":{\"content\":\"y\"}}]}";
    let c = parse_chat_completion_chunk(body).unwrap();
    assert_eq!(c.choices.len(), 2);
    assert_eq!(c.choices[0].index, 0);
    assert_eq!(c.choices[1].index, 1);
    assert_eq!(c.choices[1].delta.content.as_deref(), Some("y"));
}

#[test]
fn completion_response_minimal_and_full() {
    let r = parse_completion_response("{\"content\":\"The answer\"}").unwrap();
    assert_eq!(r.content, "The answer");
    assert_eq!(r.model, None);
    assert_eq!(r.stop, None);
    assert_eq!(r.tokens_predicted, None);
    assert_eq!(r.tokens_evaluated, None);

    let full = "{\"content\":\"c\",\"model\":\"m\",\"stop\":true,\"tokens_predicted\":3,\"tokens_evaluated\":4}";
    let r = parse_completion_response(full).unwrap();
    assert_eq!(r.model.as_deref(), Some("m"));
    assert_eq!(r.stop, Some(true));
    assert_eq!(r.tokens_predicted, Some(3));
    assert_eq!(r.tokens_evaluated, Some(4));
}

#[test]
fn embedding_response_keeps_number_tokens() {
    let body = "{\"object\":\"list\",\"data\":[{\"object\":\"embedding\",\"embedding\":[0.25,-1.5e-3,2],\"index\":0}],\"model\":\"m\",\"usage\":{\"prompt_tokens\":2,\"total_tokens\":2}}";
    let r = parse_embedding_response(body).unwrap();
    assert_eq!(r.object, "list");
    assert_eq!(r.data.len(), 1);
    assert_eq!(r.data[0].object, "embedding");
    assert_eq!(r.data[0].index, 0);
    assert_eq!(r.data[0].embedding, vec!["0.25", "-1.5e-3", "2"]);
    assert_eq!(r.usage.prompt_tokens, 2);
    let vals: Vec<f64> = r.data[0].embedding.iter().map(|t| t.parse().unwrap()).collect();
    assert_eq!(vals, vec![0.25, -0.0015, 2.0]);
}

#[test]
fn embedding_response_empty_vector() {
    let body = "{\"object\":\"list\",\"data\":[{\"object\":\"embedding\",\"embedding\":[],\"index\":0}],\"model\":\"m\",\"usage\":{\"prompt_tokens\":0,\"total_tokens\":0}}";
    let r = parse_embedding_response(body).unwrap();
    assert_eq!(r.data[0].embedding.len(), 0);
}

#[test]
fn chat_response_members_in_any_order() {
    let body = "{\"usage\":{\"total_tokens\":12,\"prompt_tokens\":5,\"completion_tokens\":7},\"object\":\"chat.completion\",\"id\":\"c1\",\"choices\":[{\"message\":{\"content\":\"hello\",\"role\":\"assistant\"},\"finish_reason\":\"stop\",\"index\":0}],\"model\":\"m\",\"created\":123}";
    let r = parse_chat_completion_response(body).unwrap();
    assert_eq!(r.id, "c1");
    assert_eq!(r.object, "chat.completion");
    assert_eq!(r.created, 123);
    assert_eq!(r.model, "m");
    assert_eq!(r.choices[0].index, 0);
    assert_eq!(r.choices[0].message.role, "assistant");
    assert_eq!(r.choices[0].message.content, "hello");
    assert_eq!(r.choices[0].finish_reason.as_deref(), Some("stop"));
    assert_eq!(r.usage.prompt_tokens, 5);
    assert_eq!(r.usage.completion_tokens, Some(7));
    assert_eq!(r.usage.total_tokens, 12);
}

#[test]
fn unknown_members_are_skipped() {
    let body = "{\"id\":\"c\",\"system_fingerprint\":\"fp_44709d6fcb\",\"object\":\"o\",\"created\":1,\"timings\":{\"prompt_n\":1,\"predicted_ms\":2.5,\"nested\":{\"a\":[1,true,null,\"x\"]}},\"model\":\"m\",\"choices\":[],\"logprobs\":null,\"usage\":{\"prompt_tokens\":1,\"extra\":[],\"total_tokens\":1}}";
    let r = parse_chat_completion_response(body).unwrap();
    assert_eq!(r.id, "c");
    assert_eq!(r.usage.total_tokens, 1);
    assert_eq!(r.usage.completion_tokens, None);
}

#[test]
fn duplicate_member_fails() {
    let body = "{\"id\":\"a\",\"id\":\"b\",\"object\":\"o\",\"created\":1,\"model\":\"m\",\"choices\":[],\"usage\":{\"prompt_tokens\":1,\"total_tokens\":1}}";
    assert!(parse_chat_completion_response(body).is_none());
}

#[test]
fn leading_zero_number_fails() {
    let body = "{\"id\":\"c\",\"object\":\"o\",\"created\":01,\"model\":\"m\",\"choices\":[],\"usage\":{\"prompt_tokens\":0,\"total_tokens\":0}}";
    assert!(parse_chat_completion_response(body).is_none());
    let zero = "{\"id\":\"c\",\"object\":\"o\",\"created\":0,\"model\":\"m\",\"choices\":[],\"usage\":{\"prompt_tokens\":0,\"total_tokens\":0}}";
    assert!(parse_chat_completion_response(zero).is_some());
}

#[test]
fn raw_control_character_in_string_fails() {
    let body = "{\"id\":\"a\nb\",\"object\":\"o\",\"created\":0,\"model\":\"m\",\"choices\":[],\"usage\":{\"prompt_tokens\":0,\"total_tokens\":0}}";
    assert!(parse_chat_completion_response(body).is_none());
}

#[test]
fn surrogate_pair_escape_parses() {
    let body = "{\"id\":\"\\uD83D\\uDE00\",\"object\":\"o\",\"created\":0,\"model\":\"m\",\"choices\":[],\"usage\":{\"prompt_tokens\":0,\"total_tokens\":0}}";
    let r = parse_chat_completion_response(body).unwrap();
    assert_eq!(r.id, "\u{1F600}");
    let swapped = "{\"id\":\"\\uDE00\\uD83D\",\"object\":\"o\",\"created\":0,\"model\":\"m\",\"choices\":[],\"usage\":{\"prompt_tokens\":0,\"total_tokens\":0}}";
    assert!(parse_chat_completion_response(swapped).is_none());
}

#[test]
fn completion_members_in_any_order_with_extras() {
    let body = "{\"model\":\"m\",\"tokens_evaluated\":4,\"content\":\"c\",\"stop_type\":\"eos\",\"stop\":true}";
    let r = parse_completion_response(body).unwrap();
    assert_eq!(r.content, "c");
    assert_eq!(r.model.as_deref(), Some("m"));
    assert_eq!(r.stop, Some(true));
    assert_eq!(r.tokens_predicted, None);
    assert_eq!(r.tokens_evaluated, Some(4));
}

#[test]
fn embedding_members_in_any_order() {
    let body = "{\"model\":\"m\",\"usage\":{\"prompt_tokens\":2,\"total_tokens\":2},\"object\":\"list\",\"data\":[{\"index\":0,\"object\":\"embedding\",\"embedding\":[0.25]}]}";
    let r = parse_embedding_response(body).unwrap();
    assert_eq!(r.object, "list");
    assert_eq!(r.data[0].embedding, vec!["0.25"]);
}
