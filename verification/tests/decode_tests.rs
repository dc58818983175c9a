use llama_client::sse::{decode_read, decode_reads, decode_text, DecodeError};

const CHUNK_A: &str = "{\"id\":\"a\",\"object\":\"chat.completion.chunk\",\"created\":1,\"model\":\"m\",\"choices\":[{\"index\":0,\"delta\":{\"content\":\"He\"}}]}";
const CHUNK_B: &str = "{\"id\":\"b\",\"object\":\"chat.completion.chunk\",\"created\":2,\"model\":\"m\",\"choices\":[{\"index\":0,\"delta\":{\"content\":\"llo\"}}]}";

fn read_of(line: &str) -> Vec<u8> {
    format!("data: {}\n", line).into_bytes()
}

#[test]
fn valid_data_line_yields_one_chunk() {
    let c = decode_read(&read_of(CHUNK_A)).unwrap();
    assert_eq!(c.id, "a");
    assert_eq!(c.object, "chat.completion.chunk");
    assert_eq!(c.created, 1);
    assert_eq!(c.model, "m");
    assert_eq!(c.choices.len(), 1);
    assert_eq!(c.choices[0].delta.content.as_deref(), Some("He"));
}

#[test]
fn done_line_yields_no_data_failure() {
    let r = decode_read(&b"data: [DONE]\n".to_vec());
    assert!(matches!(r, Err(DecodeError::NoData)));
    // One element per read: a session of just this read has length one.
    let session = decode_reads(&vec![b"data: [DONE]\n".to_vec()]);
    assert_eq!(session.len(), 1);
    assert!(matches!(session[0], Err(DecodeError::NoData)));
}

#[test]
fn two_reads_yield_two_chunks_in_order() {
    let reads = vec![read_of(CHUNK_A), read_of(CHUNK_B)];
    let out = decode_reads(&reads);
    assert_eq!(out.len(), 2);
    assert_eq!(out[0].as_ref().unwrap().id, "a");
    assert_eq!(out[1].as_ref().unwrap().id, "b");
}

#[test]
fn invalid_utf8_is_replaced_and_scan_continues() {
    let mut bytes = vec![0xFF, 0xFE, b'\n'];
    bytes.extend_from_slice(format!("data: {}\n", CHUNK_A).as_bytes());
    let c = decode_read(&bytes).unwrap();
    assert_eq!(c.id, "a");
}

#[test]
fn invalid_utf8_inside_payload_fails_without_panic() {
    let mut bytes = b"data: {\"id\":\"".to_vec();
    bytes.push(0xFF);
    bytes.extend_from_slice(b"\"}\n");
    let r = decode_read(&bytes);
    assert!(matches!(r, Err(DecodeError::MalformedChunk)));
}

#[test]
fn non_data_lines_are_ignored() {
    let text = format!(": comment\nevent: message\n\ndata: {}\n", CHUNK_A);
    let c = decode_read(&text.into_bytes()).unwrap();
    assert_eq!(c.id, "a");
}

#[test]
fn done_then_data_in_one_read_surfaces_the_data() {
    let text = format!("data: [DONE]\ndata: {}\n", CHUNK_A);
    let c = decode_read(&text.into_bytes()).unwrap();
    assert_eq!(c.id, "a");
}

#[test]
fn only_first_data_line_of_a_read_is_surfaced() {
    let text = format!("data: {}\ndata: {}\n", CHUNK_A, CHUNK_B);
    let c = decode_read(&text.into_bytes()).unwrap();
    assert_eq!(c.id, "a");
}

#[test]
fn crlf_line_endings_are_accepted() {
    let text = format!("data: {}\r\n", CHUNK_A);
    let c = decode_read(&text.into_bytes()).unwrap();
    assert_eq!(c.id, "a");
}

#[test]
fn read_without_data_line_yields_no_data() {
    assert!(matches!(decode_read(&b"".to_vec()), Err(DecodeError::NoData)));
    assert!(matches!(decode_read(&b"\n\n".to_vec()), Err(DecodeError::NoData)));
    assert!(matches!(
        decode_read(&b"event: ping\n".to_vec()),
        Err(DecodeError::NoData)
    ));
}

#[test]
fn malformed_payload_yields_malformed_chunk() {
    assert!(matches!(
        decode_read(&b"data: {\"id\":}\n".to_vec()),
        Err(DecodeError::MalformedChunk)
    ));
}

#[test]
fn data_line_without_trailing_newline_is_found() {
    let text = format!("data: {}", CHUNK_A);
    let c = decode_text(&text).unwrap();
    assert_eq!(c.id, "a");
}

#[test]
fn prefix_must_match_exactly() {
    let text = format!("data:{}\n", CHUNK_A);
    assert!(matches!(decode_text(&text), Err(DecodeError::NoData)));
}

#[test]
fn chunk_members_in_any_order_with_extras() {
    let line = "{\"created\":1,\"choices\":[{\"delta\":{\"content\":\"x\"},\"index\":0}],\"model\":\"m\",\"object\":\"o\",\"id\":\"a\",\"system_fingerprint\":null}";
    let c = decode_read(&format!("data: {}\n", line).into_bytes()).unwrap();
    assert_eq!(c.id, "a");
    assert_eq!(c.choices[0].delta.content.as_deref(), Some("x"));
}
