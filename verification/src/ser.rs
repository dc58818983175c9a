//! Request payload construction: the exact JSON text sent for each
//! request type, with unset optional fields omitted entirely.

use vstd::prelude::*;
use vstd::string::StringExecFns;
use crate::text::{esc_str, dec_of, push_escaped, string_from_chars, dec_u64, digit_char_x};
use crate::model::{
    Decimal, dec3_of, Message, MessageV, ChatCompletionRequest, CompletionRequest,
    EmbeddingRequest,
};

verus! {

/// A JSON string literal: the escaped text between quotes.
pub open spec fn ser_string(s: Seq<char>) -> Seq<char> {
    seq!['"'] + esc_str(s) + seq!['"']
}

/// One message as a JSON object.
pub open spec fn ser_message(m: MessageV) -> Seq<char> {
    "{\"role\":"@ + ser_string(m.role) + ",\"content\":"@ + ser_string(m.content) + seq!['}']
}

/// Messages joined by commas.
pub open spec fn ser_messages_items(ms: Seq<MessageV>) -> Seq<char>
    decreases ms.len(),
{
    if ms.len() == 0 {
        Seq::empty()
    } else if ms.len() == 1 {
        ser_message(ms[0])
    } else {
        ser_messages_items(ms.drop_last()) + seq![','] + ser_message(ms.last())
    }
}

/// The message list as a JSON array.
pub open spec fn ser_messages(ms: Seq<MessageV>) -> Seq<char> {
    seq!['['] + ser_messages_items(ms) + seq![']']
}

/// String literals joined by commas.
pub open spec fn ser_strings_items(ss: Seq<Seq<char>>) -> Seq<char>
    decreases ss.len(),
{
    if ss.len() == 0 {
        Seq::empty()
    } else if ss.len() == 1 {
        ser_string(ss[0])
    } else {
        ser_strings_items(ss.drop_last()) + seq![','] + ser_string(ss.last())
    }
}

/// The stop strings as a JSON array.
pub open spec fn ser_stop_list(ss: Seq<Seq<char>>) -> Seq<char> {
    seq!['['] + ser_strings_items(ss) + seq![']']
}

/// The `temperature` member, present exactly while the field is set.
pub open spec fn seg_temperature(o: Option<Decimal>) -> Seq<char> {
    match o {
        Option::None => Seq::empty(),
        Option::Some(t) => ",\"temperature\":"@ + dec3_of(t),
    }
}

/// The `max_tokens` member, present exactly while the field is set.
pub open spec fn seg_max_tokens(o: Option<u32>) -> Seq<char> {
    match o {
        Option::None => Seq::empty(),
        Option::Some(n) => ",\"max_tokens\":"@ + dec_of(n as nat),
    }
}

/// The `top_p` member, present exactly while the field is set.
pub open spec fn seg_top_p(o: Option<Decimal>) -> Seq<char> {
    match o {
        Option::None => Seq::empty(),
        Option::Some(t) => ",\"top_p\":"@ + dec3_of(t),
    }
}

/// The `stream` member, present exactly while the field is set.
pub open spec fn seg_stream(o: Option<bool>) -> Seq<char> {
    match o {
        Option::None => Seq::empty(),
        Option::Some(b) => ",\"stream\":"@ + (if b { "true"@ } else { "false"@ }),
    }
}

/// The `stop` member, present exactly while the field is set.
pub open spec fn seg_stop(o: Option<Seq<Seq<char>>>) -> Seq<char> {
    match o {
        Option::None => Seq::empty(),
        Option::Some(ss) => ",\"stop\":"@ + ser_stop_list(ss),
    }
}

/// The payload of a chat completion request: the required `model` and
/// `messages` members, then one member per optional field that is set,
/// in a fixed order, and nothing else.
pub open spec fn ser_chat_request(r: ChatCompletionRequest) -> Seq<char> {
    "{\"model\":"@ + ser_string(r.model@)
        + ",\"messages\":"@ + ser_messages(r.messages.deep_view())
        + seg_temperature(r.temperature)
        + seg_max_tokens(r.max_tokens)
        + seg_top_p(r.top_p)
        + seg_stream(r.stream)
        + seg_stop(r.stop.deep_view())
        + seq!['}']
}

/// The payload of a text completion request.
pub open spec fn ser_completion_request(r: CompletionRequest) -> Seq<char> {
    "{\"model\":"@ + ser_string(r.model@)
        + ",\"prompt\":"@ + ser_string(r.prompt@)
        + seg_temperature(r.temperature)
        + seg_max_tokens(r.max_tokens)
        + seg_stream(r.stream)
        + seq!['}']
}

/// The payload of an embedding request.
pub open spec fn ser_embedding_request(r: EmbeddingRequest) -> Seq<char> {
    "{\"model\":"@ + ser_string(r.model@) + ",\"input\":"@ + ser_string(r.input@) + seq!['}']
}

/// The JSON string literal for `s`: quotes around the escaped text.
fn json_string_of(s: &str) -> (r: String)
    ensures
        r@ == ser_string(s@),
{
    let mut buf: Vec<char> = Vec::new();
    buf.push('"');
    push_escaped(&mut buf, s);
    buf.push('"');
    assert(buf@ =~= ser_string(s@));
    string_from_chars(&buf)
}

/// The canonical decimal form of `n`.
fn dec_string_of(n: u64) -> (r: String)
    ensures
        r@ == dec_of(n as nat),
{
    let digits = dec_u64(n);
    string_from_chars(&digits)
}

/// The number token of a `Decimal`.
fn decimal_string_of(d: Decimal) -> (r: String)
    requires
        d.wf(),
    ensures
        r@ == dec3_of(d),
{
    let mut buf = dec_u64(d.units as u64);
    buf.push('.');
    buf.push(digit_char_x((d.millis / 100) as u64));
    buf.push(digit_char_x(((d.millis / 10) % 10) as u64));
    buf.push(digit_char_x((d.millis % 10) as u64));
    assert(buf@ =~= dec3_of(d));
    string_from_chars(&buf)
}

/// One message as a JSON object.
fn message_json(m: &Message) -> (r: String)
    ensures
        r@ == ser_message(m@),
{
    let mut out = String::new();
    out.append("{\"role\":");
    out.append(json_string_of(m.role.as_str()).as_str());
    out.append(",\"content\":");
    out.append(json_string_of(m.content.as_str()).as_str());
    out.append("}");
    proof {
        reveal_strlit("}");
        assert(out@ =~= ser_message(m@));
    }
    out
}

/// The message list as a JSON array.
fn messages_json(ms: &Vec<Message>) -> (r: String)
    ensures
        r@ == ser_messages(ms.deep_view()),
{
    let mut out = String::new();
    out.append("[");
    proof {
        reveal_strlit("[");
        assert(out@ =~= seq!['[']);
    }
    let mut i: usize = 0;
    while i < ms.len()
        invariant
            i <= ms.len(),
            out@ == seq!['['] + ser_messages_items(ms.deep_view().take(i as int)),
        decreases ms.len() - i,
    {
        if i > 0 {
            out.append(",");
        }
        let seg = message_json(&ms[i]);
        out.append(seg.as_str());
        proof {
            reveal_strlit("[");
            reveal_strlit(",");
            let mv = ms.deep_view();
            assert(mv.take(i as int + 1).drop_last() =~= mv.take(i as int));
            assert(mv.take(i as int + 1).last() == mv[i as int]);
            assert(mv[i as int] == ms[i as int]@);
            assert(seg@ == ser_message(mv[i as int]));
            assert(","@ == seq![',']);
            if i == 0 {
                assert(ser_messages_items(mv.take(1)) == ser_message(mv.take(1)[0]));
                assert(out@ == (seq!['['] + ser_messages_items(mv.take(0))) + seg@);
                assert(ser_messages_items(mv.take(0)) == Seq::<char>::empty());
            } else {
                assert(ser_messages_items(mv.take(i as int + 1)) == ser_messages_items(
                    mv.take(i as int)) + seq![','] + ser_message(mv[i as int]));
                assert(out@ == ((seq!['['] + ser_messages_items(mv.take(i as int))) + ","@)
                    + seg@);
            }
            assert(out@ =~= seq!['['] + ser_messages_items(mv.take(i as int + 1)));
        }
        i = i + 1;
    }
    assert(ms.deep_view().take(ms.len() as int) =~= ms.deep_view());
    out.append("]");
    proof {
        reveal_strlit("[");
        reveal_strlit("]");
        assert(out@ =~= ser_messages(ms.deep_view()));
    }
    out
}

/// The stop strings as a JSON array.
fn stop_list_json(ss: &Vec<String>) -> (r: String)
    ensures
        r@ == ser_stop_list(ss.deep_view()),
{
    let mut out = String::new();
    out.append("[");
    proof {
        reveal_strlit("[");
        assert(out@ =~= seq!['[']);
    }
    let mut i: usize = 0;
    while i < ss.len()
        invariant
            i <= ss.len(),
            out@ == seq!['['] + ser_strings_items(ss.deep_view().take(i as int)),
        decreases ss.len() - i,
    {
        if i > 0 {
            out.append(",");
        }
        let seg = json_string_of(ss[i].as_str());
        out.append(seg.as_str());
        proof {
            reveal_strlit("[");
            reveal_strlit(",");
            let sv = ss.deep_view();
            assert(sv.take(i + 1 as int).drop_last() =~= sv.take(i as int));
            assert(sv.take(i + 1 as int).last() == sv[i as int]);
            assert(sv[i as int] == ss[i as int]@);
            if i == 0 {
                assert(ser_strings_items(sv.take(1)) == ser_string(sv.take(1)[0]));
            }
            assert(out@ =~= seq!['['] + ser_strings_items(sv.take(i + 1 as int)));
        }
        i = i + 1;
    }
    assert(ss.deep_view().take(ss.len() as int) =~= ss.deep_view());
    out.append("]");
    proof {
        reveal_strlit("[");
        reveal_strlit("]");
        assert(out@ =~= ser_stop_list(ss.deep_view()));
    }
    out
}

/// The JSON payload sent for a chat completion request.
#[verifier::rlimit(100)]
pub fn chat_completion_payload(r: &ChatCompletionRequest) -> (p: String)
    requires
        r.wf(),
    ensures
        p@ == ser_chat_request(*r),
{
    let mut out = String::new();
    out.append("{\"model\":");
    out.append(json_string_of(r.model.as_str()).as_str());
    out.append(",\"messages\":");
    out.append(messages_json(&r.messages).as_str());
    assert(out@ =~= "{\"model\":"@ + ser_string(r.model@) + ",\"messages\":"@
        + ser_messages(r.messages.deep_view()));
    match &r.temperature {
        Option::Some(t) => {
            out.append(",\"temperature\":");
            out.append(decimal_string_of(*t).as_str());
        },
        Option::None => {},
    }
    assert(out@ =~= "{\"model\":"@ + ser_string(r.model@) + ",\"messages\":"@
        + ser_messages(r.messages.deep_view()) + seg_temperature(r.temperature));
    match &r.max_tokens {
        Option::Some(n) => {
            out.append(",\"max_tokens\":");
            out.append(dec_string_of(*n as u64).as_str());
        },
        Option::None => {},
    }
    assert(out@ =~= "{\"model\":"@ + ser_string(r.model@) + ",\"messages\":"@
        + ser_messages(r.messages.deep_view()) + seg_temperature(r.temperature)
        + seg_max_tokens(r.max_tokens));
    match &r.top_p {
        Option::Some(t) => {
            out.append(",\"top_p\":");
            out.append(decimal_string_of(*t).as_str());
        },
        Option::None => {},
    }
    assert(out@ =~= "{\"model\":"@ + ser_string(r.model@) + ",\"messages\":"@
        + ser_messages(r.messages.deep_view()) + seg_temperature(r.temperature)
        + seg_max_tokens(r.max_tokens) + seg_top_p(r.top_p));
    match &r.stream {
        Option::Some(b) => {
            out.append(",\"stream\":");
            if *b {
                out.append("true");
            } else {
                out.append("false");
            }
        },
        Option::None => {},
    }
    assert(out@ =~= "{\"model\":"@ + ser_string(r.model@) + ",\"messages\":"@
        + ser_messages(r.messages.deep_view()) + seg_temperature(r.temperature)
        + seg_max_tokens(r.max_tokens) + seg_top_p(r.top_p) + seg_stream(r.stream));
    match &r.stop {
        Option::Some(ss) => {
            out.append(",\"stop\":");
            out.append(stop_list_json(ss).as_str());
        },
        Option::None => {},
    }
    assert(out@ =~= "{\"model\":"@ + ser_string(r.model@) + ",\"messages\":"@
        + ser_messages(r.messages.deep_view()) + seg_temperature(r.temperature)
        + seg_max_tokens(r.max_tokens) + seg_top_p(r.top_p) + seg_stream(r.stream)
        + seg_stop(r.stop.deep_view()));
    out.append("}");
    proof {
        reveal_strlit("}");
        assert(out@ =~= ser_chat_request(*r));
    }
    out
}

/// The JSON payload sent for a text completion request.
#[verifier::rlimit(100)]
pub fn completion_payload(r: &CompletionRequest) -> (p: String)
    requires
        r.wf(),
    ensures
        p@ == ser_completion_request(*r),
{
    let mut out = String::new();
    out.append("{\"model\":");
    out.append(json_string_of(r.model.as_str()).as_str());
    out.append(",\"prompt\":");
    out.append(json_string_of(r.prompt.as_str()).as_str());
    assert(out@ =~= "{\"model\":"@ + ser_string(r.model@) + ",\"prompt\":"@
        + ser_string(r.prompt@));
    match &r.temperature {
        Option::Some(t) => {
            out.append(",\"temperature\":");
            out.append(decimal_string_of(*t).as_str());
        },
        Option::None => {},
    }
    assert(out@ =~= "{\"model\":"@ + ser_string(r.model@) + ",\"prompt\":"@
        + ser_string(r.prompt@) + seg_temperature(r.temperature));
    match &r.max_tokens {
        Option::Some(n) => {
            out.append(",\"max_tokens\":");
            out.append(dec_string_of(*n as u64).as_str());
        },
        Option::None => {},
    }
    assert(out@ =~= "{\"model\":"@ + ser_string(r.model@) + ",\"prompt\":"@
        + ser_string(r.prompt@) + seg_temperature(r.temperature)
        + seg_max_tokens(r.max_tokens));
    match &r.stream {
        Option::Some(b) => {
            out.append(",\"stream\":");
            if *b {
                out.append("true");
            } else {
                out.append("false");
            }
        },
        Option::None => {},
    }
    assert(out@ =~= "{\"model\":"@ + ser_string(r.model@) + ",\"prompt\":"@
        + ser_string(r.prompt@) + seg_temperature(r.temperature)
        + seg_max_tokens(r.max_tokens) + seg_stream(r.stream));
    out.append("}");
    proof {
        reveal_strlit("}");
        assert(out@ =~= ser_completion_request(*r));
    }
    out
}

/// The JSON payload sent for an embedding request.
pub fn embedding_payload(r: &EmbeddingRequest) -> (p: String)
    ensures
        p@ == ser_embedding_request(*r),
{
    let mut out = String::new();
    out.append("{\"model\":");
    out.append(json_string_of(r.model.as_str()).as_str());
    out.append(",\"input\":");
    out.append(json_string_of(r.input.as_str()).as_str());
    out.append("}");
    proof {
        reveal_strlit("}");
        assert(out@ =~= ser_embedding_request(*r));
    }
    out
}

/// With only the required fields set, the chat payload is exactly the
/// object holding `model` and `messages`: every optional member is
/// omitted.
pub proof fn lemma_chat_payload_omits_unset(r: ChatCompletionRequest)
    requires
        r.temperature is None,
        r.max_tokens is None,
        r.top_p is None,
        r.stream is None,
        r.stop is None,
    ensures
        ser_chat_request(r) == "{\"model\":"@ + ser_string(r.model@) + ",\"messages\":"@
            + ser_messages(r.messages.deep_view()) + seq!['}'],
{
    assert(ser_chat_request(r) =~= "{\"model\":"@ + ser_string(r.model@) + ",\"messages\":"@
        + ser_messages(r.messages.deep_view()) + seq!['}']);
}

/// With only the required fields set, the completion payload is exactly
/// the object holding `model` and `prompt`.
pub proof fn lemma_completion_payload_omits_unset(r: CompletionRequest)
    requires
        r.temperature is None,
        r.max_tokens is None,
        r.stream is None,
    ensures
        ser_completion_request(r) == "{\"model\":"@ + ser_string(r.model@) + ",\"prompt\":"@
            + ser_string(r.prompt@) + seq!['}'],
{
    assert(ser_completion_request(r) =~= "{\"model\":"@ + ser_string(r.model@) + ",\"prompt\":"@
        + ser_string(r.prompt@) + seq!['}']);
}

/// A set optional field stands in the payload as its own member with
/// exactly the assigned value, between the members that surround it.
#[verifier::rlimit(100)]
pub proof fn lemma_chat_payload_includes_set(r: ChatCompletionRequest)
    ensures
        r.temperature matches Some(t) ==> ser_chat_request(r) == ("{\"model\":"@
            + ser_string(r.model@) + ",\"messages\":"@ + ser_messages(r.messages.deep_view()))
            + (",\"temperature\":"@ + dec3_of(t))
            + (seg_max_tokens(r.max_tokens) + seg_top_p(r.top_p) + seg_stream(r.stream)
                + seg_stop(r.stop.deep_view()) + seq!['}']),
        r.max_tokens matches Some(n) ==> ser_chat_request(r) == ("{\"model\":"@
            + ser_string(r.model@) + ",\"messages\":"@ + ser_messages(r.messages.deep_view())
            + seg_temperature(r.temperature))
            + (",\"max_tokens\":"@ + dec_of(n as nat))
            + (seg_top_p(r.top_p) + seg_stream(r.stream) + seg_stop(r.stop.deep_view())
                + seq!['}']),
        r.top_p matches Some(t) ==> ser_chat_request(r) == ("{\"model\":"@
            + ser_string(r.model@) + ",\"messages\":"@ + ser_messages(r.messages.deep_view())
            + seg_temperature(r.temperature) + seg_max_tokens(r.max_tokens))
            + (",\"top_p\":"@ + dec3_of(t))
            + (seg_stream(r.stream) + seg_stop(r.stop.deep_view()) + seq!['}']),
        r.stream matches Some(b) ==> ser_chat_request(r) == ("{\"model\":"@
            + ser_string(r.model@) + ",\"messages\":"@ + ser_messages(r.messages.deep_view())
            + seg_temperature(r.temperature) + seg_max_tokens(r.max_tokens)
            + seg_top_p(r.top_p))
            + (",\"stream\":"@ + (if b { "true"@ } else { "false"@ }))
            + (seg_stop(r.stop.deep_view()) + seq!['}']),
        r.stop matches Some(ss) ==> ser_chat_request(r) == ("{\"model\":"@
            + ser_string(r.model@) + ",\"messages\":"@ + ser_messages(r.messages.deep_view())
            + seg_temperature(r.temperature) + seg_max_tokens(r.max_tokens)
            + seg_top_p(r.top_p) + seg_stream(r.stream))
            + (",\"stop\":"@ + ser_stop_list(ss.deep_view()))
            + seq!['}'],
{
    if let Some(t) = r.temperature {
        assert(ser_chat_request(r) =~= ("{\"model\":"@ + ser_string(r.model@)
            + ",\"messages\":"@ + ser_messages(r.messages.deep_view()))
            + (",\"temperature\":"@ + dec3_of(t))
            + (seg_max_tokens(r.max_tokens) + seg_top_p(r.top_p) + seg_stream(r.stream)
                + seg_stop(r.stop.deep_view()) + seq!['}']));
    }
    if let Some(n) = r.max_tokens {
        assert(ser_chat_request(r) =~= ("{\"model\":"@ + ser_string(r.model@)
            + ",\"messages\":"@ + ser_messages(r.messages.deep_view())
            + seg_temperature(r.temperature))
            + (",\"max_tokens\":"@ + dec_of(n as nat))
            + (seg_top_p(r.top_p) + seg_stream(r.stream) + seg_stop(r.stop.deep_view())
                + seq!['}']));
    }
    if let Some(t) = r.top_p {
        assert(ser_chat_request(r) =~= ("{\"model\":"@ + ser_string(r.model@)
            + ",\"messages\":"@ + ser_messages(r.messages.deep_view())
            + seg_temperature(r.temperature) + seg_max_tokens(r.max_tokens))
            + (",\"top_p\":"@ + dec3_of(t))
            + (seg_stream(r.stream) + seg_stop(r.stop.deep_view()) + seq!['}']));
    }
    if let Some(b) = r.stream {
        assert(ser_chat_request(r) =~= ("{\"model\":"@ + ser_string(r.model@)
            + ",\"messages\":"@ + ser_messages(r.messages.deep_view())
            + seg_temperature(r.temperature) + seg_max_tokens(r.max_tokens)
            + seg_top_p(r.top_p))
            + (",\"stream\":"@ + (if b { "true"@ } else { "false"@ }))
            + (seg_stop(r.stop.deep_view()) + seq!['}']));
    }
    if let Some(ss) = r.stop {
        assert(ser_chat_request(r) =~= ("{\"model\":"@ + ser_string(r.model@)
            + ",\"messages\":"@ + ser_messages(r.messages.deep_view())
            + seg_temperature(r.temperature) + seg_max_tokens(r.max_tokens)
            + seg_top_p(r.top_p) + seg_stream(r.stream))
            + (",\"stop\":"@ + ser_stop_list(ss.deep_view()))
            + seq!['}']);
    }
}

} // verus!
