//! Request and response shapes for the chat, completion and embedding
//! endpoints, with fluent builders for the request types.

use vstd::prelude::*;
use crate::text::{dec_of, digit_char};

verus! {

/// A fixed-point number with three fractional digits, standing in for
/// the sampling knobs (temperature, nucleus threshold) that the wire
/// format carries as JSON numbers. The value is `units + millis/1000`.
#[derive(Clone, Copy, Debug, PartialEq, Eq, Structural)]
pub struct Decimal {
    pub units: u32,
    pub millis: u32,
}

impl Decimal {
    pub open spec fn wf(self) -> bool {
        self.millis < 1000
    }

    pub fn new(units: u32, millis: u32) -> (r: Decimal)
        requires
            millis < 1000,
        ensures
            r == (Decimal { units, millis }),
            r.wf(),
    {
        Decimal { units, millis }
    }
}

/// The JSON number token for a `Decimal`: the units in canonical
/// decimal, a point, and exactly three fractional digits.
pub open spec fn dec3_of(d: Decimal) -> Seq<char> {
    dec_of(d.units as nat) + seq![
        '.',
        digit_char(d.millis as int / 100),
        digit_char((d.millis as int / 10) % 10),
        digit_char(d.millis as int % 10),
    ]
}

/// One chat message: a role (`system`, `user` or `assistant`) and its text.
#[derive(Clone, Debug)]
pub struct Message {
    pub role: String,
    pub content: String,
}

pub struct MessageV {
    pub role: Seq<char>,
    pub content: Seq<char>,
}

impl View for Message {
    type V = MessageV;

    open spec fn view(&self) -> MessageV {
        MessageV { role: self.role@, content: self.content@ }
    }
}

impl DeepView for Message {
    type V = MessageV;

    open spec fn deep_view(&self) -> MessageV {
        self.view()
    }
}

impl Message {
    /// A message with the `system` role.
    pub fn system(content: String) -> (r: Message)
        ensures
            r.role@ == "system"@,
            r.content == content,
    {
        Message { role: "system".to_owned(), content }
    }

    /// A message with the `user` role.
    pub fn user(content: String) -> (r: Message)
        ensures
            r.role@ == "user"@,
            r.content == content,
    {
        Message { role: "user".to_owned(), content }
    }

    /// A message with the `assistant` role.
    pub fn assistant(content: String) -> (r: Message)
        ensures
            r.role@ == "assistant"@,
            r.content == content,
    {
        Message { role: "assistant".to_owned(), content }
    }
}

/// A chat completion request. Only the model and the messages are
/// always sent; every other field is omitted from the payload while
/// it is unset.
#[derive(Clone, Debug)]
pub struct ChatCompletionRequest {
    pub model: String,
    pub messages: Vec<Message>,
    pub temperature: Option<Decimal>,
    pub max_tokens: Option<u32>,
    pub top_p: Option<Decimal>,
    pub stream: Option<bool>,
    pub stop: Option<Vec<String>>,
}

impl ChatCompletionRequest {
    /// All sampling knobs of the request are well formed.
    pub open spec fn wf(self) -> bool {
        &&& (self.temperature matches Some(t) ==> t.wf())
        &&& (self.top_p matches Some(t) ==> t.wf())
    }

    /// Whether the sampling knobs are well formed, decided at run time
    /// for callers outside the verified library.
    pub fn check_wf(&self) -> (r: bool)
        ensures
            r == self.wf(),
    {
        let t_ok = match &self.temperature {
            Some(t) => t.millis < 1000,
            None => true,
        };
        let p_ok = match &self.top_p {
            Some(t) => t.millis < 1000,
            None => true,
        };
        t_ok && p_ok
    }

    /// A request for the given model with no messages and every
    /// optional field unset.
    pub fn new(model: String) -> (r: Self)
        ensures
            r.model == model,
            r.messages@ == Seq::<Message>::empty(),
            r.temperature is None,
            r.max_tokens is None,
            r.top_p is None,
            r.stream is None,
            r.stop is None,
            r.wf(),
    {
        ChatCompletionRequest {
            model,
            messages: Vec::new(),
            temperature: None,
            max_tokens: None,
            top_p: None,
            stream: None,
            stop: None,
        }
    }

    /// Append one message.
    pub fn message(self, message: Message) -> (r: Self)
        ensures
            r.messages@ == self.messages@.push(message),
            r.model == self.model,
            r.temperature == self.temperature,
            r.max_tokens == self.max_tokens,
            r.top_p == self.top_p,
            r.stream == self.stream,
            r.stop == self.stop,
    {
        let mut s = self;
        s.messages.push(message);
        s
    }

    /// Replace the whole message list.
    pub fn messages(self, messages: Vec<Message>) -> (r: Self)
        ensures
            r.messages == messages,
            r.model == self.model,
            r.temperature == self.temperature,
            r.max_tokens == self.max_tokens,
            r.top_p == self.top_p,
            r.stream == self.stream,
            r.stop == self.stop,
    {
        let mut s = self;
        s.messages = messages;
        s
    }

    /// Set the sampling temperature.
    pub fn temperature(self, temperature: Decimal) -> (r: Self)
        requires
            temperature.wf(),
        ensures
            r == (ChatCompletionRequest { temperature: Some(temperature), ..self }),
    {
        let mut s = self;
        s.temperature = Some(temperature);
        s
    }

    /// Set the completion length bound.
    pub fn max_tokens(self, max_tokens: u32) -> (r: Self)
        ensures
            r == (ChatCompletionRequest { max_tokens: Some(max_tokens), ..self }),
    {
        let mut s = self;
        s.max_tokens = Some(max_tokens);
        s
    }

    /// Set the nucleus sampling threshold.
    pub fn top_p(self, top_p: Decimal) -> (r: Self)
        requires
            top_p.wf(),
        ensures
            r == (ChatCompletionRequest { top_p: Some(top_p), ..self }),
    {
        let mut s = self;
        s.top_p = Some(top_p);
        s
    }

    /// Ask for (or decline) a streamed response.
    pub fn stream(self, stream: bool) -> (r: Self)
        ensures
            r == (ChatCompletionRequest { stream: Some(stream), ..self }),
    {
        let mut s = self;
        s.stream = Some(stream);
        s
    }

    /// Set the stop strings.
    pub fn stop(self, stop: Vec<String>) -> (r: Self)
        ensures
            r == (ChatCompletionRequest { stop: Some(stop), ..self }),
    {
        let mut s = self;
        s.stop = Some(stop);
        s
    }
}

/// A plain text completion request.
#[derive(Clone, Debug)]
pub struct CompletionRequest {
    pub model: String,
    pub prompt: String,
    pub temperature: Option<Decimal>,
    pub max_tokens: Option<u32>,
    pub stream: Option<bool>,
}

impl CompletionRequest {
    pub open spec fn wf(self) -> bool {
        self.temperature matches Some(t) ==> t.wf()
    }

    /// Whether the sampling knobs are well formed, decided at run time
    /// for callers outside the verified library.
    pub fn check_wf(&self) -> (r: bool)
        ensures
            r == self.wf(),
    {
        match &self.temperature {
            Some(t) => t.millis < 1000,
            None => true,
        }
    }

    /// A request for the given model and prompt with every optional
    /// field unset.
    pub fn new(model: String, prompt: String) -> (r: Self)
        ensures
            r.model == model,
            r.prompt == prompt,
            r.temperature is None,
            r.max_tokens is None,
            r.stream is None,
            r.wf(),
    {
        CompletionRequest { model, prompt, temperature: None, max_tokens: None, stream: None }
    }

    /// Set the sampling temperature.
    pub fn temperature(self, temperature: Decimal) -> (r: Self)
        requires
            temperature.wf(),
        ensures
            r == (CompletionRequest { temperature: Some(temperature), ..self }),
    {
        let mut s = self;
        s.temperature = Some(temperature);
        s
    }

    /// Set the completion length bound.
    pub fn max_tokens(self, max_tokens: u32) -> (r: Self)
        ensures
            r == (CompletionRequest { max_tokens: Some(max_tokens), ..self }),
    {
        let mut s = self;
        s.max_tokens = Some(max_tokens);
        s
    }

    /// Ask for (or decline) a streamed response.
    pub fn stream(self, stream: bool) -> (r: Self)
        ensures
            r == (CompletionRequest { stream: Some(stream), ..self }),
    {
        let mut s = self;
        s.stream = Some(stream);
        s
    }
}

/// An embedding request: a model and one input text.
#[derive(Clone, Debug)]
pub struct EmbeddingRequest {
    pub model: String,
    pub input: String,
}

impl EmbeddingRequest {
    pub fn new(model: String, input: String) -> (r: Self)
        ensures
            r.model == model,
            r.input == input,
    {
        EmbeddingRequest { model, input }
    }
}

/// Token accounting reported by the server.
#[derive(Clone, Debug)]
pub struct Usage {
    pub prompt_tokens: u32,
    pub completion_tokens: Option<u32>,
    pub total_tokens: u32,
}

pub struct UsageV {
    pub prompt_tokens: u32,
    pub completion_tokens: Option<u32>,
    pub total_tokens: u32,
}

impl View for Usage {
    type V = UsageV;

    open spec fn view(&self) -> UsageV {
        UsageV {
            prompt_tokens: self.prompt_tokens,
            completion_tokens: self.completion_tokens,
            total_tokens: self.total_tokens,
        }
    }
}

impl DeepView for Usage {
    type V = UsageV;

    open spec fn deep_view(&self) -> UsageV {
        self.view()
    }
}

/// One alternative in a non-streaming chat completion response.
#[derive(Clone, Debug)]
pub struct ChatChoice {
    pub index: u32,
    pub message: Message,
    pub finish_reason: Option<String>,
}

pub struct ChatChoiceV {
    pub index: u32,
    pub message: MessageV,
    pub finish_reason: Option<Seq<char>>,
}

impl View for ChatChoice {
    type V = ChatChoiceV;

    open spec fn view(&self) -> ChatChoiceV {
        ChatChoiceV {
            index: self.index,
            message: self.message@,
            finish_reason: self.finish_reason.deep_view(),
        }
    }
}

impl DeepView for ChatChoice {
    type V = ChatChoiceV;

    open spec fn deep_view(&self) -> ChatChoiceV {
        self.view()
    }
}

/// A non-streaming chat completion response.
#[derive(Clone, Debug)]
pub struct ChatCompletionResponse {
    pub id: String,
    pub object: String,
    pub created: u64,
    pub model: String,
    pub choices: Vec<ChatChoice>,
    pub usage: Usage,
}

pub struct ChatCompletionResponseV {
    pub id: Seq<char>,
    pub object: Seq<char>,
    pub created: u64,
    pub model: Seq<char>,
    pub choices: Seq<ChatChoiceV>,
    pub usage: UsageV,
}

impl View for ChatCompletionResponse {
    type V = ChatCompletionResponseV;

    open spec fn view(&self) -> ChatCompletionResponseV {
        ChatCompletionResponseV {
            id: self.id@,
            object: self.object@,
            created: self.created,
            model: self.model@,
            choices: self.choices.deep_view(),
            usage: self.usage@,
        }
    }
}

/// The incremental part of one streamed choice.
#[derive(Clone, Debug)]
pub struct Delta {
    pub role: Option<String>,
    pub content: Option<String>,
}

pub struct DeltaV {
    pub role: Option<Seq<char>>,
    pub content: Option<Seq<char>>,
}

impl View for Delta {
    type V = DeltaV;

    open spec fn view(&self) -> DeltaV {
        DeltaV { role: self.role.deep_view(), content: self.content.deep_view() }
    }
}

impl DeepView for Delta {
    type V = DeltaV;

    open spec fn deep_view(&self) -> DeltaV {
        self.view()
    }
}

/// One alternative in a streamed chunk.
#[derive(Clone, Debug)]
pub struct ChatChoiceDelta {
    pub index: u32,
    pub delta: Delta,
    pub finish_reason: Option<String>,
}

pub struct ChatChoiceDeltaV {
    pub index: u32,
    pub delta: DeltaV,
    pub finish_reason: Option<Seq<char>>,
}

impl View for ChatChoiceDelta {
    type V = ChatChoiceDeltaV;

    open spec fn view(&self) -> ChatChoiceDeltaV {
        ChatChoiceDeltaV {
            index: self.index,
            delta: self.delta@,
            finish_reason: self.finish_reason.deep_view(),
        }
    }
}

impl DeepView for ChatChoiceDelta {
    type V = ChatChoiceDeltaV;

    open spec fn deep_view(&self) -> ChatChoiceDeltaV {
        self.view()
    }
}

/// One streamed chat completion chunk.
#[derive(Clone, Debug)]
pub struct ChatCompletionChunk {
    pub id: String,
    pub object: String,
    pub created: u64,
    pub model: String,
    pub choices: Vec<ChatChoiceDelta>,
}

pub struct ChatCompletionChunkV {
    pub id: Seq<char>,
    pub object: Seq<char>,
    pub created: u64,
    pub model: Seq<char>,
    pub choices: Seq<ChatChoiceDeltaV>,
}

impl View for ChatCompletionChunk {
    type V = ChatCompletionChunkV;

    open spec fn view(&self) -> ChatCompletionChunkV {
        ChatCompletionChunkV {
            id: self.id@,
            object: self.object@,
            created: self.created,
            model: self.model@,
            choices: self.choices.deep_view(),
        }
    }
}

/// A plain text completion response.
#[derive(Clone, Debug)]
pub struct CompletionResponse {
    pub content: String,
    pub model: Option<String>,
    pub stop: Option<bool>,
    pub tokens_predicted: Option<u32>,
    pub tokens_evaluated: Option<u32>,
}

pub struct CompletionResponseV {
    pub content: Seq<char>,
    pub model: Option<Seq<char>>,
    pub stop: Option<bool>,
    pub tokens_predicted: Option<u32>,
    pub tokens_evaluated: Option<u32>,
}

impl View for CompletionResponse {
    type V = CompletionResponseV;

    open spec fn view(&self) -> CompletionResponseV {
        CompletionResponseV {
            content: self.content@,
            model: self.model.deep_view(),
            stop: self.stop,
            tokens_predicted: self.tokens_predicted,
            tokens_evaluated: self.tokens_evaluated,
        }
    }
}

/// One embedding vector. Each value is carried as its JSON number
/// token, uninterpreted by this crate.
#[derive(Clone, Debug)]
pub struct EmbeddingData {
    pub object: String,
    pub embedding: Vec<String>,
    pub index: u32,
}

pub struct EmbeddingDataV {
    pub object: Seq<char>,
    pub embedding: Seq<Seq<char>>,
    pub index: u32,
}

impl View for EmbeddingData {
    type V = EmbeddingDataV;

    open spec fn view(&self) -> EmbeddingDataV {
        EmbeddingDataV {
            object: self.object@,
            embedding: self.embedding.deep_view(),
            index: self.index,
        }
    }
}

impl DeepView for EmbeddingData {
    type V = EmbeddingDataV;

    open spec fn deep_view(&self) -> EmbeddingDataV {
        self.view()
    }
}

/// An embedding response.
#[derive(Clone, Debug)]
pub struct EmbeddingResponse {
    pub object: String,
    pub data: Vec<EmbeddingData>,
    pub model: String,
    pub usage: Usage,
}

pub struct EmbeddingResponseV {
    pub object: Seq<char>,
    pub data: Seq<EmbeddingDataV>,
    pub model: Seq<char>,
    pub usage: UsageV,
}

impl View for EmbeddingResponse {
    type V = EmbeddingResponseV;

    open spec fn view(&self) -> EmbeddingResponseV {
        EmbeddingResponseV {
            object: self.object@,
            data: self.data.deep_view(),
            model: self.model@,
            usage: self.usage@,
        }
    }
}

} // verus!
