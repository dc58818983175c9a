//! The client's decision logic: endpoint URLs, the bearer header,
//! status handling, and the mapping from an HTTP reply (status code
//! and body text) to a typed response or an error. The surrounding
//! binary performs the POST itself and hands the reply back here.

use vstd::prelude::*;
use vstd::string::StringExecFns;
use crate::text::{dec_of, dec_u64, string_from_chars};
use crate::model::{ChatCompletionResponse, CompletionResponse, EmbeddingResponse};
use crate::parse::{
    sp_chat_response_doc, sp_completion_doc, sp_embedding_doc, parse_chat_completion_response,
    parse_completion_response, parse_embedding_response,
};

verus! {

/// A failure of one client call. Transport failures stay with the
/// caller that performs the I/O; this type covers what the library
/// itself decides.
#[derive(Clone, Debug)]
pub enum ClientError {
    /// The server answered with a status outside the success range;
    /// the raw body text is kept beside it.
    Api { status: u16, body: String },
    /// The body of a successful reply did not parse as the expected
    /// response shape.
    Parse,
}

/// The message text of an API error: the status code and the body,
/// both verbatim.
pub open spec fn api_error_text(status: u16, body: Seq<char>) -> Seq<char> {
    "API error ("@ + dec_of(status as nat) + "): "@ + body
}

impl ClientError {
    /// The error rendered as text; an API error carries both the
    /// status code and the body text.
    pub fn message(&self) -> (r: String)
        ensures
            self matches ClientError::Api { status, body } ==> r@ == api_error_text(
                *status,
                body@,
            ),
            self is Parse ==> r@ == "failed to parse response body"@,
    {
        match self {
            ClientError::Api { status, body } => {
                let mut out = String::new();
                out.append("API error (");
                let digits = dec_u64(*status as u64);
                out.append(string_from_chars(&digits).as_str());
                out.append("): ");
                out.append(body.as_str());
                assert(out@ =~= api_error_text(*status, body@));
                out
            },
            ClientError::Parse => String::from_str("failed to parse response body"),
        }
    }
}

/// The success range of HTTP statuses.
pub open spec fn is_success_status(status: u16) -> bool {
    200 <= status < 300
}

/// Accept the body of a successful reply; turn any other reply into an
/// API error that carries the status and the body.
pub fn check_status(status: u16, body: String) -> (r: Result<String, ClientError>)
    ensures
        is_success_status(status) ==> (r matches Ok(b) && b == body),
        !is_success_status(status) ==> (r matches Err(e) && e matches ClientError::Api {
            status: st,
            body: b,
        } && st == status && b == body),
{
    if 200 <= status && status < 300 {
        Ok(body)
    } else {
        Err(ClientError::Api { status, body })
    }
}

/// The client: the server's base URL and an optional bearer token.
/// It holds no per-call state; the caller that owns the connection
/// performs the I/O.
#[derive(Clone, Debug)]
pub struct LlamaCppClient {
    pub base_url: String,
    pub api_key: Option<String>,
}

impl LlamaCppClient {
    /// A client for the given base URL, without a token.
    pub fn new(base_url: String) -> (r: Self)
        ensures
            r.base_url == base_url,
            r.api_key is None,
    {
        LlamaCppClient { base_url, api_key: None }
    }

    /// A client for the given base URL with a bearer token.
    pub fn with_api_key(base_url: String, api_key: String) -> (r: Self)
        ensures
            r.base_url == base_url,
            r.api_key matches Some(k) && k == api_key,
    {
        LlamaCppClient { base_url, api_key: Some(api_key) }
    }

    /// A client for a local server on its usual port.
    pub fn default() -> (r: Self)
        ensures
            r.base_url@ == "http://localhost:8080"@,
            r.api_key is None,
    {
        LlamaCppClient { base_url: String::from_str("http://localhost:8080"), api_key: None }
    }

    /// The chat completions endpoint of this client's server.
    pub fn chat_completions_url(&self) -> (r: String)
        ensures
            r@ == self.base_url@ + "/v1/chat/completions"@,
    {
        self.base_url.clone().concat("/v1/chat/completions")
    }

    /// The text completions endpoint of this client's server.
    pub fn completions_url(&self) -> (r: String)
        ensures
            r@ == self.base_url@ + "/v1/completions"@,
    {
        self.base_url.clone().concat("/v1/completions")
    }

    /// The embeddings endpoint of this client's server.
    pub fn embeddings_url(&self) -> (r: String)
        ensures
            r@ == self.base_url@ + "/v1/embeddings"@,
    {
        self.base_url.clone().concat("/v1/embeddings")
    }

    /// The value of the authorization header, present exactly while a
    /// token is configured.
    pub fn bearer_header(&self) -> (r: Option<String>)
        ensures
            self.api_key matches Some(k) ==> (r matches Some(h) && h@ == "Bearer "@ + k@),
            self.api_key is None ==> r is None,
    {
        match &self.api_key {
            Some(k) => Some(String::from_str("Bearer ").concat(k.as_str())),
            None => None,
        }
    }
}

/// Turn the reply of a chat completion call into the typed response:
/// a non-success status becomes an API error with the status and body,
/// a success body is parsed, and a body outside the documented shape
/// becomes a parse error.
pub fn chat_completion_from_reply(status: u16, body: String) -> (r: Result<
    ChatCompletionResponse,
    ClientError,
>)
    ensures
        !is_success_status(status) ==> (r matches Err(e) && e matches ClientError::Api {
            status: st,
            body: b,
        } && st == status && b == body),
        is_success_status(status) ==> match sp_chat_response_doc(body@) {
            Some(v) => (r matches Ok(c) && c@ == v),
            None => (r matches Err(e) && e is Parse),
        },
{
    match check_status(status, body) {
        Err(e) => Err(e),
        Ok(b) => match parse_chat_completion_response(b.as_str()) {
            Some(v) => Ok(v),
            None => Err(ClientError::Parse),
        },
    }
}

/// Turn the reply of a text completion call into the typed response.
pub fn completion_from_reply(status: u16, body: String) -> (r: Result<
    CompletionResponse,
    ClientError,
>)
    ensures
        !is_success_status(status) ==> (r matches Err(e) && e matches ClientError::Api {
            status: st,
            body: b,
        } && st == status && b == body),
        is_success_status(status) ==> match sp_completion_doc(body@) {
            Some(v) => (r matches Ok(c) && c@ == v),
            None => (r matches Err(e) && e is Parse),
        },
{
    match check_status(status, body) {
        Err(e) => Err(e),
        Ok(b) => match parse_completion_response(b.as_str()) {
            Some(v) => Ok(v),
            None => Err(ClientError::Parse),
        },
    }
}

/// Turn the reply of an embedding call into the typed response.
pub fn embedding_from_reply(status: u16, body: String) -> (r: Result<
    EmbeddingResponse,
    ClientError,
>)
    ensures
        !is_success_status(status) ==> (r matches Err(e) && e matches ClientError::Api {
            status: st,
            body: b,
        } && st == status && b == body),
        is_success_status(status) ==> match sp_embedding_doc(body@) {
            Some(v) => (r matches Ok(c) && c@ == v),
            None => (r matches Err(e) && e is Parse),
        },
{
    match check_status(status, body) {
        Err(e) => Err(e),
        Ok(b) => match parse_embedding_response(b.as_str()) {
            Some(v) => Ok(v),
            None => Err(ClientError::Parse),
        },
    }
}

} // verus!
