//! What the Chat Completions client decides: the request's path, method
//! and headers, and how a server-sent event of a streamed response is read.
//! Sending the request, serializing its body and parsing a chunk's JSON are
//! left to the caller.
use vstd::prelude::*;
use crate::chat_completions::types::{ChatCompletionsOptions, ChatCompletionsStreamEvent};
use crate::json::JsonObject;
use crate::sdk::Error;
use crate::text::{clone_pairs, pairs_view, trim, trimmed};

verus! {

/// How a client reaches the API.
#[derive(Debug)]
pub struct ChatCompletionsSettings {
    pub api_key: String,
    /// The request path, when it is not the default one.
    pub path: Option<String>,
    /// Headers to send with every request, as name/value pairs.
    pub headers: Option<Vec<(String, String)>>,
    /// Fields to add to every request body.
    pub body: Option<JsonObject>,
}

/// A Chat Completions client for one request.
#[derive(Debug)]
pub struct OpenAIChatCompletions {
    pub settings: ChatCompletionsSettings,
    pub options: ChatCompletionsOptions,
}

/// An HTTP method.
#[derive(Debug, Clone, Copy, PartialEq, Eq, Structural)]
pub enum HttpMethod {
    Post,
}

/// A server-sent event, as the event source delivers it.
#[derive(Debug)]
pub enum SseEvent {
    /// The stream opened.
    Open,
    /// A message arrived, with its data.
    Message(String),
}

/// What to do with a server-sent event: hand on a stream event, or parse
/// the given data as a chunk (see [`OpenAIChatCompletions::chunk_event`]).
#[derive(Debug)]
pub enum StreamStep<C> {
    Event(ChatCompletionsStreamEvent<C>),
    ParseChunk(String),
}

/// The path requests go to: the configured one, or `chat/completions`.
pub open spec fn path_model(path: Option<String>) -> Seq<char> {
    match path {
        Some(p) => p@,
        None => "chat/completions"@,
    }
}

/// The headers of a request, in order; a later header replaces an earlier
/// one of the same name: the JSON content type and the bearer token first,
/// then the configured headers, then the request's extra headers.
pub open spec fn headers_model(api_key: Seq<char>, settings: Option<Vec<(String, String)>>, extra: Option<
    Vec<(String, String)>,
>) -> Seq<(Seq<char>, Seq<char>)> {
    seq![("content-type"@, "application/json"@), ("Authorization"@, "Bearer "@ + api_key)] + match settings {
        Some(v) => pairs_view(v@),
        None => seq![],
    } + match extra {
        Some(v) => pairs_view(v@),
        None => seq![],
    }
}

/// The data of a message that ends the stream: `[DONE]` (white space
/// around it aside), or no data at all.
pub open spec fn is_done_data(data: Seq<char>) -> bool {
    trimmed(data) == "[DONE]"@ || data.len() == 0
}

/// The details of the error a chunk that is not valid JSON gives.
pub open spec fn invalid_chunk_details(err: Seq<char>) -> Seq<char> {
    "Invalid JSON in SSE: "@ + err
}

impl OpenAIChatCompletions {
    /// The request path: the configured one, or `chat/completions`.
    pub fn path(&self) -> (r: String)
        ensures
            r@ == path_model(self.settings.path),
    {
        match &self.settings.path {
            Some(p) => p.clone(),
            None => String::from_str("chat/completions"),
        }
    }

    /// Requests are sent with `POST`.
    pub fn method(&self) -> (r: HttpMethod)
        ensures
            r == HttpMethod::Post,
    {
        HttpMethod::Post
    }

    /// The request headers, as name/value pairs in the order they are to be
    /// applied.
    pub fn headers(&self) -> (r: Vec<(String, String)>)
        ensures
            pairs_view(r@) == headers_model(
                self.settings.api_key@,
                self.settings.headers,
                self.options.extra_headers,
            ),
    {
        let mut r: Vec<(String, String)> = Vec::new();
        r.push((String::from_str("content-type"), String::from_str("application/json")));
        let mut bearer = String::from_str("Bearer ");
        bearer.append(self.settings.api_key.as_str());
        r.push((String::from_str("Authorization"), bearer));
        assert(pairs_view(r@) =~= seq![
            ("content-type"@, "application/json"@),
            ("Authorization"@, "Bearer "@ + self.settings.api_key@),
        ]);
        let ghost base = pairs_view(r@);
        let mut from_settings = match &self.settings.headers {
            Some(v) => clone_pairs(v),
            None => Vec::new(),
        };
        let ghost s = pairs_view(from_settings@);
        let mut extra = match &self.options.extra_headers {
            Some(v) => clone_pairs(v),
            None => Vec::new(),
        };
        let ghost e = pairs_view(extra@);
        let ghost r0 = r@;
        let ghost s0 = from_settings@;
        r.append(&mut from_settings);
        assert(r@ =~= r0 + s0);
        let ghost r1 = r@;
        let ghost e0 = extra@;
        r.append(&mut extra);
        assert(r@ =~= r1 + e0);
        assert(pairs_view(r@) =~= base + s + e);
        r
    }

    /// The query parameters: none.
    pub fn query_params(&self) -> (r: Vec<(String, String)>)
        ensures
            r@.len() == 0,
    {
        Vec::new()
    }

    /// Reads a server-sent event: an opened stream is handed on; a message
    /// whose data is `[DONE]` or empty ends the stream; any other message
    /// is a chunk to parse; an error is handed on unchanged.
    pub fn parse_stream_sse<C>(event: Result<SseEvent, Error>) -> (r: Result<StreamStep<C>, Error>)
        ensures
            match event {
                Err(e) => r == Err::<StreamStep<C>, Error>(e),
                Ok(SseEvent::Open) => r matches Ok(StreamStep::Event(ChatCompletionsStreamEvent::Open)),
                Ok(SseEvent::Message(d)) => if is_done_data(d@) {
                    r matches Ok(StreamStep::Event(ChatCompletionsStreamEvent::Done))
                } else {
                    r matches Ok(StreamStep::ParseChunk(t)) && t@ == d@
                },
            },
    {
        match event {
            Ok(SseEvent::Open) => Ok(StreamStep::Event(ChatCompletionsStreamEvent::Open)),
            Ok(SseEvent::Message(data)) => {
                let t = String::from_str(trim(data.as_str()));
                if t == String::from_str("[DONE]") || data.as_str().is_empty() {
                    return Ok(StreamStep::Event(ChatCompletionsStreamEvent::Done));
                }
                Ok(StreamStep::ParseChunk(data))
            },
            Err(e) => Err(e),
        }
    }

    /// The stream event of a chunk's parse: the chunk, or, when its data
    /// was not valid JSON, an API error without a status code that gives
    /// the parser's message.
    pub fn chunk_event<C>(parsed: Result<C, String>) -> (r: Result<ChatCompletionsStreamEvent<C>, Error>)
        ensures
            match parsed {
                Ok(c) => r matches Ok(ChatCompletionsStreamEvent::Chunk(x)) && x == c,
                Err(e) => r matches Err(Error::ApiError { status_code, details }) && status_code is None
                    && details@ == invalid_chunk_details(e@),
            },
    {
        match parsed {
            Ok(c) => Ok(ChatCompletionsStreamEvent::Chunk(c)),
            Err(e) => {
                let mut details = String::from_str("Invalid JSON in SSE: ");
                details.append(e.as_str());
                Err(Error::ApiError { status_code: None, details })
            },
        }
    }

    /// Whether an event ends the stream: only `Done` does.
    pub fn end_stream<C>(event: &ChatCompletionsStreamEvent<C>) -> (b: bool)
        ensures
            b == event is Done,
    {
        match event {
            ChatCompletionsStreamEvent::Done => true,
            _ => false,
        }
    }
}

} // verus!
