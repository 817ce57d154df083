//! The Anthropic Messages API request types, their models, and the
//! Anthropic error and usage types.
use vstd::prelude::*;
use crate::json::{opt_object, JsonDocument, JsonDocumentView, JsonObject, JsonValueView};
use crate::text::{concat3, debug_string, debug_text, opt_pairs, opt_str};

verus! {

// ---------------------------------- Errors ----------------------------------

/// The kind of an error the Anthropic API reports.
#[derive(Debug, Clone, Copy, PartialEq, Eq, Structural)]
pub enum AnthropicErrorType {
    InvalidRequestError,
    AuthenticationError,
    PermissionError,
    NotFoundError,
    RequestTooLarge,
    RateLimitError,
    ApiError,
    OverloadedError,
}

impl Default for AnthropicErrorType {
    fn default() -> (r: Self)
        ensures
            r == AnthropicErrorType::InvalidRequestError,
    {
        AnthropicErrorType::InvalidRequestError
    }
}

/// The API's name of an error kind, as the API writes it.
pub open spec fn error_type_text(t: AnthropicErrorType) -> Seq<char> {
    match t {
        AnthropicErrorType::InvalidRequestError => "invalid_request_error"@,
        AnthropicErrorType::AuthenticationError => "authentication_error"@,
        AnthropicErrorType::PermissionError => "permission_error"@,
        AnthropicErrorType::NotFoundError => "not_found_error"@,
        AnthropicErrorType::RequestTooLarge => "request_too_large"@,
        AnthropicErrorType::RateLimitError => "rate_limit_error"@,
        AnthropicErrorType::ApiError => "api_error"@,
        AnthropicErrorType::OverloadedError => "overloaded_error"@,
    }
}

/// The name of an error kind as `{:?}` prints it: the variant's name.
pub open spec fn error_type_debug_name(t: AnthropicErrorType) -> Seq<char> {
    match t {
        AnthropicErrorType::InvalidRequestError => "InvalidRequestError"@,
        AnthropicErrorType::AuthenticationError => "AuthenticationError"@,
        AnthropicErrorType::PermissionError => "PermissionError"@,
        AnthropicErrorType::NotFoundError => "NotFoundError"@,
        AnthropicErrorType::RequestTooLarge => "RequestTooLarge"@,
        AnthropicErrorType::RateLimitError => "RateLimitError"@,
        AnthropicErrorType::ApiError => "ApiError"@,
        AnthropicErrorType::OverloadedError => "OverloadedError"@,
    }
}

impl AnthropicErrorType {
    /// The API's name of the error kind (what the type displays as).
    pub fn to_string(&self) -> (r: String)
        ensures
            r@ == error_type_text(*self),
    {
        let s = match self {
            AnthropicErrorType::InvalidRequestError => "invalid_request_error",
            AnthropicErrorType::AuthenticationError => "authentication_error",
            AnthropicErrorType::PermissionError => "permission_error",
            AnthropicErrorType::NotFoundError => "not_found_error",
            AnthropicErrorType::RequestTooLarge => "request_too_large",
            AnthropicErrorType::RateLimitError => "rate_limit_error",
            AnthropicErrorType::ApiError => "api_error",
            AnthropicErrorType::OverloadedError => "overloaded_error",
        };
        String::from_str(s)
    }

    /// The variant's name, as `{:?}` prints it.
    pub fn debug_name(&self) -> (r: String)
        ensures
            r@ == error_type_debug_name(*self),
    {
        let s = match self {
            AnthropicErrorType::InvalidRequestError => "InvalidRequestError",
            AnthropicErrorType::AuthenticationError => "AuthenticationError",
            AnthropicErrorType::PermissionError => "PermissionError",
            AnthropicErrorType::NotFoundError => "NotFoundError",
            AnthropicErrorType::RequestTooLarge => "RequestTooLarge",
            AnthropicErrorType::RateLimitError => "RateLimitError",
            AnthropicErrorType::ApiError => "ApiError",
            AnthropicErrorType::OverloadedError => "OverloadedError",
        };
        String::from_str(s)
    }
}

/// An error the Anthropic API reports.
#[derive(Debug)]
pub struct AnthropicError {
    pub type_: AnthropicErrorType,
    pub message: String,
}

/// The text an [`AnthropicError`] displays as.
pub open spec fn anthropic_error_text(e: AnthropicError) -> Seq<char> {
    "AnthropicError: "@ + error_type_debug_name(e.type_) + " - "@ + debug_text(e.message@)
}

impl AnthropicError {
    /// The error's text: `AnthropicError: <kind> - <message>`, with the kind
    /// and the message as `{:?}` prints them.
    pub fn to_string(&self) -> (r: String)
        ensures
            r@ == anthropic_error_text(*self),
    {
        let name = self.type_.debug_name();
        let quoted = debug_string(self.message.as_str());
        let head = concat3("AnthropicError: ", name.as_str(), " - ");
        head.concat(quoted.as_str())
    }
}

// ---------------------------------- Request content ----------------------------------

/// A base64-encoded image source for an `image` content block. Only the
/// `base64` source type is modeled.
#[derive(Debug)]
pub struct AnthropicImageSource {
    /// Always `"base64"` for this source shape.
    pub source_type: String,
    /// MIME type of the encoded image, e.g. `"image/png"`.
    pub media_type: String,
    /// Raw base64-encoded image bytes, without a `data:`-URI prefix.
    pub data: String,
}

pub struct AnthropicImageSourceView {
    pub source_type: Seq<char>,
    pub media_type: Seq<char>,
    pub data: Seq<char>,
}

impl View for AnthropicImageSource {
    type V = AnthropicImageSourceView;

    open spec fn view(&self) -> AnthropicImageSourceView {
        AnthropicImageSourceView {
            source_type: self.source_type@,
            media_type: self.media_type@,
            data: self.data@,
        }
    }
}

/// The model of a `base64` image source with the given MIME type and data.
pub open spec fn base64_source(media_type: Seq<char>, data: Seq<char>) -> AnthropicImageSourceView {
    AnthropicImageSourceView { source_type: "base64"@, media_type, data }
}

impl AnthropicImageSource {
    /// Builds a `base64`-sourced image block from raw base64 data and its
    /// MIME type.
    pub fn base64(media_type: String, data: String) -> (r: Self)
        ensures
            r@ == base64_source(media_type@, data@),
    {
        AnthropicImageSource { source_type: String::from_str("base64"), media_type, data }
    }
}

/// A single block inside a `tool_result`'s `content` array: text or image.
#[derive(Debug)]
pub enum AnthropicToolResultBlock {
    /// Regular text content
    Text {
        /// The text content
        text: String,
    },
    /// Image content, provided inline as base64.
    Image {
        /// The base64-encoded image source.
        source: AnthropicImageSource,
    },
}

pub enum AnthropicToolResultBlockView {
    Text(Seq<char>),
    Image(AnthropicImageSourceView),
}

impl View for AnthropicToolResultBlock {
    type V = AnthropicToolResultBlockView;

    open spec fn view(&self) -> AnthropicToolResultBlockView {
        match self {
            AnthropicToolResultBlock::Text { text } => AnthropicToolResultBlockView::Text(text@),
            AnthropicToolResultBlock::Image { source } => AnthropicToolResultBlockView::Image(source@),
        }
    }
}

/// A `tool_result` block's `content`: plain text, or a list of text/image
/// blocks so that a tool result can embed an image alongside its text.
#[derive(Debug)]
pub enum AnthropicToolResultContent {
    /// Plain text result -- the common case.
    Text(String),
    /// One or more text/image blocks.
    Blocks(Vec<AnthropicToolResultBlock>),
}

pub enum AnthropicToolResultContentView {
    Text(Seq<char>),
    Blocks(Seq<AnthropicToolResultBlockView>),
}

impl View for AnthropicToolResultContent {
    type V = AnthropicToolResultContentView;

    open spec fn view(&self) -> AnthropicToolResultContentView {
        match self {
            AnthropicToolResultContent::Text(t) => AnthropicToolResultContentView::Text(t@),
            AnthropicToolResultContent::Blocks(b) => AnthropicToolResultContentView::Blocks(
                b@.map_values(|x: AnthropicToolResultBlock| x@),
            ),
        }
    }
}

impl From<String> for AnthropicToolResultContent {
    fn from(value: String) -> (r: Self)
        ensures
            r == AnthropicToolResultContent::Text(value),
    {
        AnthropicToolResultContent::Text(value)
    }
}

impl vstd::std_specs::convert::FromSpecImpl<String> for AnthropicToolResultContent {
    open spec fn obeys_from_spec() -> bool {
        true
    }

    open spec fn from_spec(v: String) -> AnthropicToolResultContent {
        AnthropicToolResultContent::Text(v)
    }
}

/// A content block of a user message.
#[derive(Debug)]
pub enum AnthropicUserMessageContentBlock {
    /// Regular text content
    Text {
        /// The text content
        text: String,
    },
    /// Image content, provided inline as base64.
    Image {
        /// The base64-encoded image source.
        source: AnthropicImageSource,
    },
    /// Tool result content: plain text, or a list of text/image blocks.
    ToolResult {
        /// The ID of the tool used
        tool_use_id: String,
        /// The content of the tool result.
        content: AnthropicToolResultContent,
    },
}

pub enum AnthropicUserMessageContentBlockView {
    Text(Seq<char>),
    Image(AnthropicImageSourceView),
    ToolResult { tool_use_id: Seq<char>, content: AnthropicToolResultContentView },
}

impl View for AnthropicUserMessageContentBlock {
    type V = AnthropicUserMessageContentBlockView;

    open spec fn view(&self) -> AnthropicUserMessageContentBlockView {
        match self {
            AnthropicUserMessageContentBlock::Text { text } => AnthropicUserMessageContentBlockView::Text(text@),
            AnthropicUserMessageContentBlock::Image { source } => AnthropicUserMessageContentBlockView::Image(
                source@,
            ),
            AnthropicUserMessageContentBlock::ToolResult { tool_use_id, content } =>
                AnthropicUserMessageContentBlockView::ToolResult {
                tool_use_id: tool_use_id@,
                content: content@,
            },
        }
    }
}

/// The content of a user message: plain text or a list of content blocks.
#[derive(Debug)]
pub enum AnthropicUserMessageContent {
    /// Regular text content
    Text(String),
    /// List of content blocks
    Blocks(Vec<AnthropicUserMessageContentBlock>),
}

pub enum AnthropicUserMessageContentView {
    Text(Seq<char>),
    Blocks(Seq<AnthropicUserMessageContentBlockView>),
}

impl View for AnthropicUserMessageContent {
    type V = AnthropicUserMessageContentView;

    open spec fn view(&self) -> AnthropicUserMessageContentView {
        match self {
            AnthropicUserMessageContent::Text(t) => AnthropicUserMessageContentView::Text(t@),
            AnthropicUserMessageContent::Blocks(b) => AnthropicUserMessageContentView::Blocks(
                b@.map_values(|x: AnthropicUserMessageContentBlock| x@),
            ),
        }
    }
}

/// A content block of an assistant message.
#[derive(Debug)]
pub enum AnthropicAssistantMessageParamContent {
    Text { text: String },
    Thinking { thinking: String, signature: String },
    /// A tool use; `input` is the call's input as JSON text.
    ToolUse { id: String, input: String, name: String },
}

pub enum AnthropicAssistantMessageParamContentView {
    Text(Seq<char>),
    Thinking { thinking: Seq<char>, signature: Seq<char> },
    ToolUse { id: Seq<char>, input: Seq<char>, name: Seq<char> },
}

impl View for AnthropicAssistantMessageParamContent {
    type V = AnthropicAssistantMessageParamContentView;

    open spec fn view(&self) -> AnthropicAssistantMessageParamContentView {
        match self {
            AnthropicAssistantMessageParamContent::Text { text } => AnthropicAssistantMessageParamContentView::Text(
                text@,
            ),
            AnthropicAssistantMessageParamContent::Thinking { thinking, signature } =>
                AnthropicAssistantMessageParamContentView::Thinking {
                thinking: thinking@,
                signature: signature@,
            },
            AnthropicAssistantMessageParamContent::ToolUse { id, input, name } =>
                AnthropicAssistantMessageParamContentView::ToolUse { id: id@, input: input@, name: name@ },
        }
    }
}

/// A message of an Anthropic request.
#[allow(inconsistent_fields)]
#[derive(Debug)]
pub enum AnthropicMessageParam {
    User { content: AnthropicUserMessageContent },
    Assistant { content: Vec<AnthropicAssistantMessageParamContent> },
}

pub enum AnthropicMessageParamView {
    User(AnthropicUserMessageContentView),
    Assistant(Seq<AnthropicAssistantMessageParamContentView>),
}

impl View for AnthropicMessageParam {
    type V = AnthropicMessageParamView;

    open spec fn view(&self) -> AnthropicMessageParamView {
        match self {
            AnthropicMessageParam::User { content } => AnthropicMessageParamView::User(content@),
            AnthropicMessageParam::Assistant { content } => AnthropicMessageParamView::Assistant(
                content@.map_values(|x: AnthropicAssistantMessageParamContent| x@),
            ),
        }
    }
}

/// A tool offered to the model.
#[derive(Debug)]
pub struct AnthropicTool {
    pub name: String,
    pub description: String,
    pub input_schema: JsonDocument,
}

pub struct AnthropicToolView {
    pub name: Seq<char>,
    pub description: Seq<char>,
    pub input_schema: JsonDocumentView,
}

impl View for AnthropicTool {
    type V = AnthropicToolView;

    open spec fn view(&self) -> AnthropicToolView {
        AnthropicToolView {
            name: self.name@,
            description: self.description@,
            input_schema: self.input_schema@,
        }
    }
}

/// Extended thinking: off, or on with a token budget.
#[derive(Debug, Clone, Copy, PartialEq, Eq, Structural)]
pub enum AnthropicThinking {
    Disable,
    Enable { budget_tokens: usize },
}

impl Default for AnthropicThinking {
    fn default() -> (r: Self)
        ensures
            r == AnthropicThinking::Disable,
    {
        AnthropicThinking::Disable
    }
}

/// The body of a Messages API request.
#[derive(Debug)]
pub struct AnthropicOptions {
    pub model: String,
    pub system: Option<String>,
    pub messages: Vec<AnthropicMessageParam>,
    pub tools: Option<Vec<AnthropicTool>>,
    pub thinking: Option<AnthropicThinking>,
    /// Extra top-level fields for the request body.
    pub extra_body: Option<JsonObject>,
    /// Extra request headers, as name/value pairs.
    pub extra_headers: Option<Vec<(String, String)>>,
}

pub struct AnthropicOptionsView {
    pub model: Seq<char>,
    pub system: Option<Seq<char>>,
    pub messages: Seq<AnthropicMessageParamView>,
    pub tools: Option<Seq<AnthropicToolView>>,
    pub thinking: Option<AnthropicThinking>,
    pub extra_body: Option<Map<Seq<char>, JsonValueView>>,
    pub extra_headers: Option<Seq<(Seq<char>, Seq<char>)>>,
}

impl View for AnthropicOptions {
    type V = AnthropicOptionsView;

    open spec fn view(&self) -> AnthropicOptionsView {
        AnthropicOptionsView {
            model: self.model@,
            system: opt_str(self.system),
            messages: self.messages@.map_values(|m: AnthropicMessageParam| m@),
            tools: match self.tools {
                Some(t) => Some(t@.map_values(|x: AnthropicTool| x@)),
                None => None,
            },
            thinking: self.thinking,
            extra_body: opt_object(self.extra_body),
            extra_headers: opt_pairs(self.extra_headers),
        }
    }
}

// ---------------------------------- Usage ----------------------------------

/// Input tokens written to the cache, by cache lifetime.
#[derive(Debug, Clone, Copy, PartialEq, Eq, Structural)]
pub struct AnthropicCacheCreation {
    pub ephemeral_1h_input_tokens: usize,
    pub ephemeral_5m_input_tokens: usize,
}

/// Server-side tool use of a response.
#[derive(Debug, Clone, Copy, PartialEq, Eq, Structural)]
pub struct AnthropicServerToolUsage {
    pub web_search_requests: usize,
}

impl Default for AnthropicServerToolUsage {
    fn default() -> (r: Self)
        ensures
            r.web_search_requests == 0,
    {
        AnthropicServerToolUsage { web_search_requests: 0 }
    }
}

/// Token usage of a whole response.
#[derive(Debug)]
pub struct AnthropicUsage {
    pub cache_creation: AnthropicCacheCreation,
    pub cache_creation_input_tokens: usize,
    pub cache_read_input_tokens: usize,
    pub input_tokens: usize,
    pub output_tokens: usize,
    pub server_tool_use: AnthropicServerToolUsage,
    pub service_tier: String,
}

/// Token usage reported by a streamed `message_delta` event.
#[derive(Debug)]
pub struct AnthropicMessageDeltaUsage {
    pub cache_creation_input_tokens: Option<usize>,
    pub cache_read_input_tokens: Option<usize>,
    pub input_tokens: Option<usize>,
    pub output_tokens: usize,
    pub server_tool_use: Option<AnthropicServerToolUsage>,
}

// ---------------------------------- Response defaults ----------------------------------

/// The role of every response message: `"assistant"`.
pub fn assistant_as_str() -> (r: String)
    ensures
        r@ == "assistant"@,
{
    String::from_str("assistant")
}

/// The type of every response object: `"message"`.
pub fn message_as_str() -> (r: String)
    ensures
        r@ == "message"@,
{
    String::from_str("message")
}

} // verus!
