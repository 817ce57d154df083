//! The provider-independent request model that the provider conversions
//! read: messages, tools, request options, token usage and errors.
//!
//! JSON payloads that are only passed along or printed (tool-call inputs,
//! tool outputs) are held as their JSON text; JSON schemas, whose top level
//! the conversions edit, are held as [`JsonDocument`]s.
use vstd::prelude::*;
use crate::json::{JsonDocument, JsonObject};
use crate::text::has_prefix;
use crate::text::starts_with;

verus! {

/// A media attachment: base64 data and its MIME type.
#[derive(Debug)]
pub struct MediaContent {
    /// Raw base64-encoded bytes.
    pub data: String,
    /// MIME type, e.g. `image/png`.
    pub mime_type: String,
}

/// An attachment is an image when its MIME type is in the `image/` family.
pub open spec fn is_image_media(m: MediaContent) -> bool {
    has_prefix(m.mime_type@, "image/"@)
}

impl MediaContent {
    /// An attachment from base64 data and a MIME type.
    pub fn new(data: &str, mime_type: &str) -> (r: Self)
        ensures
            r.data@ == data@,
            r.mime_type@ == mime_type@,
    {
        MediaContent { data: String::from_str(data), mime_type: String::from_str(mime_type) }
    }

    /// Whether the attachment is an image.
    pub fn is_image(&self) -> (b: bool)
        ensures
            b == is_image_media(*self),
    {
        starts_with(self.mime_type.as_str(), "image/")
    }
}

/// A system message.
#[derive(Debug)]
pub struct SystemMessage {
    pub content: String,
}

impl From<String> for SystemMessage {
    fn from(value: String) -> (r: Self)
        ensures
            r.content == value,
    {
        SystemMessage { content: value }
    }
}

impl vstd::std_specs::convert::FromSpecImpl<String> for SystemMessage {
    open spec fn obeys_from_spec() -> bool {
        true
    }

    open spec fn from_spec(v: String) -> SystemMessage {
        SystemMessage { content: v }
    }
}

/// A user message: text and, possibly, media attachments.
#[derive(Debug)]
pub struct UserMessage {
    pub content: String,
    pub media: Vec<MediaContent>,
}

impl UserMessage {
    /// A user message with attachments.
    pub fn with_media(content: &str, media: Vec<MediaContent>) -> (r: Self)
        ensures
            r.content@ == content@,
            r.media == media,
    {
        UserMessage { content: String::from_str(content), media }
    }
}

impl From<String> for UserMessage {
    fn from(value: String) -> (r: Self)
        ensures
            r.content == value,
            r.media@.len() == 0,
    {
        UserMessage { content: value, media: Vec::new() }
    }
}

impl vstd::std_specs::convert::FromSpecImpl<String> for UserMessage {
    // The conversion's contract is stated over the result's model (see
    // `from` above); no exact value is promised beyond that model.
    open spec fn obeys_from_spec() -> bool {
        false
    }

    open spec fn from_spec(v: String) -> UserMessage {
        choose|r: UserMessage| r.content == v && r.media@.len() == 0
    }
}

/// The name and call id of a tool.
#[derive(Debug)]
pub struct ToolDetails {
    pub name: String,
    pub id: String,
}

/// A tool call made by the model.
#[derive(Debug)]
pub struct ToolCallInfo {
    pub tool: ToolDetails,
    /// The call's input, as JSON text.
    pub input: String,
}

impl ToolCallInfo {
    /// A call of the named tool, with an empty id and a `null` input.
    pub fn new(name: &str) -> (r: Self)
        ensures
            r.tool.name@ == name@,
            r.tool.id@.len() == 0,
            r.input@ == "null"@,
    {
        ToolCallInfo {
            tool: ToolDetails { name: String::from_str(name), id: String::new() },
            input: String::from_str("null"),
        }
    }

    /// Sets the call id.
    pub fn id(&mut self, id: String)
        ensures
            final(self).tool.id == id,
            final(self).tool.name == old(self).tool.name,
            final(self).input == old(self).input,
    {
        self.tool.id = id;
    }

    /// Sets the input, given as JSON text.
    pub fn input(&mut self, input: String)
        ensures
            final(self).input == input,
            final(self).tool == old(self).tool,
    {
        self.input = input;
    }
}

/// The result of a tool call.
#[derive(Debug)]
pub struct ToolResultInfo {
    pub tool: ToolDetails,
    /// The output as JSON text, or the text of the error the tool reported.
    pub output: Result<String, String>,
    /// Media the tool hands back alongside its output (e.g. an image it read).
    pub media: Vec<MediaContent>,
}

impl ToolResultInfo {
    /// A result of the named tool, with an empty id, a `null` output and no media.
    pub fn new(name: &str) -> (r: Self)
        ensures
            r.tool.name@ == name@,
            r.tool.id@.len() == 0,
            r.output matches Ok(o) && o@ == "null"@,
            r.media@.len() == 0,
    {
        ToolResultInfo {
            tool: ToolDetails { name: String::from_str(name), id: String::new() },
            output: Ok(String::from_str("null")),
            media: Vec::new(),
        }
    }
}

/// What an assistant turn holds.
#[derive(Debug)]
pub enum LanguageModelResponseContentType {
    Text(String),
    ToolCall(ToolCallInfo),
    /// Reasoning text, with the signature a provider attached to it, if any.
    Reasoning { content: String, signature: Option<String> },
    /// Reasoning, text and tool calls of one turn together.
    ReasonedResponse { reasoning: String, text: String, tool_calls: Vec<ToolCallInfo> },
    NotSupported(String),
}

/// Token usage of a response.
#[derive(Debug, Clone, Copy, PartialEq, Eq, Structural)]
pub struct Usage {
    pub input_tokens: Option<usize>,
    pub output_tokens: Option<usize>,
    pub reasoning_tokens: Option<usize>,
    pub cached_tokens: Option<usize>,
    pub cache_miss_tokens: Option<usize>,
}

/// An assistant turn.
#[derive(Debug)]
pub struct AssistantMessage {
    pub content: LanguageModelResponseContentType,
    pub usage: Option<Usage>,
}

/// A message of a conversation.
#[derive(Debug)]
pub enum Message {
    System(SystemMessage),
    User(UserMessage),
    Assistant(AssistantMessage),
    Tool(ToolResultInfo),
    Developer(String),
}

/// How much reasoning the model is asked for.
#[derive(Debug, Clone, Copy, PartialEq, Eq, Structural)]
pub enum ReasoningEffort {
    /// No reasoning at all.
    Off,
    Low,
    Medium,
    High,
    XHigh,
}

/// A tool the model may call.
#[derive(Debug)]
pub struct Tool {
    pub name: String,
    pub description: String,
    /// The JSON schema of the tool's input.
    pub input_schema: JsonDocument,
}

/// The provider-independent options of a request.
///
/// Sampling values in hundredths stand for the fractions the API takes
/// (70 stands for 0.7); penalties are held as the bit patterns of their
/// `f32` values (`f32::to_bits`).
#[derive(Debug)]
pub struct LanguageModelOptions {
    pub system: Option<String>,
    pub messages: Vec<Message>,
    pub max_output_tokens: Option<u32>,
    /// Temperature, in hundredths.
    pub temperature: Option<u32>,
    /// Nucleus-sampling mass, in hundredths.
    pub top_p: Option<u32>,
    pub seed: Option<u32>,
    /// Frequency penalty, as the bits of an `f32`.
    pub frequency_penalty: Option<u32>,
    /// Presence penalty, as the bits of an `f32`.
    pub presence_penalty: Option<u32>,
    pub stop_sequences: Option<Vec<String>>,
    pub tools: Option<Vec<Tool>>,
    /// JSON schema that a structured response must follow.
    pub schema: Option<JsonDocument>,
    pub reasoning_effort: Option<ReasoningEffort>,
    /// Extra top-level fields for the request body.
    pub body: Option<JsonObject>,
    /// Extra request headers, as name/value pairs.
    pub headers: Option<Vec<(String, String)>>,
}

impl Default for LanguageModelOptions {
    fn default() -> (r: Self)
        ensures
            r.system is None,
            r.messages@.len() == 0,
            r.max_output_tokens is None,
            r.temperature is None,
            r.top_p is None,
            r.seed is None,
            r.frequency_penalty is None,
            r.presence_penalty is None,
            r.stop_sequences is None,
            r.tools is None,
            r.schema is None,
            r.reasoning_effort is None,
            r.body is None,
            r.headers is None,
    {
        LanguageModelOptions {
            system: None,
            messages: Vec::new(),
            max_output_tokens: None,
            temperature: None,
            top_p: None,
            seed: None,
            frequency_penalty: None,
            presence_penalty: None,
            stop_sequences: None,
            tools: None,
            schema: None,
            reasoning_effort: None,
            body: None,
            headers: None,
        }
    }
}

/// Errors of the library.
#[derive(Debug)]
pub enum Error {
    /// The API, or a message from it, could not be used.
    ApiError { status_code: Option<u16>, details: String },
}

} // verus!
