//! The OpenAI Chat Completions request, usage and stream types, and their
//! models.
use vstd::prelude::*;
use crate::text::{opt_pairs, opt_str};
use crate::json::{opt_object, JsonDocument, JsonDocumentView, JsonObject, JsonValueView};

verus! {

/// The author of a chat message.
#[derive(Debug, Clone, Copy, PartialEq, Eq, Structural)]
pub enum Role {
    System,
    User,
    Assistant,
    Tool,
    Developer,
}

/// A function call requested by the model.
#[derive(Debug)]
pub struct FunctionCall {
    pub name: String,
    /// The call's arguments, as JSON text.
    pub arguments: String,
}

/// A tool call of an assistant message.
#[derive(Debug)]
pub struct ToolCall {
    pub id: String,
    /// Always `"function"`.
    pub type_: String,
    pub function: FunctionCall,
}

pub struct ToolCallView {
    pub id: Seq<char>,
    pub type_: Seq<char>,
    pub name: Seq<char>,
    pub arguments: Seq<char>,
}

impl View for ToolCall {
    type V = ToolCallView;

    open spec fn view(&self) -> ToolCallView {
        ToolCallView {
            id: self.id@,
            type_: self.type_@,
            name: self.function.name@,
            arguments: self.function.arguments@,
        }
    }
}

/// A message of a chat request.
#[derive(Debug)]
pub struct ChatMessage {
    pub role: Role,
    pub content: Option<String>,
    pub name: Option<String>,
    pub tool_calls: Option<Vec<ToolCall>>,
    pub tool_call_id: Option<String>,
    pub reasoning_content: Option<String>,
}

pub struct ChatMessageView {
    pub role: Role,
    pub content: Option<Seq<char>>,
    pub name: Option<Seq<char>>,
    pub tool_calls: Option<Seq<ToolCallView>>,
    pub tool_call_id: Option<Seq<char>>,
    pub reasoning_content: Option<Seq<char>>,
}

impl View for ChatMessage {
    type V = ChatMessageView;

    open spec fn view(&self) -> ChatMessageView {
        ChatMessageView {
            role: self.role,
            content: opt_str(self.content),
            name: opt_str(self.name),
            tool_calls: match self.tool_calls {
                Some(c) => Some(c@.map_values(|x: ToolCall| x@)),
                None => None,
            },
            tool_call_id: opt_str(self.tool_call_id),
            reasoning_content: opt_str(self.reasoning_content),
        }
    }
}

/// A function the model may call.
#[derive(Debug)]
pub struct FunctionDefinition {
    pub name: String,
    pub description: Option<String>,
    /// The JSON schema of the function's parameters.
    pub parameters: JsonDocument,
    pub strict: Option<bool>,
}

/// A tool offered to the model.
#[derive(Debug)]
pub struct Tool {
    /// Always `"function"`.
    pub type_: String,
    pub function: FunctionDefinition,
}

pub struct ToolView {
    pub type_: Seq<char>,
    pub name: Seq<char>,
    pub description: Option<Seq<char>>,
    pub parameters: JsonDocumentView,
    pub strict: Option<bool>,
}

impl View for Tool {
    type V = ToolView;

    open spec fn view(&self) -> ToolView {
        ToolView {
            type_: self.type_@,
            name: self.function.name@,
            description: opt_str(self.function.description),
            parameters: self.function.parameters@,
            strict: self.function.strict,
        }
    }
}

/// A JSON schema that a structured response must follow.
#[derive(Debug)]
pub struct JsonSchemaDefinition {
    pub name: String,
    pub schema: JsonDocument,
    pub description: Option<String>,
    pub strict: Option<bool>,
}

/// The format the response must take.
#[derive(Debug)]
pub enum ResponseFormat {
    JsonSchema { json_schema: JsonSchemaDefinition },
}

pub struct ResponseFormatView {
    pub name: Seq<char>,
    pub schema: JsonDocumentView,
    pub description: Option<Seq<char>>,
    pub strict: Option<bool>,
}

impl View for ResponseFormat {
    type V = ResponseFormatView;

    open spec fn view(&self) -> ResponseFormatView {
        match self {
            ResponseFormat::JsonSchema { json_schema } => ResponseFormatView {
                name: json_schema.name@,
                schema: json_schema.schema@,
                description: opt_str(json_schema.description),
                strict: json_schema.strict,
            },
        }
    }
}

/// Where the model stops generating: one sequence, or several.
#[derive(Debug)]
pub enum StopSequences {
    Single(String),
    Multiple(Vec<String>),
}

pub enum StopSequencesView {
    Single(Seq<char>),
    Multiple(Seq<Seq<char>>),
}

impl View for StopSequences {
    type V = StopSequencesView;

    open spec fn view(&self) -> StopSequencesView {
        match self {
            StopSequences::Single(s) => StopSequencesView::Single(s@),
            StopSequences::Multiple(v) => StopSequencesView::Multiple(v@.map_values(|s: String| s@)),
        }
    }
}

/// Which tool the model should use, by name of a mode such as `"auto"`.
#[derive(Debug)]
pub enum ToolChoice {
    String(String),
}

impl View for ToolChoice {
    type V = Seq<char>;

    open spec fn view(&self) -> Seq<char> {
        match self {
            ToolChoice::String(s) => s@,
        }
    }
}

/// Options of a streamed response.
#[derive(Debug, Clone, Copy, PartialEq, Eq, Structural)]
pub struct StreamOptions {
    pub include_usage: bool,
}

/// The body of a Chat Completions request.
///
/// `temperature` and `top_p` are in hundredths (70 stands for 0.7);
/// penalties are held as the bits of their `f32` values.
#[derive(Debug)]
pub struct ChatCompletionsOptions {
    pub model: String,
    pub messages: Vec<ChatMessage>,
    pub frequency_penalty: Option<u32>,
    pub logit_bias: Option<Vec<(String, i32)>>,
    pub logprobs: Option<bool>,
    pub top_logprobs: Option<u32>,
    pub max_completion_tokens: Option<u32>,
    pub n: Option<u32>,
    pub presence_penalty: Option<u32>,
    pub response_format: Option<ResponseFormat>,
    pub seed: Option<u32>,
    pub stop: Option<StopSequences>,
    pub stream: Option<bool>,
    pub stream_options: Option<StreamOptions>,
    pub temperature: Option<u32>,
    pub top_p: Option<u32>,
    pub tools: Option<Vec<Tool>>,
    pub tool_choice: Option<ToolChoice>,
    pub parallel_tool_calls: Option<bool>,
    pub reasoning_effort: Option<String>,
    pub verbosity: Option<String>,
    pub extra_body: Option<JsonObject>,
    pub extra_headers: Option<Vec<(String, String)>>,
}

pub struct ChatCompletionsOptionsView {
    pub model: Seq<char>,
    pub messages: Seq<ChatMessageView>,
    pub frequency_penalty: Option<u32>,
    pub logit_bias: Option<Seq<(Seq<char>, i32)>>,
    pub logprobs: Option<bool>,
    pub top_logprobs: Option<u32>,
    pub max_completion_tokens: Option<u32>,
    pub n: Option<u32>,
    pub presence_penalty: Option<u32>,
    pub response_format: Option<ResponseFormatView>,
    pub seed: Option<u32>,
    pub stop: Option<StopSequencesView>,
    pub stream: Option<bool>,
    pub stream_options: Option<StreamOptions>,
    pub temperature: Option<u32>,
    pub top_p: Option<u32>,
    pub tools: Option<Seq<ToolView>>,
    pub tool_choice: Option<Seq<char>>,
    pub parallel_tool_calls: Option<bool>,
    pub reasoning_effort: Option<Seq<char>>,
    pub verbosity: Option<Seq<char>>,
    pub extra_body: Option<Map<Seq<char>, JsonValueView>>,
    pub extra_headers: Option<Seq<(Seq<char>, Seq<char>)>>,
}

impl View for ChatCompletionsOptions {
    type V = ChatCompletionsOptionsView;

    open spec fn view(&self) -> ChatCompletionsOptionsView {
        ChatCompletionsOptionsView {
            model: self.model@,
            messages: self.messages@.map_values(|m: ChatMessage| m@),
            frequency_penalty: self.frequency_penalty,
            logit_bias: match self.logit_bias {
                Some(v) => Some(v@.map_values(|p: (String, i32)| (p.0@, p.1))),
                None => None,
            },
            logprobs: self.logprobs,
            top_logprobs: self.top_logprobs,
            max_completion_tokens: self.max_completion_tokens,
            n: self.n,
            presence_penalty: self.presence_penalty,
            response_format: match self.response_format {
                Some(f) => Some(f@),
                None => None,
            },
            seed: self.seed,
            stop: match self.stop {
                Some(s) => Some(s@),
                None => None,
            },
            stream: self.stream,
            stream_options: self.stream_options,
            temperature: self.temperature,
            top_p: self.top_p,
            tools: match self.tools {
                Some(t) => Some(t@.map_values(|x: Tool| x@)),
                None => None,
            },
            tool_choice: match self.tool_choice {
                Some(c) => Some(c@),
                None => None,
            },
            parallel_tool_calls: self.parallel_tool_calls,
            reasoning_effort: opt_str(self.reasoning_effort),
            verbosity: opt_str(self.verbosity),
            extra_body: opt_object(self.extra_body),
            extra_headers: opt_pairs(self.extra_headers),
        }
    }
}

/// Cached and audio tokens of a prompt.
#[derive(Debug, Clone, Copy, PartialEq, Eq, Structural)]
pub struct PromptTokensDetails {
    pub cached_tokens: u32,
    pub audio_tokens: Option<u32>,
}

/// Reasoning, audio and prediction tokens of a completion.
#[derive(Debug, Clone, Copy, PartialEq, Eq, Structural)]
pub struct CompletionTokensDetails {
    pub reasoning_tokens: u32,
    pub audio_tokens: Option<u32>,
    pub accepted_prediction_tokens: Option<u32>,
    pub rejected_prediction_tokens: Option<u32>,
}

/// Token usage of a Chat Completions response.
#[derive(Debug, Clone, Copy, PartialEq, Eq, Structural)]
pub struct Usage {
    pub prompt_tokens: u32,
    pub completion_tokens: u32,
    pub total_tokens: u32,
    pub prompt_tokens_details: Option<PromptTokensDetails>,
    pub completion_tokens_details: Option<CompletionTokensDetails>,
}

/// An event of a streamed response: the stream opened, a chunk arrived, or
/// the stream is done.
#[derive(Debug)]
pub enum ChatCompletionsStreamEvent<C> {
    Open,
    Chunk(C),
    Done,
}

} // verus!
