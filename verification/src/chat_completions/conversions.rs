//! Conversions between the provider-independent model and the OpenAI Chat
//! Completions API: request options into a request body, messages into chat
//! messages, tools into function tools, and usage back.
use vstd::prelude::*;
use crate::chat_completions::types::{
    ChatCompletionsOptions, ChatCompletionsOptionsView, ChatMessage, ChatMessageView, FunctionCall,
    FunctionDefinition, JsonSchemaDefinition, ResponseFormat, ResponseFormatView, Role, StopSequences,
    StopSequencesView, Tool, ToolCall, ToolCallView, ToolChoice, ToolView, Usage,
};
use crate::json::{
    json_string, json_string_text, opt_object, JsonDocument, JsonDocumentView, JsonObject, JsonValue,
    JsonValueView,
};
use crate::sdk::Tool as SdkTool;
use crate::sdk::Usage as SdkUsage;
use crate::sdk::{LanguageModelOptions, LanguageModelResponseContentType, Message, ReasoningEffort, ToolCallInfo};
use crate::text::opt_pairs;

verus! {

// ---------------------------------- Messages ----------------------------------

/// The chat tool call a tool call becomes: a `function` call carrying the
/// call's JSON input as its arguments.
pub open spec fn tool_call_model(tc: ToolCallInfo) -> ToolCallView {
    ToolCallView { id: tc.tool.id@, type_: "function"@, name: tc.tool.name@, arguments: tc.input@ }
}

/// A chat message with only a role and a content.
pub open spec fn plain_message(role: Role, content: Option<Seq<char>>) -> ChatMessageView {
    ChatMessageView { role, content, name: None, tool_calls: None, tool_call_id: None, reasoning_content: None }
}

/// The content of a tool message: the output's JSON, or the error text as a
/// JSON string when the tool failed.
pub open spec fn tool_content_text(output: Result<String, String>) -> Seq<char> {
    match output {
        Ok(v) => v@,
        Err(e) => json_string_text(e@),
    }
}

/// The chat message a message becomes.
pub open spec fn chat_message_model(m: Message) -> ChatMessageView {
    match m {
        Message::System(s) => plain_message(Role::System, Some(s.content@)),
        Message::User(u) => plain_message(Role::User, Some(u.content@)),
        Message::Assistant(a) => match a.content {
            LanguageModelResponseContentType::Text(t) => plain_message(Role::Assistant, Some(t@)),
            LanguageModelResponseContentType::ToolCall(tc) => ChatMessageView {
                role: Role::Assistant,
                content: Some(Seq::empty()),
                name: None,
                tool_calls: Some(seq![tool_call_model(tc)]),
                tool_call_id: None,
                reasoning_content: None,
            },
            LanguageModelResponseContentType::Reasoning { content, .. } => ChatMessageView {
                role: Role::Assistant,
                content: Some(Seq::empty()),
                name: None,
                tool_calls: None,
                tool_call_id: None,
                reasoning_content: Some(content@),
            },
            LanguageModelResponseContentType::ReasonedResponse { reasoning, text, tool_calls } => ChatMessageView {
                role: Role::Assistant,
                content: Some(text@),
                name: None,
                tool_calls: if tool_calls@.len() == 0 {
                    None
                } else {
                    Some(tool_calls@.map_values(|tc: ToolCallInfo| tool_call_model(tc)))
                },
                tool_call_id: None,
                reasoning_content: Some(reasoning@),
            },
            LanguageModelResponseContentType::NotSupported(_) => plain_message(Role::Assistant, None),
        },
        Message::Tool(t) => ChatMessageView {
            role: Role::Tool,
            content: Some(tool_content_text(t.output)),
            name: Some(t.tool.name@),
            tool_calls: None,
            tool_call_id: Some(t.tool.id@),
            reasoning_content: None,
        },
        Message::Developer(d) => plain_message(Role::Developer, Some(d@)),
    }
}

/// The chat tool call of a tool call.
fn tool_call_of(tc: &ToolCallInfo) -> (r: ToolCall)
    ensures
        r@ == tool_call_model(*tc),
{
    ToolCall {
        id: tc.tool.id.clone(),
        type_: String::from_str("function"),
        function: FunctionCall { name: tc.tool.name.clone(), arguments: tc.input.clone() },
    }
}

/// A chat message with only a role and a content.
fn plain(role: Role, content: Option<String>) -> (r: ChatMessage)
    ensures
        r@ == plain_message(role, crate::text::opt_str(content)),
{
    ChatMessage { role, content, name: None, tool_calls: None, tool_call_id: None, reasoning_content: None }
}

/// The chat message of a message.
fn chat_message_of(m: &Message) -> (r: ChatMessage)
    ensures
        r@ == chat_message_model(*m),
{
    match m {
        Message::System(s) => plain(Role::System, Some(s.content.clone())),
        Message::User(u) => plain(Role::User, Some(u.content.clone())),
        Message::Assistant(a) => match &a.content {
            LanguageModelResponseContentType::Text(t) => plain(Role::Assistant, Some(t.clone())),
            LanguageModelResponseContentType::ToolCall(tc) => {
                let call = tool_call_of(tc);
                let mut calls = Vec::new();
                calls.push(call);
                assert(calls@.map_values(|x: ToolCall| x@) =~= seq![call@]);
                ChatMessage {
                    role: Role::Assistant,
                    content: Some(String::new()),
                    name: None,
                    tool_calls: Some(calls),
                    tool_call_id: None,
                    reasoning_content: None,
                }
            },
            LanguageModelResponseContentType::Reasoning { content, .. } => ChatMessage {
                role: Role::Assistant,
                content: Some(String::new()),
                name: None,
                tool_calls: None,
                tool_call_id: None,
                reasoning_content: Some(content.clone()),
            },
            LanguageModelResponseContentType::ReasonedResponse { reasoning, text, tool_calls } => {
                let list = if tool_calls.len() == 0 {
                    None
                } else {
                    let n = tool_calls.len();
                    let mut calls: Vec<ToolCall> = Vec::new();
                    let mut i: usize = 0;
                    while i < n
                        invariant
                            i <= n == tool_calls@.len(),
                            calls@.map_values(|x: ToolCall| x@) == tool_calls@.take(i as int).map_values(
                                |tc: ToolCallInfo| tool_call_model(tc),
                            ),
                        decreases n - i,
                    {
                        let ghost before = calls@;
                        let c = tool_call_of(&tool_calls[i]);
                        calls.push(c);
                        assert(calls@.map_values(|x: ToolCall| x@) =~= before.map_values(|x: ToolCall| x@).push(
                            c@,
                        ));
                        assert(tool_calls@.take(i + 1) =~= tool_calls@.take(i as int).push(tool_calls@[i as int]));
                        assert(tool_calls@.take(i + 1).map_values(|tc: ToolCallInfo| tool_call_model(tc))
                            =~= tool_calls@.take(i as int).map_values(|tc: ToolCallInfo| tool_call_model(tc)).push(
                            tool_call_model(tool_calls@[i as int]),
                        ));
                        i = i + 1;
                    }
                    assert(tool_calls@.take(n as int) =~= tool_calls@);
                    Some(calls)
                };
                ChatMessage {
                    role: Role::Assistant,
                    content: Some(text.clone()),
                    name: None,
                    tool_calls: list,
                    tool_call_id: None,
                    reasoning_content: Some(reasoning.clone()),
                }
            },
            LanguageModelResponseContentType::NotSupported(_) => plain(Role::Assistant, None),
        },
        Message::Tool(t) => {
            let content = match &t.output {
                Ok(v) => v.clone(),
                Err(e) => json_string(e),
            };
            ChatMessage {
                role: Role::Tool,
                content: Some(content),
                name: Some(t.tool.name.clone()),
                tool_calls: None,
                tool_call_id: Some(t.tool.id.clone()),
                reasoning_content: None,
            }
        },
        Message::Developer(d) => plain(Role::Developer, Some(d.clone())),
    }
}

impl From<Message> for ChatMessage {
    /// Converts a message into a chat message: one chat message per message.
    fn from(msg: Message) -> (r: ChatMessage)
        ensures
            r@ == chat_message_model(msg),
    {
        chat_message_of(&msg)
    }
}

impl vstd::std_specs::convert::FromSpecImpl<Message> for ChatMessage {
    // The conversion's contract is stated over the result's model (see
    // `from` above); no exact value is promised beyond that model.
    open spec fn obeys_from_spec() -> bool {
        false
    }

    open spec fn from_spec(v: Message) -> ChatMessage {
        choose|r: ChatMessage| r@ == chat_message_model(v)
    }
}

// ---------------------------------- Tools ----------------------------------

/// The parameters schema a tool's input schema becomes: without the
/// `$schema` and `title` keys, with `type` set to `"object"`,
/// `additionalProperties` set to `false`, and an empty `properties` object
/// unless `properties` already holds an object. A schema that is not an
/// object counts as an empty object.
pub open spec fn parameters_model(d: JsonDocumentView) -> Map<Seq<char>, JsonValueView> {
    let base = match d {
        JsonDocumentView::Object(o) => o.remove("$schema"@).remove("title"@),
        _ => Map::empty(),
    };
    let typed = base.insert("type"@, JsonValueView::Str("object"@)).insert(
        "additionalProperties"@,
        JsonValueView::Bool(false),
    );
    if typed.contains_key("properties"@) && typed["properties"@] is Object {
        typed
    } else {
        typed.insert("properties"@, JsonValueView::Object("{}"@))
    }
}

/// The chat tool a tool becomes: a strict `function` tool.
pub open spec fn chat_tool_model(t: SdkTool) -> ToolView {
    ToolView {
        type_: "function"@,
        name: t.name@,
        description: Some(t.description@),
        parameters: JsonDocumentView::Object(parameters_model(t.input_schema@)),
        strict: Some(true),
    }
}

/// The parameters schema of a tool.
fn parameters_of(schema: &JsonDocument) -> (r: JsonObject)
    ensures
        r@ == parameters_model(schema@),
{
    let mut params = match schema {
        JsonDocument::Object(o) => {
            let mut p = o.clone();
            p.remove(&String::from_str("$schema"));
            p.remove(&String::from_str("title"));
            p
        },
        _ => JsonObject::new(),
    };
    params.insert(String::from_str("type"), JsonValue::Str(String::from_str("object")));
    params.insert(String::from_str("additionalProperties"), JsonValue::Bool(false));
    let has_object_properties = match params.get(&String::from_str("properties")) {
        Some(JsonValue::Object(_)) => true,
        _ => false,
    };
    if !has_object_properties {
        params.insert(String::from_str("properties"), JsonValue::Object(String::from_str("{}")));
    }
    params
}

/// The chat tool of a tool.
fn chat_tool_of(t: &SdkTool) -> (r: Tool)
    ensures
        r@ == chat_tool_model(*t),
{
    Tool {
        type_: String::from_str("function"),
        function: FunctionDefinition {
            name: t.name.clone(),
            description: Some(t.description.clone()),
            parameters: JsonDocument::Object(parameters_of(&t.input_schema)),
            strict: Some(true),
        },
    }
}

impl From<SdkTool> for Tool {
    /// Converts a tool into a strict function tool whose parameters schema
    /// has the fields Chat Completions requires.
    fn from(tool: SdkTool) -> (r: Tool)
        ensures
            r@ == chat_tool_model(tool),
    {
        chat_tool_of(&tool)
    }
}

impl vstd::std_specs::convert::FromSpecImpl<SdkTool> for Tool {
    // The conversion's contract is stated over the result's model (see
    // `from` above); no exact value is promised beyond that model.
    open spec fn obeys_from_spec() -> bool {
        false
    }

    open spec fn from_spec(v: SdkTool) -> Tool {
        choose|r: Tool| r@ == chat_tool_model(v)
    }
}

// ---------------------------------- Options ----------------------------------

/// A string member of a JSON document, if the document is an object and
/// the member is a string.
pub open spec fn string_member(d: JsonDocumentView, key: Seq<char>) -> Option<Seq<char>> {
    match d {
        JsonDocumentView::Object(o) => if o.contains_key(key) {
            match o[key] {
                JsonValueView::Str(s) => Some(s),
                _ => None,
            }
        } else {
            None
        },
        _ => None,
    }
}

/// The response format a JSON schema becomes: a strict JSON-schema format
/// named by the schema's `title` (or `"Response"`), described by its
/// `description`, whose schema forbids additional properties.
pub open spec fn response_format_model(d: JsonDocumentView) -> ResponseFormatView {
    let schema = match d {
        JsonDocumentView::Object(o) => JsonDocumentView::Object(
            o.insert("additionalProperties"@, JsonValueView::Bool(false)),
        ),
        _ => d,
    };
    ResponseFormatView {
        name: match string_member(schema, "title"@) {
            Some(t) => t,
            None => "Response"@,
        },
        schema,
        description: string_member(schema, "description"@),
        strict: Some(true),
    }
}

/// The API's name of a reasoning effort.
pub open spec fn effort_text(e: ReasoningEffort) -> Seq<char> {
    match e {
        ReasoningEffort::Off => "none"@,
        ReasoningEffort::Low => "low"@,
        ReasoningEffort::Medium => "medium"@,
        ReasoningEffort::High => "high"@,
        ReasoningEffort::XHigh => "xhigh"@,
    }
}

/// The stop setting of a list of stop sequences: the sequence itself when
/// there is exactly one, else the first four at most.
pub open spec fn stop_model(seqs: Seq<String>) -> StopSequencesView {
    if seqs.len() == 1 {
        StopSequencesView::Single(seqs[0]@)
    } else {
        StopSequencesView::Multiple(
            (if seqs.len() <= 4 {
                seqs
            } else {
                seqs.take(4)
            }).map_values(|s: String| s@),
        )
    }
}

/// The messages a conversation becomes: the system prompt first, if any,
/// then one chat message per message, in order.
pub open spec fn chat_messages_model(system: Option<String>, ms: Seq<Message>) -> Seq<ChatMessageView> {
    let head = match system {
        Some(s) => seq![plain_message(Role::System, Some(s@))],
        None => seq![],
    };
    head + ms.map_values(|m: Message| chat_message_model(m))
}

/// The request body that request options become.
pub open spec fn chat_options_model(o: LanguageModelOptions) -> ChatCompletionsOptionsView {
    ChatCompletionsOptionsView {
        model: Seq::empty(),
        messages: chat_messages_model(o.system, o.messages@),
        frequency_penalty: o.frequency_penalty,
        logit_bias: None,
        logprobs: None,
        top_logprobs: None,
        max_completion_tokens: o.max_output_tokens,
        n: None,
        presence_penalty: o.presence_penalty,
        response_format: match o.schema {
            Some(s) => Some(response_format_model(s@)),
            None => None,
        },
        seed: o.seed,
        stop: match o.stop_sequences {
            Some(s) => Some(stop_model(s@)),
            None => None,
        },
        stream: None,
        stream_options: None,
        temperature: o.temperature,
        top_p: o.top_p,
        tools: match o.tools {
            Some(ts) => Some(ts@.map_values(|t: SdkTool| chat_tool_model(t))),
            None => None,
        },
        tool_choice: if o.tools is Some {
            Some("auto"@)
        } else {
            None
        },
        parallel_tool_calls: if o.tools is Some {
            Some(true)
        } else {
            None
        },
        reasoning_effort: match o.reasoning_effort {
            Some(e) => Some(effort_text(e)),
            None => None,
        },
        verbosity: None,
        extra_body: opt_object(o.body),
        extra_headers: opt_pairs(o.headers),
    }
}

/// The response format of a JSON schema.
fn response_format_of(schema: &JsonDocument) -> (r: ResponseFormat)
    ensures
        r@ == response_format_model(schema@),
{
    let mut s = schema.clone();
    match &mut s {
        JsonDocument::Object(o) => {
            o.insert(String::from_str("additionalProperties"), JsonValue::Bool(false));
        },
        _ => {},
    }
    let (name, description) = match &s {
        JsonDocument::Object(o) => {
            let name = match o.get(&String::from_str("title")) {
                Some(JsonValue::Str(t)) => t.clone(),
                _ => String::from_str("Response"),
            };
            let description = match o.get(&String::from_str("description")) {
                Some(JsonValue::Str(t)) => Some(t.clone()),
                _ => None,
            };
            (name, description)
        },
        _ => (String::from_str("Response"), None),
    };
    ResponseFormat::JsonSchema { json_schema: JsonSchemaDefinition { name, schema: s, description, strict: Some(true) } }
}

/// The API's name of a reasoning effort.
fn effort_name(e: ReasoningEffort) -> (r: String)
    ensures
        r@ == effort_text(e),
{
    let s = match e {
        ReasoningEffort::Off => "none",
        ReasoningEffort::Low => "low",
        ReasoningEffort::Medium => "medium",
        ReasoningEffort::High => "high",
        ReasoningEffort::XHigh => "xhigh",
    };
    String::from_str(s)
}

/// The stop setting of a list of stop sequences.
fn stop_of(seqs: &Vec<String>) -> (r: StopSequences)
    ensures
        r@ == stop_model(seqs@),
{
    if seqs.len() == 1 {
        return StopSequences::Single(seqs[0].clone());
    }
    let k = if seqs.len() <= 4 {
        seqs.len()
    } else {
        4
    };
    let ghost kept = if seqs@.len() <= 4 {
        seqs@
    } else {
        seqs@.take(4)
    };
    assert(kept =~= seqs@.take(k as int));
    let mut out: Vec<String> = Vec::new();
    let mut i: usize = 0;
    while i < k
        invariant
            i <= k <= seqs@.len(),
            out@.map_values(|s: String| s@) =~= seqs@.take(i as int).map_values(|s: String| s@),
        decreases k - i,
    {
        let ghost before = out@;
        let s = seqs[i].clone();
        out.push(s);
        assert(out@.map_values(|s: String| s@) =~= before.map_values(|s: String| s@).push(s@));
        assert(seqs@.take(i + 1) =~= seqs@.take(i as int).push(seqs@[i as int]));
        assert(seqs@.take(i + 1).map_values(|s: String| s@) =~= seqs@.take(i as int).map_values(|s: String| s@).push(
            seqs@[i as int]@,
        ));
        i = i + 1;
    }
    StopSequences::Multiple(out)
}

impl From<LanguageModelOptions> for ChatCompletionsOptions {
    /// Builds the Chat Completions request body: the system prompt and the
    /// messages, the tools (with automatic, parallel tool choice), the
    /// response format, the stop sequences, the reasoning effort and the
    /// sampling options, with the extra body fields and headers passed
    /// along.
    fn from(options: LanguageModelOptions) -> (r: ChatCompletionsOptions)
        ensures
            r@ == chat_options_model(options),
    {
        let ghost o = options;
        let mut messages: Vec<ChatMessage> = Vec::new();
        match &options.system {
            Some(s) => {
                let m = plain(Role::System, Some(s.clone()));
                messages.push(m);
            },
            None => {},
        }
        let ghost head = messages@.map_values(|m: ChatMessage| m@);
        assert(head =~= match options.system {
            Some(s) => seq![plain_message(Role::System, Some(s@))],
            None => Seq::<ChatMessageView>::empty(),
        });
        let n = options.messages.len();
        let mut i: usize = 0;
        while i < n
            invariant
                i <= n == options.messages@.len(),
                options == o,
                messages@.map_values(|m: ChatMessage| m@) == head + options.messages@.take(i as int).map_values(
                    |m: Message| chat_message_model(m),
                ),
            decreases n - i,
        {
            let ghost before = messages@;
            let c = chat_message_of(&options.messages[i]);
            messages.push(c);
            assert(messages@.map_values(|m: ChatMessage| m@) =~= before.map_values(|m: ChatMessage| m@).push(c@));
            assert(options.messages@.take(i + 1) =~= options.messages@.take(i as int).push(options.messages@[i as int]));
            assert(options.messages@.take(i + 1).map_values(|m: Message| chat_message_model(m))
                =~= options.messages@.take(i as int).map_values(|m: Message| chat_message_model(m)).push(
                chat_message_model(options.messages@[i as int]),
            ));
            i = i + 1;
        }
        assert(options.messages@.take(n as int) =~= options.messages@);
        let tools = match &options.tools {
            Some(ts) => {
                let k = ts.len();
                let mut out: Vec<Tool> = Vec::new();
                let mut j: usize = 0;
                while j < k
                    invariant
                        j <= k == ts@.len(),
                        out@.map_values(|x: Tool| x@) == ts@.take(j as int).map_values(
                            |t: SdkTool| chat_tool_model(t),
                        ),
                    decreases k - j,
                {
                    let ghost before = out@;
                    let t = chat_tool_of(&ts[j]);
                    out.push(t);
                    assert(out@.map_values(|x: Tool| x@) =~= before.map_values(|x: Tool| x@).push(t@));
                    assert(ts@.take(j + 1) =~= ts@.take(j as int).push(ts@[j as int]));
                    assert(ts@.take(j + 1).map_values(|t: SdkTool| chat_tool_model(t)) =~= ts@.take(
                        j as int,
                    ).map_values(|t: SdkTool| chat_tool_model(t)).push(chat_tool_model(ts@[j as int])));
                    j = j + 1;
                }
                assert(ts@.take(k as int) =~= ts@);
                Some(out)
            },
            None => None,
        };
        let response_format = match &options.schema {
            Some(s) => Some(response_format_of(s)),
            None => None,
        };
        let reasoning_effort = match options.reasoning_effort {
            Some(e) => Some(effort_name(e)),
            None => None,
        };
        let stop = match &options.stop_sequences {
            Some(seqs) => Some(stop_of(seqs)),
            None => None,
        };
        let has_tools = tools.is_some();
        let tool_choice = if has_tools {
            Some(ToolChoice::String(String::from_str("auto")))
        } else {
            None
        };
        let parallel_tool_calls = if has_tools {
            Some(true)
        } else {
            None
        };
        ChatCompletionsOptions {
            model: String::new(),
            messages,
            frequency_penalty: options.frequency_penalty,
            logit_bias: None,
            logprobs: None,
            top_logprobs: None,
            max_completion_tokens: options.max_output_tokens,
            n: None,
            presence_penalty: options.presence_penalty,
            response_format,
            seed: options.seed,
            stop,
            stream: None,
            stream_options: None,
            temperature: options.temperature,
            top_p: options.top_p,
            tools,
            tool_choice,
            parallel_tool_calls,
            reasoning_effort,
            verbosity: None,
            extra_body: options.body,
            extra_headers: options.headers,
        }
    }
}

impl vstd::std_specs::convert::FromSpecImpl<LanguageModelOptions> for ChatCompletionsOptions {
    // The conversion's contract is stated over the result's model (see
    // `from` above); no exact value is promised beyond that model.
    open spec fn obeys_from_spec() -> bool {
        false
    }

    open spec fn from_spec(v: LanguageModelOptions) -> ChatCompletionsOptions {
        choose|r: ChatCompletionsOptions| r@ == chat_options_model(v)
    }
}

// ---------------------------------- Usage ----------------------------------

/// The usage a Chat Completions usage report becomes: prompt and completion
/// tokens as input and output tokens, reasoning and cached tokens from the
/// details when they are reported.
pub open spec fn usage_from_chat(u: Usage) -> SdkUsage {
    SdkUsage {
        input_tokens: Some(u.prompt_tokens as usize),
        output_tokens: Some(u.completion_tokens as usize),
        reasoning_tokens: match u.completion_tokens_details {
            Some(d) => Some(d.reasoning_tokens as usize),
            None => None,
        },
        cached_tokens: match u.prompt_tokens_details {
            Some(d) => Some(d.cached_tokens as usize),
            None => None,
        },
        cache_miss_tokens: None,
    }
}

impl From<Usage> for SdkUsage {
    fn from(usage: Usage) -> (r: SdkUsage)
        ensures
            r == usage_from_chat(usage),
    {
        SdkUsage {
            input_tokens: Some(usage.prompt_tokens as usize),
            output_tokens: Some(usage.completion_tokens as usize),
            reasoning_tokens: match usage.completion_tokens_details {
                Some(d) => Some(d.reasoning_tokens as usize),
                None => None,
            },
            cached_tokens: match usage.prompt_tokens_details {
                Some(d) => Some(d.cached_tokens as usize),
                None => None,
            },
            cache_miss_tokens: None,
        }
    }
}

impl vstd::std_specs::convert::FromSpecImpl<Usage> for SdkUsage {
    open spec fn obeys_from_spec() -> bool {
        true
    }

    open spec fn from_spec(v: Usage) -> SdkUsage {
        usage_from_chat(v)
    }
}

} // verus!
