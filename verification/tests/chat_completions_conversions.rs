use aisdk::chat_completions::types::{
    ChatCompletionsOptions, ChatMessage, CompletionTokensDetails, PromptTokensDetails, ResponseFormat, Role,
    StopSequences, ToolChoice, Usage as ChatUsage,
};
use aisdk::json::{JsonDocument, JsonObject, JsonValue};
use aisdk::sdk::{
    AssistantMessage, LanguageModelOptions, LanguageModelResponseContentType, Message, ReasoningEffort, Tool,
    ToolCallInfo, ToolDetails, ToolResultInfo, Usage,
};

/// The schema that `schemars` derives for `struct StructuredOutput { answer: String }`.
fn structured_output_schema() -> JsonDocument {
    let mut o = JsonObject::new();
    o.insert(
        "$schema".to_string(),
        JsonValue::Str("https://json-schema.org/draft/2020-12/schema".to_string()),
    );
    o.insert("title".to_string(), JsonValue::Str("StructuredOutput".to_string()));
    o.insert("type".to_string(), JsonValue::Str("object".to_string()));
    o.insert(
        "properties".to_string(),
        JsonValue::Object("{\"answer\":{\"type\":\"string\"}}".to_string()),
    );
    o.insert("required".to_string(), JsonValue::Other("[\"answer\"]".to_string()));
    JsonDocument::Object(o)
}

/// The schema that `schemars` derives for `struct SumInput { a: i32, b: i32 }`.
fn sum_input_schema() -> JsonDocument {
    let mut o = JsonObject::new();
    o.insert(
        "$schema".to_string(),
        JsonValue::Str("https://json-schema.org/draft/2020-12/schema".to_string()),
    );
    o.insert("title".to_string(), JsonValue::Str("SumInput".to_string()));
    o.insert("type".to_string(), JsonValue::Str("object".to_string()));
    o.insert(
        "properties".to_string(),
        JsonValue::Object(
            "{\"a\":{\"format\":\"int32\",\"type\":\"integer\"},\"b\":{\"format\":\"int32\",\"type\":\"integer\"}}"
                .to_string(),
        ),
    );
    o.insert("required".to_string(), JsonValue::Other("[\"a\",\"b\"]".to_string()));
    JsonDocument::Object(o)
}

fn object_text_has_key(text: &str, key: &str) -> bool {
    let v: serde_json::Value = serde_json::from_str(text).unwrap();
    v.get(key).is_some()
}

fn member<'a>(doc: &'a JsonDocument, key: &str) -> Option<&'a JsonValue> {
    match doc {
        JsonDocument::Object(o) => o.get(&key.to_string()),
        _ => None,
    }
}

fn tool_call(name: &str, id: String, input: String) -> ToolCallInfo {
    let mut tc = ToolCallInfo::new(name);
    tc.id(id);
    tc.input(input);
    tc
}

#[test]
fn test_message_conversion_system() {
    let msg = Message::System("You are helpful".to_string().into());
    let chat_msg: ChatMessage = msg.into();

    assert_eq!(chat_msg.role, Role::System);
    assert_eq!(chat_msg.content, Some("You are helpful".to_string()));
    assert!(chat_msg.tool_calls.is_none());
}

#[test]
fn test_message_conversion_user() {
    let msg = Message::User("Hello".to_string().into());
    let chat_msg: ChatMessage = msg.into();

    assert_eq!(chat_msg.role, Role::User);
    assert_eq!(chat_msg.content, Some("Hello".to_string()));
}

#[test]
fn test_stop_sequences_single() {
    let options = LanguageModelOptions {
        stop_sequences: Some(vec!["STOP".to_string()]),
        ..Default::default()
    };

    let completions_opts: ChatCompletionsOptions = options.into();
    assert!(matches!(completions_opts.stop, Some(StopSequences::Single(_))));
}

#[test]
fn test_stop_sequences_multiple_truncated() {
    let options = LanguageModelOptions {
        stop_sequences: Some(vec![
            "S1".to_string(),
            "S2".to_string(),
            "S3".to_string(),
            "S4".to_string(),
            "S5".to_string(),
        ]),
        ..Default::default()
    };

    let completions_opts: ChatCompletionsOptions = options.into();
    if let Some(StopSequences::Multiple(seqs)) = completions_opts.stop {
        assert_eq!(seqs.len(), 4);
    }
}

#[test]
fn test_scalar_request_options_map_to_chat_completions_body() {
    let options = LanguageModelOptions {
        system: Some("You are helpful".to_string()),
        messages: vec![Message::User("Hello".to_string().into()).into()],
        temperature: Some(70),
        top_p: Some(90),
        seed: Some(42),
        frequency_penalty: Some(0.5f32.to_bits()),
        stop_sequences: Some(vec!["END".to_string()]),
        ..Default::default()
    };

    let completions_opts: ChatCompletionsOptions = options.into();

    // Sampling values are carried in hundredths; the API takes the fraction.
    assert!(completions_opts
        .temperature
        .map(|t| t as f32 / 100.0)
        .is_some_and(|value| (value - 0.7).abs() < f32::EPSILON));
    assert!(completions_opts
        .top_p
        .map(|t| t as f32 / 100.0)
        .is_some_and(|value| (value - 0.9).abs() < f32::EPSILON));
    assert_eq!(completions_opts.seed, Some(42));
    assert_eq!(completions_opts.frequency_penalty.map(f32::from_bits), Some(0.5));
    assert_eq!(completions_opts.messages.len(), 2);
    assert_eq!(completions_opts.messages[0].role, Role::System);
    assert_eq!(completions_opts.messages[0].content.as_deref(), Some("You are helpful"));
    assert_eq!(completions_opts.messages[1].role, Role::User);
    assert_eq!(completions_opts.messages[1].content.as_deref(), Some("Hello"));
    assert!(matches!(
        completions_opts.stop,
        Some(StopSequences::Single(sequence)) if sequence == "END"
    ));
}

#[test]
fn test_schema_and_reasoning_options_map_to_chat_completions_body() {
    let options = LanguageModelOptions {
        schema: Some(structured_output_schema()),
        reasoning_effort: Some(ReasoningEffort::High),
        ..Default::default()
    };

    let completions_opts: ChatCompletionsOptions = options.into();

    let Some(ResponseFormat::JsonSchema { json_schema }) = completions_opts.response_format else {
        panic!("expected json schema response format");
    };

    assert_eq!(json_schema.name, "StructuredOutput");
    assert_eq!(json_schema.strict, Some(true));
    assert!(matches!(
        member(&json_schema.schema, "additionalProperties"),
        Some(JsonValue::Bool(false))
    ));
    let Some(JsonValue::Object(properties)) = member(&json_schema.schema, "properties") else {
        panic!("expected properties");
    };
    assert!(object_text_has_key(properties, "answer"));
    assert_eq!(completions_opts.reasoning_effort.as_deref(), Some("high"));
}

#[test]
fn test_tools_map_to_chat_completions_body() {
    let tool = Tool {
        name: "sum".to_string(),
        description: "Adds two numbers".to_string(),
        input_schema: sum_input_schema(),
    };

    let options = LanguageModelOptions {
        tools: Some(vec![tool]),
        ..Default::default()
    };

    let completions_opts: ChatCompletionsOptions = options.into();
    let tools = completions_opts.tools.expect("tools should be present");
    let tool = &tools[0];

    assert_eq!(tools.len(), 1);
    assert_eq!(tool.function.name, "sum");
    assert_eq!(tool.function.description.as_deref(), Some("Adds two numbers"));
    assert_eq!(tool.function.strict, Some(true));
    assert!(matches!(
        member(&tool.function.parameters, "type"),
        Some(JsonValue::Str(t)) if t == "object"
    ));
    assert!(matches!(
        member(&tool.function.parameters, "additionalProperties"),
        Some(JsonValue::Bool(false))
    ));
    let Some(JsonValue::Object(properties)) = member(&tool.function.parameters, "properties") else {
        panic!("expected properties");
    };
    assert!(object_text_has_key(properties, "a"));
    assert!(object_text_has_key(properties, "b"));
    assert!(matches!(
        completions_opts.tool_choice,
        Some(ToolChoice::String(choice)) if choice == "auto"
    ));
    assert_eq!(completions_opts.parallel_tool_calls, Some(true));
}

#[test]
fn test_reasoned_response_conversion() {
    let msg = Message::Assistant(AssistantMessage {
        content: LanguageModelResponseContentType::ReasonedResponse {
            reasoning: "I need two tools".to_string(),
            text: String::new(),
            tool_calls: vec![
                tool_call("read_file", "call_1".to_string(), "{\"path\":\"a.rs\"}".to_string()),
                tool_call("search", "call_2".to_string(), "{\"pattern\":\"fn main\"}".to_string()),
            ],
        },
        usage: None,
    });

    let chat_msg: ChatMessage = msg.into();
    assert_eq!(chat_msg.role, Role::Assistant);
    assert_eq!(chat_msg.reasoning_content.as_deref(), Some("I need two tools"));
    let calls = chat_msg.tool_calls.as_ref().expect("tool_calls must be present");
    assert_eq!(calls.len(), 2);
    assert_eq!(calls[0].function.name, "read_file");
    assert_eq!(calls[1].function.name, "search");
}

#[test]
fn test_reasoned_response_no_tool_calls() {
    let msg = Message::Assistant(AssistantMessage {
        content: LanguageModelResponseContentType::ReasonedResponse {
            reasoning: "Let me think...".to_string(),
            text: "The answer is 42".to_string(),
            tool_calls: vec![],
        },
        usage: None,
    });

    let chat_msg: ChatMessage = msg.into();
    assert_eq!(chat_msg.role, Role::Assistant);
    assert_eq!(chat_msg.reasoning_content.as_deref(), Some("Let me think..."));
    assert_eq!(chat_msg.content.as_deref(), Some("The answer is 42"));
    assert!(chat_msg.tool_calls.is_none());
}

/// Many tool round-trips: every message and every tool call must survive the
/// conversion (checked on the request body rather than on its JSON text).
#[test]
fn test_reasoned_response_serialization_with_many_messages() {
    let mut messages = Vec::new();
    messages.push(Message::System("You are a helpful assistant".to_string().into()).into());

    for i in 0..6 {
        messages.push(Message::User(format!("Request {}", i).into()).into());

        let tc1 = tool_call(
            "file_read",
            format!("call_{i}_0"),
            format!("{{\"end_line\":50,\"path\":\"/tmp/file{}.txt\",\"start_line\":1}}", i),
        );
        let tc2 = tool_call(
            "file_glob",
            format!("call_{i}_1"),
            format!("{{\"pattern\":\"**/*.{}.kt\",\"working_dir\":\"/Users/test\"}}", i),
        );
        let tc3 = tool_call("search", format!("call_{i}_2"), format!("{{\"query\":\"test query {}\"}}", i));

        messages.push(
            Message::Assistant(AssistantMessage {
                content: LanguageModelResponseContentType::ReasonedResponse {
                    reasoning: format!("Thinking about request {}...", i),
                    text: String::new(),
                    tool_calls: vec![tc1, tc2, tc3],
                },
                usage: None,
            })
            .into(),
        );

        let results = [
            ("file_read", 0, format!("{{\"content\":\"content of file {}\"}}", i)),
            ("file_glob", 1, format!("{{\"matches\":[\"file{}.kt\"]}}", i)),
            ("search", 2, "{\"results\":[]}".to_string()),
        ];
        for (name, k, output) in results {
            let mut r = ToolResultInfo::new(name);
            r.tool = ToolDetails { name: name.to_string(), id: format!("call_{i}_{k}") };
            r.output = Ok(output);
            messages.push(Message::Tool(r).into());
        }
    }

    let options = LanguageModelOptions { messages, ..Default::default() };

    let completions_opts: ChatCompletionsOptions = options.into();
    let msgs = &completions_opts.messages;
    // 1 system + 6*(1 user + 1 assistant + 3 tool) = 1 + 6*5 = 31
    assert_eq!(msgs.len(), 31, "expected 31 messages, got {}", msgs.len());

    let mut assistant_count = 0;
    for msg in msgs {
        if msg.role == Role::Assistant && msg.reasoning_content.is_some() {
            assistant_count += 1;
            let tcs = msg.tool_calls.as_ref().expect("tool_calls must be present and an array");
            assert_eq!(tcs.len(), 3, "assistant message {} should have 3 tool_calls", assistant_count);
            for tc in tcs {
                assert!(!tc.id.is_empty(), "each tool_call must have id");
                assert_eq!(tc.type_, "function", "each tool_call must have type=function");
                assert!(!tc.function.name.is_empty(), "tool_call must have function name");
                assert!(serde_json::from_str::<serde_json::Value>(&tc.function.arguments).is_ok());
            }
        }
    }
    assert_eq!(assistant_count, 6, "expected 6 assistant messages with reasoning");

    let last_assistant = msgs
        .iter()
        .rev()
        .find(|m| m.role == Role::Assistant && m.reasoning_content.is_some())
        .expect("must have assistant message");
    let last_tcs = last_assistant.tool_calls.as_ref().unwrap();
    assert_eq!(last_tcs.len(), 3);
    assert_eq!(last_tcs[2].function.name, "search");
    assert_eq!(last_tcs[2].id, "call_5_2");
}

#[test]
fn test_usage_conversion() {
    let usage = ChatUsage {
        prompt_tokens: 100,
        completion_tokens: 50,
        total_tokens: 150,
        prompt_tokens_details: Some(PromptTokensDetails { cached_tokens: 20, audio_tokens: None }),
        completion_tokens_details: Some(CompletionTokensDetails {
            reasoning_tokens: 10,
            audio_tokens: None,
            accepted_prediction_tokens: None,
            rejected_prediction_tokens: None,
        }),
    };

    let sdk_usage: Usage = usage.into();
    assert_eq!(sdk_usage.input_tokens, Some(100));
    assert_eq!(sdk_usage.output_tokens, Some(50));
    assert_eq!(sdk_usage.cached_tokens, Some(20));
    assert_eq!(sdk_usage.reasoning_tokens, Some(10));
}
