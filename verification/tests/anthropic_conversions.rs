use aisdk::anthropic::types::{
    AnthropicCacheCreation, AnthropicMessageDeltaUsage, AnthropicMessageParam, AnthropicOptions,
    AnthropicServerToolUsage, AnthropicThinking, AnthropicToolResultBlock, AnthropicToolResultContent,
    AnthropicUsage, AnthropicUserMessageContent, AnthropicUserMessageContentBlock,
};
use aisdk::json::{JsonDocument, JsonObject, JsonValue};
use aisdk::sdk::{
    LanguageModelOptions, MediaContent, Message, ReasoningEffort, Tool, ToolDetails, ToolResultInfo,
    Usage, UserMessage,
};

/// The schema that `schemars` derives for `struct SumInput { a: i32, b: i32 }`.
fn sum_input_schema() -> JsonDocument {
    let mut o = JsonObject::new();
    o.insert(
        "$schema".to_string(),
        JsonValue::Str("https://json-schema.org/draft/2020-12/schema".to_string()),
    );
    o.insert("title".to_string(), JsonValue::Str("SumInput".to_string()));
    o.insert("type".to_string(), JsonValue::Str("object".to_string()));
    o.insert(
        "properties".to_string(),
        JsonValue::Object(
            "{\"a\":{\"format\":\"int32\",\"type\":\"integer\"},\"b\":{\"format\":\"int32\",\"type\":\"integer\"}}"
                .to_string(),
        ),
    );
    o.insert("required".to_string(), JsonValue::Other("[\"a\",\"b\"]".to_string()));
    JsonDocument::Object(o)
}

fn object_text_has_key(text: &str, key: &str) -> bool {
    let v: serde_json::Value = serde_json::from_str(text).unwrap();
    v.get(key).is_some()
}

#[test]
fn test_scalar_request_options_map_to_anthropic_body() {
    let options = LanguageModelOptions {
        system: Some("You are helpful".to_string()),
        messages: vec![Message::User("Hello".to_string().into()).into()],
        ..Default::default()
    };

    let req: AnthropicOptions = options.into();

    assert_eq!(req.system.as_deref(), Some("You are helpful"));
    assert_eq!(req.messages.len(), 1);

    match &req.messages[0] {
        AnthropicMessageParam::User { content } => match content {
            AnthropicUserMessageContent::Text(text) => {
                assert_eq!(text, "Hello")
            }
            _ => panic!("expected user text message"),
        },
        _ => panic!("expected user message"),
    }
}

#[test]
fn test_reasoning_maps_to_thinking_budget() {
    let options = LanguageModelOptions {
        max_output_tokens: Some(200),
        reasoning_effort: Some(ReasoningEffort::High),
        ..Default::default()
    };

    let req: AnthropicOptions = options.into();

    match req.thinking {
        Some(AnthropicThinking::Enable { budget_tokens }) => {
            assert_eq!(budget_tokens, 150);
        }
        _ => panic!("expected anthropic thinking to be enabled"),
    }
}

#[test]
fn test_tools_map_to_anthropic_body() {
    let tool = Tool {
        name: "sum".to_string(),
        description: "Adds two numbers".to_string(),
        input_schema: sum_input_schema(),
    };

    let options = LanguageModelOptions {
        tools: Some(vec![tool]),
        ..Default::default()
    };

    let req: AnthropicOptions = options.into();
    let tools = req.tools.expect("tools should be present");
    assert_eq!(tools.len(), 1);
    assert_eq!(tools[0].name, "sum");
    assert_eq!(tools[0].description, "Adds two numbers");
    let JsonDocument::Object(schema) = &tools[0].input_schema else {
        panic!("expected an object schema");
    };
    assert!(matches!(schema.get(&"type".to_string()), Some(JsonValue::Str(t)) if t == "object"));
    let Some(JsonValue::Object(properties)) = schema.get(&"properties".to_string()) else {
        panic!("expected properties");
    };
    assert!(object_text_has_key(properties, "a"));
    assert!(object_text_has_key(properties, "b"));
    assert!(schema.get(&"$schema".to_string()).is_none());
}

#[test]
fn test_anthropic_usage_to_usage_conversion() {
    let usage = AnthropicUsage {
        cache_creation: AnthropicCacheCreation {
            ephemeral_1h_input_tokens: 0,
            ephemeral_5m_input_tokens: 0,
        },
        cache_creation_input_tokens: 4,
        cache_read_input_tokens: 6,
        input_tokens: 100,
        output_tokens: 50,
        server_tool_use: AnthropicServerToolUsage::default(),
        service_tier: "standard".to_string(),
    };

    let sdk_usage: Usage = usage.into();
    assert_eq!(sdk_usage.input_tokens, Some(100));
    assert_eq!(sdk_usage.output_tokens, Some(50));
    assert_eq!(sdk_usage.cached_tokens, Some(10));
    assert_eq!(sdk_usage.reasoning_tokens, None);
}

#[test]
fn test_anthropic_delta_usage_to_usage_conversion() {
    let usage = AnthropicMessageDeltaUsage {
        cache_creation_input_tokens: Some(3),
        cache_read_input_tokens: Some(2),
        input_tokens: Some(10),
        output_tokens: 7,
        server_tool_use: None,
    };

    let sdk_usage: Usage = usage.into();
    assert_eq!(sdk_usage.input_tokens, Some(10));
    assert_eq!(sdk_usage.output_tokens, Some(7));
    assert_eq!(sdk_usage.cached_tokens, Some(5));
    assert_eq!(sdk_usage.reasoning_tokens, None);
}

#[test]
fn test_user_message_with_image_media_becomes_blocks_image_then_text() {
    let options = LanguageModelOptions {
        messages: vec![Message::User(UserMessage::with_media(
            "describe this image",
            vec![MediaContent::new("aGVsbG8=", "image/png")],
        ))
        .into()],
        ..Default::default()
    };

    let req: AnthropicOptions = options.into();
    assert_eq!(req.messages.len(), 1);
    match &req.messages[0] {
        AnthropicMessageParam::User { content } => match content {
            AnthropicUserMessageContent::Blocks(blocks) => {
                assert_eq!(blocks.len(), 2, "image block + text block");
                match &blocks[0] {
                    AnthropicUserMessageContentBlock::Image { source } => {
                        assert_eq!(source.source_type, "base64");
                        assert_eq!(source.media_type, "image/png");
                        assert_eq!(source.data, "aGVsbG8=");
                    }
                    other => panic!("expected image block first, got: {other:?}"),
                }
                match &blocks[1] {
                    AnthropicUserMessageContentBlock::Text { text } => {
                        assert_eq!(text, "describe this image");
                    }
                    other => panic!("expected text block last, got: {other:?}"),
                }
            }
            other => panic!("expected Blocks content, got: {other:?}"),
        },
        _ => panic!("expected user message"),
    }
}

#[test]
fn test_user_message_without_media_stays_plain_text() {
    let options = LanguageModelOptions {
        messages: vec![Message::User("no image here".to_string().into()).into()],
        ..Default::default()
    };
    let req: AnthropicOptions = options.into();
    match &req.messages[0] {
        AnthropicMessageParam::User { content } => {
            assert!(
                matches!(content, AnthropicUserMessageContent::Text(t) if t == "no image here"),
                "a media-less user message must keep the simpler Text shape, got: {content:?}"
            );
        }
        _ => panic!("expected user message"),
    }
}

#[test]
fn test_tool_result_with_image_media_embeds_image_block() {
    let mut result = ToolResultInfo::new("media_read");
    result.tool = ToolDetails {
        name: "media_read".to_string(),
        id: "call-1".to_string(),
    };
    result.output = Ok("{\"path\":\"photo.png\"}".to_string());
    result.media = vec![MediaContent::new("aW1hZ2U=", "image/jpeg")];

    let options = LanguageModelOptions {
        messages: vec![Message::Tool(result).into()],
        ..Default::default()
    };
    let req: AnthropicOptions = options.into();
    match &req.messages[0] {
        AnthropicMessageParam::User { content } => match content {
            AnthropicUserMessageContent::Blocks(blocks) => {
                assert_eq!(blocks.len(), 1);
                match &blocks[0] {
                    AnthropicUserMessageContentBlock::ToolResult {
                        tool_use_id,
                        content,
                    } => {
                        assert_eq!(tool_use_id, "call-1");
                        match content {
                            AnthropicToolResultContent::Blocks(inner) => {
                                assert_eq!(inner.len(), 2, "text block + image block");
                                assert!(matches!(&inner[0], AnthropicToolResultBlock::Text { .. }));
                                match &inner[1] {
                                    AnthropicToolResultBlock::Image { source } => {
                                        assert_eq!(source.media_type, "image/jpeg");
                                        assert_eq!(source.data, "aW1hZ2U=");
                                    }
                                    other => panic!("expected image block, got: {other:?}"),
                                }
                            }
                            other => {
                                panic!("expected Blocks tool_result content, got: {other:?}")
                            }
                        }
                    }
                    other => panic!("expected ToolResult block, got: {other:?}"),
                }
            }
            other => panic!("expected Blocks content, got: {other:?}"),
        },
        _ => panic!("expected user message wrapping the tool result"),
    }
}

#[test]
fn test_tool_result_without_media_stays_plain_text_content() {
    let mut result = ToolResultInfo::new("file_read");
    result.tool = ToolDetails {
        name: "file_read".to_string(),
        id: "call-2".to_string(),
    };
    result.output = Ok("\"file contents\"".to_string());

    let options = LanguageModelOptions {
        messages: vec![Message::Tool(result).into()],
        ..Default::default()
    };
    let req: AnthropicOptions = options.into();
    match &req.messages[0] {
        AnthropicMessageParam::User { content } => match content {
            AnthropicUserMessageContent::Blocks(blocks) => match &blocks[0] {
                AnthropicUserMessageContentBlock::ToolResult { content, .. } => {
                    assert!(
                        matches!(content, AnthropicToolResultContent::Text(_)),
                        "a media-less tool result must keep the simpler Text shape, got: {content:?}"
                    );
                }
                other => panic!("expected ToolResult block, got: {other:?}"),
            },
            other => panic!("expected Blocks content, got: {other:?}"),
        },
        _ => panic!("expected user message wrapping the tool result"),
    }
}
