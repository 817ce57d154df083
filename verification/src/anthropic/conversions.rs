//! Conversions between the provider-independent model and the Anthropic
//! Messages API: request options into a request body, and Anthropic token
//! usage into [`Usage`].
use vstd::prelude::*;
use crate::anthropic::types::{
    base64_source, AnthropicAssistantMessageParamContent,
    AnthropicAssistantMessageParamContentView, AnthropicImageSource, AnthropicMessageDeltaUsage,
    AnthropicMessageParam, AnthropicMessageParamView, AnthropicOptions, AnthropicOptionsView,
    AnthropicThinking, AnthropicTool, AnthropicToolResultBlock, AnthropicToolResultBlockView,
    AnthropicToolResultContent, AnthropicToolResultContentView, AnthropicToolView, AnthropicUsage,
    AnthropicUserMessageContent, AnthropicUserMessageContentBlock,
    AnthropicUserMessageContentBlockView, AnthropicUserMessageContentView,
};
use crate::json::{opt_object, JsonDocument, JsonDocumentView};
use crate::sdk::{
    is_image_media, LanguageModelOptions, LanguageModelResponseContentType, MediaContent, Message,
    ReasoningEffort, Tool, ToolResultInfo, Usage, UserMessage,
};
use crate::text::{concat3, opt_pairs, opt_str};

verus! {

// ---------------------------------- Models ----------------------------------

/// The image block an attachment becomes: a `base64` image for image
/// media, nothing for other media.
pub open spec fn image_block_of(m: MediaContent) -> Option<AnthropicUserMessageContentBlockView> {
    if is_image_media(m) {
        Some(AnthropicUserMessageContentBlockView::Image(base64_source(m.mime_type@, m.data@)))
    } else {
        None
    }
}

/// The image blocks of a user message's attachments, in order; non-image
/// media is skipped.
pub open spec fn user_image_blocks(media: Seq<MediaContent>) -> Seq<AnthropicUserMessageContentBlockView>
    decreases media.len(),
{
    if media.len() == 0 {
        seq![]
    } else {
        let rest = user_image_blocks(media.drop_last());
        match image_block_of(media.last()) {
            Some(b) => rest.push(b),
            None => rest,
        }
    }
}

/// The content a user message becomes: plain text when it has no
/// attachments; otherwise the image blocks first and then the text, if
/// there is any text.
pub open spec fn user_content_model(u: UserMessage) -> AnthropicUserMessageContentView {
    if u.media@.len() == 0 {
        AnthropicUserMessageContentView::Text(u.content@)
    } else {
        let blocks = user_image_blocks(u.media@);
        AnthropicUserMessageContentView::Blocks(
            if u.content@.len() == 0 {
                blocks
            } else {
                blocks.push(AnthropicUserMessageContentBlockView::Text(u.content@))
            },
        )
    }
}

/// The image blocks of a tool result's attachments, in order; non-image
/// media is skipped.
pub open spec fn tool_image_blocks(media: Seq<MediaContent>) -> Seq<AnthropicToolResultBlockView>
    decreases media.len(),
{
    if media.len() == 0 {
        seq![]
    } else {
        let rest = tool_image_blocks(media.drop_last());
        if is_image_media(media.last()) {
            rest.push(
                AnthropicToolResultBlockView::Image(base64_source(media.last().mime_type@, media.last().data@)),
            )
        } else {
            rest
        }
    }
}

/// The text of a tool's output: its JSON, or `null` when the tool failed.
pub open spec fn tool_output_text(output: Result<String, String>) -> Seq<char> {
    match output {
        Ok(v) => v@,
        Err(_) => "null"@,
    }
}

/// The content of a `tool_result` block: the output text alone when the
/// result carries no image; otherwise the text block followed by the images.
pub open spec fn tool_result_content_model(t: ToolResultInfo) -> AnthropicToolResultContentView {
    let text = tool_output_text(t.output);
    let images = tool_image_blocks(t.media@);
    if images.len() == 0 {
        AnthropicToolResultContentView::Text(text)
    } else {
        AnthropicToolResultContentView::Blocks(seq![AnthropicToolResultBlockView::Text(text)] + images)
    }
}

/// A developer message, wrapped for a model that has no developer role.
pub open spec fn developer_text(d: Seq<char>) -> Seq<char> {
    "<developer>\n"@ + d + "\n</developer>"@
}

/// The request message a message becomes, if any: system messages go to
/// the request's `system` field; assistant turns that are neither text, a
/// tool call nor reasoning are dropped.
pub open spec fn anthropic_message_model(m: Message) -> Option<AnthropicMessageParamView> {
    match m {
        Message::System(_) => None,
        Message::User(u) => Some(AnthropicMessageParamView::User(user_content_model(u))),
        Message::Assistant(a) => match a.content {
            LanguageModelResponseContentType::Text(t) => Some(
                AnthropicMessageParamView::Assistant(seq![AnthropicAssistantMessageParamContentView::Text(t@)]),
            ),
            LanguageModelResponseContentType::ToolCall(tc) => Some(
                AnthropicMessageParamView::Assistant(
                    seq![
                        AnthropicAssistantMessageParamContentView::ToolUse {
                            id: tc.tool.id@,
                            input: tc.input@,
                            name: tc.tool.name@,
                        },
                    ],
                ),
            ),
            LanguageModelResponseContentType::Reasoning { content, signature } => Some(
                AnthropicMessageParamView::Assistant(
                    seq![
                        AnthropicAssistantMessageParamContentView::Thinking {
                            thinking: content@,
                            signature: match signature {
                                Some(s) => s@,
                                None => content@,
                            },
                        },
                    ],
                ),
            ),
            _ => None,
        },
        Message::Tool(t) => Some(
            AnthropicMessageParamView::User(
                AnthropicUserMessageContentView::Blocks(
                    seq![
                        AnthropicUserMessageContentBlockView::ToolResult {
                            tool_use_id: t.tool.id@,
                            content: tool_result_content_model(t),
                        },
                    ],
                ),
            ),
        ),
        Message::Developer(d) => Some(
            AnthropicMessageParamView::User(AnthropicUserMessageContentView::Text(developer_text(d@))),
        ),
    }
}

/// The request messages a conversation becomes, in order.
pub open spec fn anthropic_messages_model(ms: Seq<Message>) -> Seq<AnthropicMessageParamView>
    decreases ms.len(),
{
    if ms.len() == 0 {
        seq![]
    } else {
        let rest = anthropic_messages_model(ms.drop_last());
        match anthropic_message_model(ms.last()) {
            Some(p) => rest.push(p),
            None => rest,
        }
    }
}

/// The request's system prompt: the last non-empty system message, or else
/// the options' system prompt if it is non-empty.
pub open spec fn anthropic_system_model(initial: Option<String>, ms: Seq<Message>) -> Option<Seq<char>>
    decreases ms.len(),
{
    if ms.len() == 0 {
        match initial {
            Some(s) => if s@.len() > 0 {
                Some(s@)
            } else {
                None
            },
            None => None,
        }
    } else {
        match ms.last() {
            Message::System(s) => if s.content@.len() > 0 {
                Some(s.content@)
            } else {
                anthropic_system_model(initial, ms.drop_last())
            },
            _ => anthropic_system_model(initial, ms.drop_last()),
        }
    }
}

/// The token limit the thinking budget is taken from: the options' limit,
/// or 10,000 when none is set.
pub open spec fn max_tokens_or_default(max_output_tokens: Option<u32>) -> nat {
    match max_output_tokens {
        Some(m) => m as nat,
        None => 10_000,
    }
}

/// The budget of each reasoning effort: none disables thinking; low,
/// medium, high and extra high take 25%, 50%, 75% and 90% of the token
/// limit (rounded as the integer arithmetic below rounds).
pub open spec fn thinking_model(effort: ReasoningEffort, max_tokens: nat) -> AnthropicThinking {
    match effort {
        ReasoningEffort::Off => AnthropicThinking::Disable,
        ReasoningEffort::Low => AnthropicThinking::Enable { budget_tokens: (max_tokens / 4) as usize },
        ReasoningEffort::Medium => AnthropicThinking::Enable { budget_tokens: (max_tokens / 2) as usize },
        ReasoningEffort::High => AnthropicThinking::Enable {
            budget_tokens: (max_tokens - max_tokens / 4) as usize,
        },
        ReasoningEffort::XHigh => AnthropicThinking::Enable { budget_tokens: ((max_tokens * 9) / 10) as usize },
    }
}

/// A tool's schema with its `$schema` key removed, when it is an object.
pub open spec fn schema_without_meta(d: JsonDocumentView) -> JsonDocumentView {
    match d {
        JsonDocumentView::Object(o) => JsonDocumentView::Object(o.remove("$schema"@)),
        _ => d,
    }
}

/// The Anthropic tool a tool becomes.
pub open spec fn anthropic_tool_model(t: Tool) -> AnthropicToolView {
    AnthropicToolView {
        name: t.name@,
        description: t.description@,
        input_schema: schema_without_meta(t.input_schema@),
    }
}

/// The Anthropic tools a list of tools becomes, in order.
pub open spec fn anthropic_tools_model(ts: Seq<Tool>) -> Seq<AnthropicToolView> {
    ts.map_values(|t: Tool| anthropic_tool_model(t))
}

/// The request body that request options become.
pub open spec fn anthropic_options_model(o: LanguageModelOptions) -> AnthropicOptionsView {
    AnthropicOptionsView {
        model: Seq::empty(),
        system: anthropic_system_model(o.system, o.messages@),
        messages: anthropic_messages_model(o.messages@),
        tools: match o.tools {
            Some(ts) => Some(anthropic_tools_model(ts@)),
            None => None,
        },
        thinking: match o.reasoning_effort {
            Some(e) => Some(thinking_model(e, max_tokens_or_default(o.max_output_tokens))),
            None => None,
        },
        extra_body: opt_object(o.body),
        extra_headers: opt_pairs(o.headers),
    }
}

// ---------------------------------- Conversions ----------------------------------

/// Converts an attachment to an Anthropic `image` content block. Non-image
/// media (audio, etc.) is skipped rather than sent as a malformed request.
pub fn media_to_image_block(media: &MediaContent) -> (r: Option<AnthropicUserMessageContentBlock>)
    ensures
        match r {
            Some(b) => image_block_of(*media) == Some(b@),
            None => image_block_of(*media) is None,
        },
{
    if media.is_image() {
        Some(
            AnthropicUserMessageContentBlock::Image {
                source: AnthropicImageSource::base64(media.mime_type.clone(), media.data.clone()),
            },
        )
    } else {
        None
    }
}

/// The content of a user message.
fn user_content(u: &UserMessage) -> (r: AnthropicUserMessageContent)
    ensures
        r@ == user_content_model(*u),
{
    if u.media.len() == 0 {
        return AnthropicUserMessageContent::Text(u.content.clone());
    }
    let n = u.media.len();
    let mut blocks: Vec<AnthropicUserMessageContentBlock> = Vec::new();
    let mut i: usize = 0;
    while i < n
        invariant
            i <= n == u.media@.len(),
            blocks@.map_values(|x: AnthropicUserMessageContentBlock| x@) == user_image_blocks(
                u.media@.take(i as int),
            ),
        decreases n - i,
    {
        assert(u.media@.take(i + 1).drop_last() =~= u.media@.take(i as int));
        let ghost before = blocks@;
        match media_to_image_block(&u.media[i]) {
            Some(b) => {
                blocks.push(b);
                assert(blocks@.map_values(|x: AnthropicUserMessageContentBlock| x@) =~= before.map_values(
                    |x: AnthropicUserMessageContentBlock| x@,
                ).push(b@));
            },
            None => {},
        }
        i = i + 1;
    }
    assert(u.media@.take(n as int) =~= u.media@);
    if !u.content.as_str().is_empty() {
        let ghost before = blocks@;
        let t = AnthropicUserMessageContentBlock::Text { text: u.content.clone() };
        blocks.push(t);
        assert(blocks@.map_values(|x: AnthropicUserMessageContentBlock| x@) =~= before.map_values(
            |x: AnthropicUserMessageContentBlock| x@,
        ).push(t@));
    }
    AnthropicUserMessageContent::Blocks(blocks)
}

/// The content of a `tool_result` block.
fn tool_result_content(t: &ToolResultInfo) -> (r: AnthropicToolResultContent)
    ensures
        r@ == tool_result_content_model(*t),
{
    let text = match &t.output {
        Ok(v) => v.clone(),
        Err(_) => String::from_str("null"),
    };
    let n = t.media.len();
    let mut images: Vec<AnthropicToolResultBlock> = Vec::new();
    let mut i: usize = 0;
    while i < n
        invariant
            i <= n == t.media@.len(),
            images@.map_values(|x: AnthropicToolResultBlock| x@) == tool_image_blocks(t.media@.take(i as int)),
        decreases n - i,
    {
        assert(t.media@.take(i + 1).drop_last() =~= t.media@.take(i as int));
        let m = &t.media[i];
        if m.is_image() {
            let ghost before = images@;
            let b = AnthropicToolResultBlock::Image {
                source: AnthropicImageSource::base64(m.mime_type.clone(), m.data.clone()),
            };
            images.push(b);
            assert(images@.map_values(|x: AnthropicToolResultBlock| x@) =~= before.map_values(
                |x: AnthropicToolResultBlock| x@,
            ).push(b@));
        }
        i = i + 1;
    }
    assert(t.media@.take(n as int) =~= t.media@);
    if images.len() == 0 {
        AnthropicToolResultContent::Text(text)
    } else {
        let ghost imgs = images@;
        let first = AnthropicToolResultBlock::Text { text };
        let mut blocks: Vec<AnthropicToolResultBlock> = Vec::new();
        blocks.push(first);
        blocks.append(&mut images);
        assert(blocks@ =~= seq![first] + imgs);
        assert(blocks@.map_values(|x: AnthropicToolResultBlock| x@) =~= seq![first@] + imgs.map_values(
            |x: AnthropicToolResultBlock| x@,
        ));
        AnthropicToolResultContent::Blocks(blocks)
    }
}

/// The request message a message becomes, if any.
fn convert_message(m: &Message) -> (r: Option<AnthropicMessageParam>)
    ensures
        match r {
            Some(p) => anthropic_message_model(*m) == Some(p@),
            None => anthropic_message_model(*m) is None,
        },
{
    match m {
        Message::System(_) => None,
        Message::User(u) => Some(AnthropicMessageParam::User { content: user_content(u) }),
        Message::Assistant(a) => match &a.content {
            LanguageModelResponseContentType::Text(text) => {
                let mut content = Vec::new();
                let c = AnthropicAssistantMessageParamContent::Text { text: text.clone() };
                content.push(c);
                assert(content@.map_values(|x: AnthropicAssistantMessageParamContent| x@) =~= seq![c@]);
                let p = AnthropicMessageParam::Assistant { content };
                Some(p)
            },
            LanguageModelResponseContentType::ToolCall(tc) => {
                let mut content = Vec::new();
                let c = AnthropicAssistantMessageParamContent::ToolUse {
                    id: tc.tool.id.clone(),
                    input: tc.input.clone(),
                    name: tc.tool.name.clone(),
                };
                content.push(c);
                assert(content@.map_values(|x: AnthropicAssistantMessageParamContent| x@) =~= seq![c@]);
                let p = AnthropicMessageParam::Assistant { content };
                Some(p)
            },
            LanguageModelResponseContentType::Reasoning { content, signature } => {
                let sig = match signature {
                    Some(s) => s.clone(),
                    None => content.clone(),
                };
                let mut blocks = Vec::new();
                let c = AnthropicAssistantMessageParamContent::Thinking { thinking: content.clone(), signature: sig };
                blocks.push(c);
                assert(blocks@.map_values(|x: AnthropicAssistantMessageParamContent| x@) =~= seq![c@]);
                let p = AnthropicMessageParam::Assistant { content: blocks };
                Some(p)
            },
            _ => None,
        },
        Message::Tool(t) => {
            let block = AnthropicUserMessageContentBlock::ToolResult {
                tool_use_id: t.tool.id.clone(),
                content: tool_result_content(t),
            };
            let mut blocks = Vec::new();
            blocks.push(block);
            assert(blocks@.map_values(|x: AnthropicUserMessageContentBlock| x@) =~= seq![block@]);
            let p = AnthropicMessageParam::User { content: AnthropicUserMessageContent::Blocks(blocks) };
            Some(p)
        },
        Message::Developer(d) => {
            let text = concat3("<developer>\n", d.as_str(), "\n</developer>");
            Some(AnthropicMessageParam::User { content: AnthropicUserMessageContent::Text(text) })
        },
    }
}

/// The Anthropic tool a tool becomes: its schema loses its `$schema` key.
fn convert_tool(t: &Tool) -> (r: AnthropicTool)
    ensures
        r@ == anthropic_tool_model(*t),
{
    let mut schema = t.input_schema.clone();
    match &mut schema {
        JsonDocument::Object(o) => {
            o.remove(&String::from_str("$schema"));
        },
        _ => {},
    }
    AnthropicTool { name: t.name.clone(), description: t.description.clone(), input_schema: schema }
}

/// The thinking setting of a reasoning effort under a token limit.
fn thinking_for(effort: ReasoningEffort, max_tokens: u32) -> (r: AnthropicThinking)
    ensures
        r == thinking_model(effort, max_tokens as nat),
{
    let m = max_tokens as u64;
    match effort {
        ReasoningEffort::Off => AnthropicThinking::Disable,
        ReasoningEffort::Low => AnthropicThinking::Enable { budget_tokens: (m / 4) as usize },
        ReasoningEffort::Medium => AnthropicThinking::Enable { budget_tokens: (m / 2) as usize },
        ReasoningEffort::High => AnthropicThinking::Enable { budget_tokens: (m - m / 4) as usize },
        ReasoningEffort::XHigh => {
            let b = (m * 9) / 10;
            assert(b <= m) by (nonlinear_arith)
                requires
                    b == (m * 9) / 10,
            ;
            AnthropicThinking::Enable { budget_tokens: b as usize }
        },
    }
}

impl From<LanguageModelOptions> for AnthropicOptions {
    /// Builds the Messages API request body: the system prompt, the
    /// messages, the tools and the thinking budget, with the extra body
    /// fields and headers passed along.
    fn from(options: LanguageModelOptions) -> (r: AnthropicOptions)
        ensures
            r@ == anthropic_options_model(options),
    {
        let ghost o = options;
        let max_tokens = match options.max_output_tokens {
            Some(m) => m,
            None => 10_000,
        };
        let mut system: Option<String> = match &options.system {
            Some(s) => if !s.as_str().is_empty() {
                Some(s.clone())
            } else {
                None
            },
            None => None,
        };
        let n = options.messages.len();
        let mut messages: Vec<AnthropicMessageParam> = Vec::new();
        let mut i: usize = 0;
        while i < n
            invariant
                i <= n == options.messages@.len(),
                options == o,
                opt_str(system) == anthropic_system_model(options.system, options.messages@.take(i as int)),
                messages@.map_values(|x: AnthropicMessageParam| x@) == anthropic_messages_model(
                    options.messages@.take(i as int),
                ),
            decreases n - i,
        {
            assert(options.messages@.take(i + 1).drop_last() =~= options.messages@.take(i as int));
            let msg = &options.messages[i];
            match msg {
                Message::System(s) => {
                    if !s.content.as_str().is_empty() {
                        system = Some(s.content.clone());
                    }
                },
                _ => {},
            }
            let ghost before = messages@;
            match convert_message(msg) {
                Some(p) => {
                    messages.push(p);
                    assert(messages@.map_values(|x: AnthropicMessageParam| x@) =~= before.map_values(
                        |x: AnthropicMessageParam| x@,
                    ).push(p@));
                },
                None => {},
            }
            i = i + 1;
        }
        assert(options.messages@.take(n as int) =~= options.messages@);
        let tools = match &options.tools {
            Some(ts) => {
                let k = ts.len();
                let mut out: Vec<AnthropicTool> = Vec::new();
                let mut j: usize = 0;
                while j < k
                    invariant
                        j <= k == ts@.len(),
                        out@.map_values(|x: AnthropicTool| x@) == anthropic_tools_model(ts@.take(j as int)),
                    decreases k - j,
                {
                    let ghost before = out@;
                    let t = convert_tool(&ts[j]);
                    out.push(t);
                    assert(out@.map_values(|x: AnthropicTool| x@) =~= before.map_values(|x: AnthropicTool| x@).push(
                        t@,
                    ));
                    assert(ts@.take(j + 1) =~= ts@.take(j as int).push(ts@[j as int]));
                    assert(anthropic_tools_model(ts@.take(j + 1)) =~= anthropic_tools_model(ts@.take(j as int)).push(
                        anthropic_tool_model(ts@[j as int]),
                    ));
                    j = j + 1;
                }
                assert(ts@.take(k as int) =~= ts@);
                Some(out)
            },
            None => None,
        };
        let thinking = match options.reasoning_effort {
            Some(effort) => Some(thinking_for(effort, max_tokens)),
            None => None,
        };
        AnthropicOptions {
            model: String::new(),
            system,
            messages,
            tools,
            thinking,
            extra_body: options.body,
            extra_headers: options.headers,
        }
    }
}

impl vstd::std_specs::convert::FromSpecImpl<LanguageModelOptions> for AnthropicOptions {
    // The conversion's contract is stated over the result's model (see
    // `from` above); no exact value is promised beyond that model.
    open spec fn obeys_from_spec() -> bool {
        false
    }

    open spec fn from_spec(v: LanguageModelOptions) -> AnthropicOptions {
        choose|r: AnthropicOptions| r@ == anthropic_options_model(v)
    }
}

// ---------------------------------- Usage ----------------------------------

/// The sum of two token counts, when it fits in a `usize`.
pub open spec fn token_sum(a: usize, b: usize) -> Option<usize> {
    if a + b <= usize::MAX {
        Some((a + b) as usize)
    } else {
        None
    }
}

/// The usage an Anthropic usage report becomes: input and output tokens as
/// reported, cached tokens as the tokens written to and read from the cache
/// together.
pub open spec fn usage_from_anthropic(u: AnthropicUsage) -> Usage {
    Usage {
        input_tokens: Some(u.input_tokens),
        output_tokens: Some(u.output_tokens),
        cached_tokens: token_sum(u.cache_creation_input_tokens, u.cache_read_input_tokens),
        reasoning_tokens: None,
        cache_miss_tokens: None,
    }
}

/// The usage a streamed usage report becomes; a count that is not reported
/// counts as 0.
pub open spec fn usage_from_anthropic_delta(u: AnthropicMessageDeltaUsage) -> Usage {
    Usage {
        input_tokens: Some(u.input_tokens.unwrap_or(0)),
        output_tokens: Some(u.output_tokens),
        cached_tokens: token_sum(u.cache_creation_input_tokens.unwrap_or(0), u.cache_read_input_tokens.unwrap_or(0)),
        reasoning_tokens: None,
        cache_miss_tokens: None,
    }
}

impl From<AnthropicUsage> for Usage {
    fn from(usage: AnthropicUsage) -> (r: Usage)
        ensures
            r == usage_from_anthropic(usage),
    {
        Usage {
            input_tokens: Some(usage.input_tokens),
            output_tokens: Some(usage.output_tokens),
            cached_tokens: usage.cache_creation_input_tokens.checked_add(usage.cache_read_input_tokens),
            reasoning_tokens: None,
            cache_miss_tokens: None,
        }
    }
}

impl vstd::std_specs::convert::FromSpecImpl<AnthropicUsage> for Usage {
    open spec fn obeys_from_spec() -> bool {
        true
    }

    open spec fn from_spec(v: AnthropicUsage) -> Usage {
        usage_from_anthropic(v)
    }
}

impl From<AnthropicMessageDeltaUsage> for Usage {
    fn from(usage: AnthropicMessageDeltaUsage) -> (r: Usage)
        ensures
            r == usage_from_anthropic_delta(usage),
    {
        let created = match usage.cache_creation_input_tokens {
            Some(c) => c,
            None => 0,
        };
        let read = match usage.cache_read_input_tokens {
            Some(c) => c,
            None => 0,
        };
        let input = match usage.input_tokens {
            Some(c) => c,
            None => 0,
        };
        Usage {
            input_tokens: Some(input),
            output_tokens: Some(usage.output_tokens),
            cached_tokens: created.checked_add(read),
            reasoning_tokens: None,
            cache_miss_tokens: None,
        }
    }
}

impl vstd::std_specs::convert::FromSpecImpl<AnthropicMessageDeltaUsage> for Usage {
    open spec fn obeys_from_spec() -> bool {
        true
    }

    open spec fn from_spec(v: AnthropicMessageDeltaUsage) -> Usage {
        usage_from_anthropic_delta(v)
    }
}

} // verus!
