//! Properties that hold of every conversion, stated over the models that
//! the conversions' contracts use.
use vstd::prelude::*;
use crate::anthropic::conversions::{
    anthropic_message_model, anthropic_options_model, anthropic_system_model, anthropic_tool_model, thinking_model, tool_image_blocks,
    tool_output_text, tool_result_content_model, user_content_model, user_image_blocks,
};
use crate::anthropic::types::{
    base64_source, AnthropicMessageParamView, AnthropicThinking, AnthropicToolResultBlockView, AnthropicToolResultContentView,
    AnthropicUserMessageContentBlockView, AnthropicUserMessageContentView,
};
use crate::chat_completions::conversions::{
    chat_message_model, chat_options_model, chat_tool_model, parameters_model, response_format_model,
    stop_model,
};
use crate::chat_completions::types::{ChatMessageView, Role, StopSequencesView};
use crate::json::{JsonDocumentView, JsonValueView};
use crate::sdk::Tool as SdkTool;
use crate::sdk::{
    is_image_media, LanguageModelOptions, LanguageModelResponseContentType, MediaContent, Message,
    ReasoningEffort, ToolResultInfo, UserMessage,
};

verus! {

// ---------------------------------- Anthropic messages ----------------------------------

/// A user message without attachments keeps the plain text shape.
pub proof fn law_media_less_user_message_is_text(u: UserMessage)
    requires
        u.media@.len() == 0,
    ensures
        user_content_model(u) == AnthropicUserMessageContentView::Text(u.content@),
{
}

/// The image blocks of a user message's attachments are exactly its image
/// attachments, in order, each as a `base64` image; other media is skipped.
pub proof fn law_image_blocks_are_the_image_media(media: Seq<MediaContent>)
    ensures
        user_image_blocks(media) == media.filter(|m: MediaContent| is_image_media(m)).map_values(
            |m: MediaContent| AnthropicUserMessageContentBlockView::Image(base64_source(m.mime_type@, m.data@)),
        ),
    decreases media.len(),
{
    reveal_with_fuel(Seq::<_>::filter, 1);
    if media.len() > 0 {
        law_image_blocks_are_the_image_media(media.drop_last());
        let f = |m: MediaContent| AnthropicUserMessageContentBlockView::Image(base64_source(m.mime_type@, m.data@));
        let sub = media.drop_last().filter(|m: MediaContent| is_image_media(m));
        assert(sub.push(media.last()).map_values(f) =~= sub.map_values(f).push(f(media.last())));
    }
}

/// A user message with attachments and text gives its image blocks first
/// and its text last.
pub proof fn law_user_images_first_text_last(u: UserMessage)
    requires
        u.media@.len() > 0,
        u.content@.len() > 0,
    ensures
        user_content_model(u) matches AnthropicUserMessageContentView::Blocks(b) && b.len() > 0 && b.last()
            == AnthropicUserMessageContentBlockView::Text(u.content@) && forall|i: int|
            0 <= i < b.len() - 1 ==> #[trigger] b[i] is Image,
{
    law_image_blocks_are_the_image_media(u.media@);
    let blocks = user_image_blocks(u.media@);
    assert(forall|i: int| 0 <= i < blocks.len() ==> #[trigger] blocks[i] is Image);
    let b = blocks.push(AnthropicUserMessageContentBlockView::Text(u.content@));
    assert forall|i: int| 0 <= i < b.len() - 1 implies #[trigger] b[i] is Image by {
        assert(b[i] == blocks[i]);
    }
}

/// A tool result's image blocks are empty exactly when none of its
/// attachments is an image.
proof fn lemma_tool_images_empty(media: Seq<MediaContent>)
    ensures
        (tool_image_blocks(media).len() == 0) <==> (forall|i: int|
            0 <= i < media.len() ==> !is_image_media(#[trigger] media[i])),
        forall|i: int| 0 <= i < tool_image_blocks(media).len() ==> #[trigger] tool_image_blocks(media)[i] is Image,
    decreases media.len(),
{
    if media.len() > 0 {
        let rest = media.drop_last();
        lemma_tool_images_empty(rest);
        if tool_image_blocks(rest).len() == 0 && !is_image_media(media.last()) {
            assert forall|i: int| 0 <= i < media.len() implies !is_image_media(#[trigger] media[i]) by {
                if i < media.len() - 1 {
                    assert(media[i] == rest[i]);
                }
            }
        }
        if !(tool_image_blocks(rest).len() == 0) {
            let j = choose|j: int| 0 <= j < rest.len() && is_image_media(#[trigger] rest[j]);
            assert(media[j] == rest[j]);
        }
    }
}

/// A tool result keeps the plain text shape exactly when none of its
/// attachments is an image; otherwise its output text comes first and its
/// images after it.
pub proof fn law_tool_result_shape(t: ToolResultInfo)
    ensures
        (tool_result_content_model(t) is Text) <==> (forall|i: int|
            0 <= i < t.media@.len() ==> !is_image_media(#[trigger] t.media@[i])),
        tool_result_content_model(t) matches AnthropicToolResultContentView::Blocks(b) ==> b.len() > 1 && b[0]
            == AnthropicToolResultBlockView::Text(tool_output_text(t.output)) && forall|i: int|
            1 <= i < b.len() ==> #[trigger] b[i] is Image,
{
    lemma_tool_images_empty(t.media@);
    let images = tool_image_blocks(t.media@);
    if images.len() > 0 {
        let b = seq![AnthropicToolResultBlockView::Text(tool_output_text(t.output))] + images;
        assert forall|i: int| 1 <= i < b.len() implies #[trigger] b[i] is Image by {
            assert(b[i] == images[i - 1]);
        }
    }
}

/// When no message is a system message, the request's system prompt is the
/// options' system prompt, if that is not empty.
pub proof fn law_system_prompt_without_system_messages(initial: Option<String>, ms: Seq<Message>)
    requires
        forall|i: int| 0 <= i < ms.len() ==> !(#[trigger] ms[i] is System),
    ensures
        anthropic_system_model(initial, ms) == anthropic_system_model(initial, Seq::<Message>::empty()),
    decreases ms.len(),
{
    if ms.len() > 0 {
        assert(!(ms[ms.len() - 1] is System));
        let rest = ms.drop_last();
        assert forall|i: int| 0 <= i < rest.len() implies !(#[trigger] rest[i] is System) by {
            assert(rest[i] == ms[i]);
        }
        law_system_prompt_without_system_messages(initial, rest);
    }
}

// ---------------------------------- Anthropic tools and thinking ----------------------------------

/// A converted tool's schema never keeps a `$schema` key.
pub proof fn law_anthropic_tool_schema_has_no_meta(t: SdkTool)
    ensures
        anthropic_tool_model(t).input_schema matches JsonDocumentView::Object(o) ==> !o.contains_key("$schema"@),
{
}

/// The thinking budget of a reasoning effort.
pub open spec fn budget_of(t: AnthropicThinking) -> nat {
    match t {
        AnthropicThinking::Disable => 0,
        AnthropicThinking::Enable { budget_tokens } => budget_tokens as nat,
    }
}

/// A thinking budget never exceeds the token limit.
pub proof fn law_thinking_budget_within_limit(effort: ReasoningEffort, max_tokens: u32)
    ensures
        budget_of(thinking_model(effort, max_tokens as nat)) <= max_tokens,
{
    let m = max_tokens as nat;
    assert((m * 9) / 10 <= m) by (nonlinear_arith);
}

/// Higher effort never gets a smaller budget, once the limit is at least 4
/// tokens (below that, rounding gives `High` more than `XHigh`).
pub proof fn law_thinking_budget_grows_with_effort(max_tokens: u32)
    requires
        max_tokens >= 4,
    ensures
        budget_of(thinking_model(ReasoningEffort::Off, max_tokens as nat)) <= budget_of(
            thinking_model(ReasoningEffort::Low, max_tokens as nat),
        ),
        budget_of(thinking_model(ReasoningEffort::Low, max_tokens as nat)) <= budget_of(
            thinking_model(ReasoningEffort::Medium, max_tokens as nat),
        ),
        budget_of(thinking_model(ReasoningEffort::Medium, max_tokens as nat)) <= budget_of(
            thinking_model(ReasoningEffort::High, max_tokens as nat),
        ),
        budget_of(thinking_model(ReasoningEffort::High, max_tokens as nat)) <= budget_of(
            thinking_model(ReasoningEffort::XHigh, max_tokens as nat),
        ),
{
    let m = max_tokens as int;
    let q = m / 4;
    let r = m % 4;
    assert(m == 4 * q + r && 0 <= r < 4);
    assert(q >= 1);
    assert(m - q <= (m * 9) / 10) by (nonlinear_arith)
        requires
            m == 4 * q + r,
            0 <= r < 4,
            q >= 1,
    ;
    assert((m * 9) / 10 <= m) by (nonlinear_arith)
        requires
            m >= 0,
    ;
}

// ---------------------------------- Chat Completions ----------------------------------

/// A converted tool's parameters always carry what Chat Completions
/// requires: an object schema of type `object` that forbids additional
/// properties and has an object of properties, without `$schema` or
/// `title`; and the tool is strict.
pub proof fn law_chat_tool_parameters_complete(t: SdkTool)
    ensures
        chat_tool_model(t).strict == Some(true),
        chat_tool_model(t).parameters matches JsonDocumentView::Object(p) && p.contains_key("type"@) && p["type"@]
            == JsonValueView::Str("object"@) && p.contains_key("additionalProperties"@)
            && p["additionalProperties"@] == JsonValueView::Bool(false) && p.contains_key("properties"@)
            && p["properties"@] is Object && !p.contains_key("$schema"@) && !p.contains_key("title"@),
{
    reveal_strlit("type");
    reveal_strlit("additionalProperties");
    reveal_strlit("properties");
    reveal_strlit("$schema");
    reveal_strlit("title");
    let p = parameters_model(t.input_schema@);
    assert("type"@[0] == 't' && "additionalProperties"@[0] == 'a' && "properties"@[0] == 'p');
    assert("$schema"@[0] == '$' && "title"@[0] == 't' && "title"@[1] == 'i' && "type"@[1] == 'y');
}

/// The response format of an object schema is strict and its schema forbids
/// additional properties.
pub proof fn law_response_format_is_strict(d: JsonDocumentView)
    ensures
        response_format_model(d).strict == Some(true),
        d is Object ==> (response_format_model(d).schema matches JsonDocumentView::Object(s) && s.contains_key(
            "additionalProperties"@,
        ) && s["additionalProperties"@] == JsonValueView::Bool(false)),
{
}

/// The request carries one chat message per message, after the system
/// prompt when there is one, so no message is lost however many there are.
pub proof fn law_one_chat_message_per_message(o: LanguageModelOptions)
    ensures
        chat_options_model(o).messages.len() == (if o.system is Some {
            1int
        } else {
            0int
        }) + o.messages@.len(),
        forall|i: int|
            0 <= i < o.messages@.len() ==> chat_options_model(o).messages[(if o.system is Some {
                1int
            } else {
                0int
            }) + i] == chat_message_model(#[trigger] o.messages@[i]),
{
}

/// An assistant turn that reasons, answers and calls tools becomes one chat
/// message that carries the reasoning, the text and every tool call, in
/// order; without tool calls it carries none.
pub proof fn law_reasoned_response_keeps_every_tool_call(m: Message)
    requires
        m matches Message::Assistant(a) && a.content is ReasonedResponse,
    ensures
        ({
            let v: ChatMessageView = chat_message_model(m);
            match m {
                Message::Assistant(a) => match a.content {
                    LanguageModelResponseContentType::ReasonedResponse { reasoning, text, tool_calls } => {
                        &&& v.reasoning_content == Some(reasoning@)
                        &&& v.content == Some(text@)
                        &&& (tool_calls@.len() == 0 <==> v.tool_calls is None)
                        &&& v.tool_calls matches Some(c) ==> c.len() == tool_calls@.len() && forall|i: int|
                            0 <= i < c.len() ==> #[trigger] c[i].id == tool_calls@[i].tool.id@
                    },
                    _ => true,
                },
                _ => true,
            }
        }),
{
}

/// At most four stop sequences are sent, and a single stop sequence is sent
/// as such.
pub proof fn law_stop_sequences(seqs: Seq<String>)
    ensures
        (stop_model(seqs) is Single) <==> seqs.len() == 1,
        stop_model(seqs) matches StopSequencesView::Multiple(v) ==> v.len() <= 4 && v.len() == (if seqs.len() <= 4 {
            seqs.len() as int
        } else {
            4
        }) && forall|i: int| 0 <= i < v.len() ==> #[trigger] v[i] == seqs[i]@,
{
}

/// Tools come with automatic, parallel tool choice, and only tools do.
pub proof fn law_tool_choice_follows_tools(o: LanguageModelOptions)
    ensures
        (chat_options_model(o).tool_choice == Some("auto"@)) <==> o.tools is Some,
        (chat_options_model(o).parallel_tool_calls == Some(true)) <==> o.tools is Some,
        (chat_options_model(o).tool_choice is None) <==> o.tools is None,
{
}

// ---------------------------------- Content that must survive ----------------------------------

/// An assistant turn of plain text is sent back as the assistant's own
/// message, with that text and nothing else.
pub proof fn law_assistant_text_stays_assistant(m: Message)
    requires
        m matches Message::Assistant(a) && a.content is Text,
    ensures
        ({
            let v = chat_message_model(m);
            &&& v.role == Role::Assistant
            &&& v.content == Some(m->Assistant_0.content->Text_0@)
            &&& v.tool_calls is None
            &&& v.reasoning_content is None
            &&& v.name is None
            &&& v.tool_call_id is None
        }),
{
}

/// Every message keeps its author: system, user, assistant, tool and
/// developer messages become chat messages of the same role, and user,
/// system and developer messages keep their text.
pub proof fn law_chat_message_keeps_author(m: Message)
    ensures
        m is System ==> chat_message_model(m).role == Role::System && chat_message_model(m).content == Some(
            m->System_0.content@,
        ),
        m is User ==> chat_message_model(m).role == Role::User && chat_message_model(m).content == Some(
            m->User_0.content@,
        ),
        m is Assistant ==> chat_message_model(m).role == Role::Assistant,
        m is Tool ==> chat_message_model(m).role == Role::Tool && chat_message_model(m).tool_call_id == Some(
            m->Tool_0.tool.id@,
        ) && chat_message_model(m).name == Some(m->Tool_0.tool.name@),
        m is Developer ==> chat_message_model(m).role == Role::Developer && chat_message_model(m).content == Some(
            m->Developer_0@,
        ),
{
}

/// A tool that succeeded has its output sent as the result's content, as
/// is, for Chat Completions.
pub proof fn law_chat_tool_output_is_kept(m: Message)
    requires
        m matches Message::Tool(t) && t.output is Ok,
    ensures
        chat_message_model(m).content == Some(m->Tool_0.output->Ok_0@),
{
}

/// The caller's limits and sampling settings reach the Chat Completions
/// request unchanged, and so do the extra body fields and headers.
pub proof fn law_chat_request_keeps_settings(o: LanguageModelOptions)
    ensures
        chat_options_model(o).max_completion_tokens == o.max_output_tokens,
        chat_options_model(o).temperature == o.temperature,
        chat_options_model(o).top_p == o.top_p,
        chat_options_model(o).seed == o.seed,
        chat_options_model(o).frequency_penalty == o.frequency_penalty,
        chat_options_model(o).presence_penalty == o.presence_penalty,
        chat_options_model(o).extra_body == crate::json::opt_object(o.body),
        chat_options_model(o).extra_headers == crate::text::opt_pairs(o.headers),
{
}

/// A tool result becomes one `tool_result` block for the call it answers,
/// whose text is the tool's output when the tool succeeded (the whole
/// content, or the first block when images come with it) and `null` only
/// when it failed.
pub proof fn law_anthropic_tool_result_keeps_output(t: ToolResultInfo)
    ensures
        ({
            let text = match t.output {
                Ok(v) => v@,
                Err(_) => "null"@,
            };
            match anthropic_message_model(Message::Tool(t)) {
                Some(AnthropicMessageParamView::User(AnthropicUserMessageContentView::Blocks(b))) => b.len() == 1
                    && match b[0] {
                    AnthropicUserMessageContentBlockView::ToolResult { tool_use_id, content } => tool_use_id
                        == t.tool.id@ && match content {
                        AnthropicToolResultContentView::Text(x) => x == text,
                        AnthropicToolResultContentView::Blocks(bs) => bs.len() > 0 && bs[0]
                            == AnthropicToolResultBlockView::Text(text),
                    },
                    _ => false,
                },
                _ => false,
            }
        }),
{
    law_tool_result_shape(t);
}

/// A non-empty system message in the conversation sets the Anthropic
/// request's system prompt: the last such message wins, whatever the
/// options' own system prompt is.
pub proof fn law_last_system_message_is_system_prompt(o: LanguageModelOptions, i: int)
    requires
        0 <= i < o.messages@.len(),
        o.messages@[i] matches Message::System(s) && s.content@.len() > 0,
        forall|j: int|
            i < j < o.messages@.len() ==> !(#[trigger] o.messages@[j] matches Message::System(s) && s.content@.len()
                > 0),
    ensures
        anthropic_options_model(o).system == Some(o.messages@[i]->System_0.content@),
{
    lemma_last_system_message(o.system, o.messages@, i);
}

proof fn lemma_last_system_message(initial: Option<String>, ms: Seq<Message>, i: int)
    requires
        0 <= i < ms.len(),
        ms[i] matches Message::System(s) && s.content@.len() > 0,
        forall|j: int| i < j < ms.len() ==> !(#[trigger] ms[j] matches Message::System(s) && s.content@.len() > 0),
    ensures
        anthropic_system_model(initial, ms) == Some(ms[i]->System_0.content@),
    decreases ms.len(),
{
    if i < ms.len() - 1 {
        let rest = ms.drop_last();
        assert(!(ms[ms.len() - 1] matches Message::System(s) && s.content@.len() > 0));
        assert forall|j: int| i < j < rest.len() implies !(#[trigger] rest[j] matches Message::System(s)
            && s.content@.len() > 0) by {
            assert(rest[j] == ms[j]);
        }
        assert(rest[i] == ms[i]);
        lemma_last_system_message(initial, rest, i);
    }
}

/// Every top-level key of an object input schema other than `$schema`,
/// `title`, `type`, `additionalProperties` and `properties` is kept in the
/// Chat Completions parameters with its value unchanged, an object of
/// properties is kept as it is, and the parameters hold no other keys.
pub proof fn law_chat_tool_parameters_keep_schema(t: SdkTool)
    requires
        t.input_schema is Object,
    ensures
        ({
            let o = t.input_schema@->Object_0;
            let p = chat_tool_model(t).parameters->Object_0;
            &&& forall|k: Seq<char>|
                k != "$schema"@ && k != "title"@ && k != "type"@ && k != "additionalProperties"@ && k
                    != "properties"@ ==> (#[trigger] p.contains_key(k) <==> o.contains_key(k)) && (o.contains_key(k)
                    ==> p[k] == o[k])
            &&& (o.contains_key("properties"@) && o["properties"@] is Object) ==> p["properties"@]
                == o["properties"@]
        }),
{
    reveal_strlit("type");
    reveal_strlit("additionalProperties");
    reveal_strlit("properties");
    reveal_strlit("$schema");
    reveal_strlit("title");
    assert("type"@[0] == 't' && "additionalProperties"@[0] == 'a' && "properties"@[0] == 'p');
    assert("$schema"@[0] == '$' && "title"@[0] == 't' && "title"@[1] == 'i' && "type"@[1] == 'y');
}

/// Every key of an object input schema other than `$schema` is kept in the
/// Anthropic tool's schema with its value unchanged, and no key is added.
pub proof fn law_anthropic_tool_schema_keeps_keys(t: SdkTool)
    requires
        t.input_schema is Object,
    ensures
        ({
            let o = t.input_schema@->Object_0;
            let p = anthropic_tool_model(t).input_schema->Object_0;
            forall|k: Seq<char>|
                k != "$schema"@ ==> (#[trigger] p.contains_key(k) <==> o.contains_key(k)) && (o.contains_key(k)
                    ==> p[k] == o[k])
        }),
{
}

} // verus!
