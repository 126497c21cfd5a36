//! Request and response modeling for the chat-completion API: the message
//! data model, the idempotent system-prompt prepend, and the decoding of a
//! completion reply into either a final text or a batch of tool calls.
//! The HTTP transport itself lives outside the library.

use vstd::prelude::*;

verus! {

use vstd::string::StringExecFns;

use crate::error::BotError;
use crate::types::MessageRole;

/// Endpoint for chat completions.
pub const OPENROUTER_API_URL: &'static str = "https://openrouter.ai/api/v1/chat/completions";

/// Cap on the response length, in tokens.
pub const MAX_TOKENS: u32 = 512;

/// Model for chat completions.
pub const COMPLETION_MODEL: &'static str = "google/gemini-3-flash-preview";

/// The fixed base instruction for the assistant.
pub const SYSTEM_PROMPT: &'static str = "You are a helpful assistant.";

/// A tool definition for the completion API.
#[derive(Clone)]
pub struct Tool {
    pub tool_type: String,
    pub function: FunctionDefinition,
}

/// Function definition within a tool.
#[derive(Clone)]
pub struct FunctionDefinition {
    pub name: String,
    pub description: String,
    pub parameters: serde_json::Value,
}

/// A tool call requested by the model.
#[derive(Debug, Clone)]
pub struct ToolCall {
    pub id: String,
    pub call_type: String,
    pub function: FunctionCall,
}

impl ToolCall {
    /// An equal copy of the call.
    pub fn duplicate(&self) -> (r: Self)
        ensures
            r == *self,
    {
        ToolCall {
            id: self.id.clone(),
            call_type: self.call_type.clone(),
            function: FunctionCall {
                name: self.function.name.clone(),
                arguments: self.function.arguments.clone(),
            },
        }
    }
}

/// Function call details within a tool call.
#[derive(Debug, Clone)]
pub struct FunctionCall {
    pub name: String,
    pub arguments: String,
}

/// Result of a chat completion.
pub enum ChatResult {
    /// Model produced a text response
    TextResponse(String),
    /// Model wants to call tools
    ToolCalls { tool_calls: Vec<ToolCall>, assistant_message: Message },
}

/// Message content that can be text or multi-part.
#[derive(Debug, Clone)]
pub enum MessageContent {
    Text(String),
    MultiPart(Vec<ContentPart>),
}

/// A part of a multi-part message.
#[derive(Debug, Clone)]
pub enum ContentPart {
    Text { text: String },
    ImageUrl { image_url: ImageUrl },
    VideoUrl { video_url: VideoUrl },
    File { file: File },
    InputAudio { input_audio: AudioData },
}

/// Image URL for image content.
#[derive(Debug, Clone)]
pub struct ImageUrl {
    pub url: String,
}

/// Video URL for video content.
#[derive(Debug, Clone)]
pub struct VideoUrl {
    pub url: String,
}

/// File data for document content.
#[derive(Debug, Clone)]
pub struct File {
    pub filename: String,
    pub file_data: String,
}

/// Audio data for audio input.
#[derive(Debug, Clone)]
pub struct AudioData {
    pub data: String,
    pub format: String,
}

/// A message in the chat conversation.
#[derive(Debug, Clone)]
pub struct Message {
    pub role: MessageRole,
    pub content: Option<MessageContent>,
    pub tool_calls: Option<Vec<ToolCall>>,
    pub tool_call_id: Option<String>,
}

/// The full system prompt: the per-request dynamic context, when present,
/// ahead of the fixed base instruction.
pub open spec fn full_prompt_spec(dynamic_context: Option<Seq<char>>) -> Seq<char> {
    match dynamic_context {
        Some(c) => c + "\n\n"@ + SYSTEM_PROMPT@,
        None => SYSTEM_PROMPT@,
    }
}

/// Builds the full system prompt from the optional dynamic context.
pub fn build_full_system_prompt(dynamic_context: Option<String>) -> (r: String)
    ensures
        r@ == full_prompt_spec(
            match dynamic_context {
                Some(c) => Some(c@),
                None => None,
            },
        ),
{
    match dynamic_context {
        Some(c) => {
            let mut s = c;
            s.append("\n\n");
            s.append(SYSTEM_PROMPT);
            s
        },
        None => String::from_str(SYSTEM_PROMPT),
    }
}

/// Whether a message is a plain System-role text message carrying exactly
/// the given prompt.
pub open spec fn is_system_text_message(m: Message, prompt: Seq<char>) -> bool {
    &&& m.role is System
    &&& m.content matches Some(MessageContent::Text(t)) && t@ == prompt
    &&& m.tool_calls is None
    &&& m.tool_call_id is None
}

/// How the system-prompt prepend relates the history before and after: a
/// history already led by a System message is left alone; otherwise the
/// system message is put in front and everything else keeps its place.
pub open spec fn system_prepend_rel(
    before: Seq<Message>,
    after: Seq<Message>,
    prompt: Seq<char>,
) -> bool {
    if before.len() > 0 && before[0].role is System {
        after == before
    } else {
        &&& after.len() == before.len() + 1
        &&& after.skip(1) == before
        &&& is_system_text_message(after[0], prompt)
    }
}

/// Law: the prepend is idempotent.  Whatever history it produces starts
/// with a System message, so a second application leaves it unchanged.
pub proof fn lemma_system_prepend_idempotent(
    before: Seq<Message>,
    after: Seq<Message>,
    prompt: Seq<char>,
)
    requires
        system_prepend_rel(before, after, prompt),
    ensures
        system_prepend_rel(after, after, prompt),
{
}

/// Law: a history holding no System message gains exactly one, at index
/// zero; everything after index zero is free of System messages.
pub proof fn lemma_single_system_message(
    before: Seq<Message>,
    after: Seq<Message>,
    prompt: Seq<char>,
)
    requires
        system_prepend_rel(before, after, prompt),
        forall|i: int| 0 <= i < before.len() ==> !((#[trigger] before[i]).role is System),
    ensures
        after.len() > 0,
        after[0].role is System,
        forall|i: int| 1 <= i < after.len() ==> !((#[trigger] after[i]).role is System),
{
    assert forall|i: int| 1 <= i < after.len() implies !((#[trigger] after[i]).role
        is System) by {
        assert(after[i] == after.skip(1)[i - 1]);
    }
}

/// Ensures the history starts with a System message holding the prompt,
/// inserting one only when the first entry is not already a System message.
pub fn ensure_system_message(messages: &mut Vec<Message>, prompt: String)
    ensures
        system_prepend_rel(old(messages)@, final(messages)@, prompt@),
{
    let has_system = messages.len() > 0 && match messages[0].role {
        MessageRole::System => true,
        _ => false,
    };
    if !has_system {
        messages.insert(
            0,
            Message {
                role: MessageRole::System,
                content: Some(MessageContent::Text(prompt)),
                tool_calls: None,
                tool_call_id: None,
            },
        );
        proof {
            assert(final(messages)@.skip(1) =~= old(messages)@);
        }
    }
}

/// The text parts of a multi-part reply, in order.
pub open spec fn text_parts(parts: Seq<ContentPart>) -> Seq<Seq<char>>
    decreases parts.len(),
{
    if parts.len() == 0 {
        Seq::<Seq<char>>::empty()
    } else {
        let rest = text_parts(parts.drop_last());
        match parts.last() {
            ContentPart::Text { text } => rest + seq![text@],
            _ => rest,
        }
    }
}

/// Text fragments joined with newlines.
pub open spec fn join_nl(ts: Seq<Seq<char>>) -> Seq<char>
    decreases ts.len(),
{
    if ts.len() == 0 {
        Seq::<char>::empty()
    } else if ts.len() == 1 {
        ts[0]
    } else {
        join_nl(ts.drop_last()) + seq!['\n'] + ts.last()
    }
}

/// The plain text a reply message carries: its text content, or the text
/// parts of a multi-part reply joined with newlines, or nothing.
pub open spec fn message_text_spec(m: Message) -> Seq<char> {
    match m.content {
        Some(MessageContent::Text(t)) => t@,
        Some(MessageContent::MultiPart(parts)) => join_nl(text_parts(parts@)),
        None => Seq::<char>::empty(),
    }
}

/// Concatenates the text parts of a multi-part reply, newline-separated.
pub fn collect_text_parts(parts: &Vec<ContentPart>) -> (r: String)
    ensures
        r@ == join_nl(text_parts(parts@)),
{
    let mut acc = String::new();
    let mut seen: bool = false;
    let n = parts.len();
    for i in 0..n
        invariant
            n == parts@.len(),
            seen == (text_parts(parts@.subrange(0, i as int)).len() > 0),
            acc@ == join_nl(text_parts(parts@.subrange(0, i as int))),
    {
        proof {
            let pre = parts@.subrange(0, i + 1);
            assert(pre.drop_last() =~= parts@.subrange(0, i as int));
            assert(pre.last() == parts@[i as int]);
        }
        match &parts[i] {
            ContentPart::Text { text } => {
                if seen {
                    acc.append("\n");
                }
                acc.append(text.as_str());
                seen = true;
                proof {
                    reveal_strlit("\n");
                    assert("\n"@ =~= seq!['\n']);
                    let ts = text_parts(parts@.subrange(0, i + 1));
                    assert(ts.drop_last() =~= text_parts(parts@.subrange(0, i as int)));
                    assert(ts.last() == text@);
                    assert(acc@ =~= join_nl(ts));
                }
            },
            _ => {},
        }
    }
    proof {
        assert(parts@.subrange(0, n as int) =~= parts@);
    }
    acc
}

/// Whether a reply message carries a non-empty tool-call list.
pub open spec fn has_tool_calls(m: Message) -> bool {
    m.tool_calls matches Some(calls) && calls.len() > 0
}

/// Decodes one completion reply message: a non-empty tool-call list becomes
/// a tool batch carrying the message itself for the history; anything else
/// becomes a final text.
pub fn interpret_chat_message(message: Message) -> (r: ChatResult)
    ensures
        has_tool_calls(message) ==> (r matches ChatResult::ToolCalls {
            tool_calls,
            assistant_message,
        } && tool_calls@ == message.tool_calls->0@ && assistant_message == message),
        !has_tool_calls(message) ==> (r matches ChatResult::TextResponse(t) && t@
            == message_text_spec(message)),
{
    let with_calls = match &message.tool_calls {
        Some(calls) => calls.len() > 0,
        None => false,
    };
    if with_calls {
        let calls = match &message.tool_calls {
            Some(calls) => {
                let mut copy: Vec<ToolCall> = Vec::new();
                for i in 0..calls.len()
                    invariant
                        copy@.len() == i,
                        forall|j: int| 0 <= j < i ==> copy@[j] == calls@[j],
                {
                    copy.push(calls[i].duplicate());
                }
                copy
            },
            None => Vec::new(),
        };
        proof {
            assert(calls@ =~= message.tool_calls->0@);
        }
        ChatResult::ToolCalls { tool_calls: calls, assistant_message: message }
    } else {
        match message.content {
            Some(MessageContent::Text(t)) => ChatResult::TextResponse(t),
            Some(MessageContent::MultiPart(parts)) => ChatResult::TextResponse(
                collect_text_parts(&parts),
            ),
            None => ChatResult::TextResponse(String::new()),
        }
    }
}

/// Decodes a whole completion response from its list of choice messages:
/// an empty list is a malformed response, otherwise the first choice is
/// authoritative.
pub fn interpret_response(choices: Vec<Message>) -> (r: Result<ChatResult, BotError>)
    ensures
        choices@.len() == 0 ==> (r matches Err(e) && e matches BotError::OpenRouterResponse(s)
            && s@ == "No choices in response"@),
        choices@.len() > 0 ==> (r matches Ok(cr) && {
            let first = choices@[0];
            &&& has_tool_calls(first) ==> (cr matches ChatResult::ToolCalls {
                tool_calls,
                assistant_message,
            } && tool_calls@ == first.tool_calls->0@ && assistant_message == first)
            &&& !has_tool_calls(first) ==> (cr matches ChatResult::TextResponse(t) && t@
                == message_text_spec(first))
        }),
{
    let mut choices = choices;
    if choices.len() == 0 {
        return Err(BotError::OpenRouterResponse(String::from_str("No choices in response")));
    }
    let first = choices.remove(0);
    Ok(interpret_chat_message(first))
}

/// Whether a message is the Tool-role reply that answers the call with the
/// given id, carrying the given text.
pub open spec fn is_tool_reply(m: Message, id: String, text: String) -> bool {
    &&& m.role is Tool
    &&& m.content matches Some(MessageContent::Text(t)) && t == text
    &&& m.tool_calls is None
    &&& m.tool_call_id == Some(id)
}

/// Law: round-trip of the correlation token.  Encoding a tool call id into
/// a Tool-role reply and decoding it back yields the identical id.
pub proof fn lemma_tool_reply_round_trip(m: Message, id: String, text: String)
    requires
        is_tool_reply(m, id, text),
    ensures
        m.tool_call_id matches Some(got) && got == id,
{
}

/// Builds the Tool-role reply for one tool call: the result text under the
/// originating call's id, echoed verbatim.
pub fn tool_result_message(call_id: String, text: String) -> (m: Message)
    ensures
        is_tool_reply(m, call_id, text),
{
    Message {
        role: MessageRole::Tool,
        content: Some(MessageContent::Text(text)),
        tool_calls: None,
        tool_call_id: Some(call_id),
    }
}

} // verus!
