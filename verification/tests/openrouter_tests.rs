use leogpt::openrouter::build_full_system_prompt;
use leogpt::openrouter::ensure_system_message;
use leogpt::openrouter::interpret_chat_message;
use leogpt::openrouter::interpret_response;
use leogpt::openrouter::tool_result_message;
use leogpt::openrouter::ChatResult;
use leogpt::openrouter::ContentPart;
use leogpt::openrouter::FunctionCall;
use leogpt::openrouter::Message;
use leogpt::openrouter::MessageContent;
use leogpt::openrouter::ToolCall;
use leogpt::error::BotError;
use leogpt::types::MessageRole;

fn user_message(text: &str) -> Message {
    Message {
        role: MessageRole::User,
        content: Some(MessageContent::Text(text.to_string())),
        tool_calls: None,
        tool_call_id: None,
    }
}

#[test]
fn system_prompt_prepended_once() {
    let mut messages = vec![user_message("hi")];
    ensure_system_message(&mut messages, "be brief".to_string());
    assert_eq!(messages.len(), 2);
    assert_eq!(messages[0].role, MessageRole::System);
    // applying the prepend again must not insert a second system message
    ensure_system_message(&mut messages, "be brief".to_string());
    assert_eq!(messages.len(), 2);
}

#[test]
fn existing_system_message_is_kept() {
    let system = Message {
        role: MessageRole::System,
        content: Some(MessageContent::Text("original".to_string())),
        tool_calls: None,
        tool_call_id: None,
    };
    let mut messages = vec![system, user_message("hi")];
    ensure_system_message(&mut messages, "replacement".to_string());
    assert_eq!(messages.len(), 2);
    match messages[0].content.as_ref().expect("content") {
        MessageContent::Text(t) => assert_eq!(t, "original"),
        _ => panic!("expected text"),
    }
}

#[test]
fn full_prompt_combines_context_and_base() {
    let p = build_full_system_prompt(Some("today is monday".to_string()));
    assert_eq!(p, "today is monday\n\nYou are a helpful assistant.");
    let bare = build_full_system_prompt(None);
    assert_eq!(bare, "You are a helpful assistant.");
}

#[test]
fn tool_reply_round_trips_the_call_id() {
    let reply = tool_result_message("call-xyz-123".to_string(), "result text".to_string());
    assert_eq!(reply.role, MessageRole::Tool);
    assert_eq!(reply.tool_call_id.as_deref(), Some("call-xyz-123"));
    match reply.content.as_ref().expect("content") {
        MessageContent::Text(t) => assert_eq!(t, "result text"),
        _ => panic!("expected text"),
    }
}

#[test]
fn reply_with_tool_calls_becomes_batch() {
    let calls = vec![ToolCall {
        id: "a".to_string(),
        call_type: "function".to_string(),
        function: FunctionCall { name: "web_search".to_string(), arguments: "{}".to_string() },
    }];
    let message = Message {
        role: MessageRole::Assistant,
        content: None,
        tool_calls: Some(calls),
        tool_call_id: None,
    };
    match interpret_chat_message(message) {
        ChatResult::ToolCalls { tool_calls, assistant_message } => {
            assert_eq!(tool_calls.len(), 1);
            assert_eq!(tool_calls[0].id, "a");
            assert_eq!(assistant_message.role, MessageRole::Assistant);
        },
        ChatResult::TextResponse(_) => panic!("expected a tool batch"),
    }
}

#[test]
fn multipart_reply_joins_text_parts() {
    let message = Message {
        role: MessageRole::Assistant,
        content: Some(MessageContent::MultiPart(vec![
            ContentPart::Text { text: "one".to_string() },
            ContentPart::ImageUrl {
                image_url: leogpt::openrouter::ImageUrl { url: "u".to_string() },
            },
            ContentPart::Text { text: "two".to_string() },
        ])),
        tool_calls: None,
        tool_call_id: None,
    };
    match interpret_chat_message(message) {
        ChatResult::TextResponse(t) => assert_eq!(t, "one\ntwo"),
        _ => panic!("expected text"),
    }
}

#[test]
fn missing_content_reads_as_empty_text() {
    let message = Message {
        role: MessageRole::Assistant,
        content: None,
        tool_calls: None,
        tool_call_id: None,
    };
    match interpret_chat_message(message) {
        ChatResult::TextResponse(t) => assert_eq!(t, ""),
        _ => panic!("expected text"),
    }
}

#[test]
fn empty_tool_call_list_is_a_text_reply() {
    let message = Message {
        role: MessageRole::Assistant,
        content: Some(MessageContent::Text("plain".to_string())),
        tool_calls: Some(Vec::new()),
        tool_call_id: None,
    };
    match interpret_chat_message(message) {
        ChatResult::TextResponse(t) => assert_eq!(t, "plain"),
        _ => panic!("expected text"),
    }
}

#[test]
fn empty_choices_are_refused() {
    match interpret_response(Vec::new()) {
        Err(BotError::OpenRouterResponse(s)) => assert_eq!(s, "No choices in response"),
        _ => panic!("expected a response error"),
    }
}

#[test]
fn first_choice_is_authoritative() {
    let choices = vec![user_message("first"), user_message("second")];
    match interpret_response(choices) {
        Ok(ChatResult::TextResponse(t)) => assert_eq!(t, "first"),
        _ => panic!("expected text from the first choice"),
    }
}
