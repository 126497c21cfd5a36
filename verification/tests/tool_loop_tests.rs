use leogpt::conversation::build_conversation_history;
use leogpt::conversation::InboundMessage;
use leogpt::error::BotError;
use leogpt::openrouter::ChatResult;
use leogpt::openrouter::FunctionCall;
use leogpt::openrouter::Message;
use leogpt::openrouter::MessageContent;
use leogpt::openrouter::ToolCall;
use leogpt::response::plan_response;
use leogpt::response::ReplyPlan;
use leogpt::tool_loop::extract_image_urls;
use leogpt::tool_loop::LoopDirective;
use leogpt::tool_loop::LoopState;
use leogpt::tools::image_output_from_data_url;
use leogpt::tools::ToolExecutor;
use leogpt::tools::ToolOutput;
use leogpt::tools::ToolRequest;
use leogpt::types::MessageRole;

fn user_message(text: &str) -> Message {
    Message {
        role: MessageRole::User,
        content: Some(MessageContent::Text(text.to_string())),
        tool_calls: None,
        tool_call_id: None,
    }
}

fn call(id: &str, name: &str, arguments: &str) -> ToolCall {
    ToolCall {
        id: id.to_string(),
        call_type: "function".to_string(),
        function: FunctionCall { name: name.to_string(), arguments: arguments.to_string() },
    }
}

fn assistant_with_calls(calls: Vec<ToolCall>) -> Message {
    Message {
        role: MessageRole::Assistant,
        content: None,
        tool_calls: Some(calls),
        tool_call_id: None,
    }
}

#[test]
fn sixth_round_gives_up_without_a_request() {
    let mut state = LoopState::new(vec![user_message("hi")]);
    for _ in 0..5 {
        match state.advance() {
            LoopDirective::CallCompletion => {},
            _ => panic!("expected a completion round"),
        }
        let calls = vec![call("c", "get_server_info", "{}")];
        state.on_completion(ChatResult::ToolCalls {
            tool_calls: calls.clone(),
            assistant_message: assistant_with_calls(calls),
        });
        match state.advance() {
            LoopDirective::ExecuteTool(_) => {},
            _ => panic!("expected a tool execution"),
        }
        let c = call("c", "get_server_info", "{}");
        state.on_tool_success(&c, ToolOutput::text("ok".to_string()));
    }
    // the bound is spent: the sixth attempt must give up, not request again
    assert!(matches!(state.advance(), LoopDirective::GiveUp));
}

#[test]
fn media_short_circuits_rest_of_batch() {
    let mut state = LoopState::new(vec![user_message("draw and explain")]);
    assert!(matches!(state.advance(), LoopDirective::CallCompletion));
    let calls = vec![
        call("c1", "web_search", "{\"query\":\"x\"}"),
        call("c2", "generate_image", "{\"prompt\":\"cat\"}"),
        call("c3", "web_search", "{\"query\":\"y\"}"),
    ];
    state.on_completion(ChatResult::ToolCalls {
        tool_calls: calls.clone(),
        assistant_message: assistant_with_calls(calls),
    });

    let first = match state.advance() {
        LoopDirective::ExecuteTool(c) => c,
        _ => panic!("expected first tool"),
    };
    assert_eq!(first.id, "c1");
    state.on_tool_success(&first, ToolOutput::text("text result".to_string()));

    let second = match state.advance() {
        LoopDirective::ExecuteTool(c) => c,
        _ => panic!("expected second tool"),
    };
    assert_eq!(second.id, "c2");
    state.on_tool_success(
        &second,
        ToolOutput::with_image("made it".to_string(), vec![9u8, 9], "pic.png".to_string()),
    );

    // the third call is discarded and no further round is requested
    assert!(matches!(state.advance(), LoopDirective::Finish));
    let result = state.into_result();
    assert!(result.text.is_none());
    assert_eq!(result.images.len(), 1);
    assert_eq!(result.images[0].filename, "pic.png");
    assert!(result.audio.is_empty());
}

#[test]
fn plain_answer_takes_one_round() {
    let mut state = LoopState::new(vec![user_message("what is two plus two")]);
    assert!(matches!(state.advance(), LoopDirective::CallCompletion));
    state.on_completion(ChatResult::TextResponse("four".to_string()));
    assert!(matches!(state.advance(), LoopDirective::Finish));
    assert_eq!(state.rounds, 1);
    let result = state.into_result();
    assert_eq!(result.text.as_deref(), Some("four"));
    assert!(result.images.is_empty() && result.audio.is_empty());
    match plan_response(result) {
        ReplyPlan::TextReply { text } => assert_eq!(text, "four"),
        _ => panic!("expected a text reply"),
    }
}

#[test]
fn tool_failure_feeds_error_text_back() {
    let mut state = LoopState::new(vec![user_message("hi")]);
    assert!(matches!(state.advance(), LoopDirective::CallCompletion));
    let calls = vec![call("c9", "web_search", "{}")];
    state.on_completion(ChatResult::ToolCalls {
        tool_calls: calls.clone(),
        assistant_message: assistant_with_calls(calls),
    });
    let c = match state.advance() {
        LoopDirective::ExecuteTool(c) => c,
        _ => panic!("expected tool"),
    };
    state.on_tool_failure(&c, &BotError::ToolExecution("boom".to_string()));
    let last = state.history.last().expect("history entry");
    assert_eq!(last.role, MessageRole::Tool);
    assert_eq!(last.tool_call_id.as_deref(), Some("c9"));
    match last.content.as_ref().expect("content") {
        MessageContent::Text(t) => assert_eq!(t, "Error: Tool execution error: boom"),
        _ => panic!("expected text"),
    }
    // the loop goes on: the next step is another completion round
    assert!(matches!(state.advance(), LoopDirective::CallCompletion));
}

#[test]
fn picture_request_end_to_end() {
    // user mentions the bot with no reply chain
    let trigger = InboundMessage {
        author_id: 7,
        content: "generate a picture of a cat".to_string(),
        attachments: Vec::new(),
        reply_to: None,
    };
    let history = build_conversation_history(42, &trigger, Vec::new());
    assert_eq!(history.len(), 1);

    let mut state = LoopState::new(history);
    assert!(matches!(state.advance(), LoopDirective::CallCompletion));

    // the model asks for the image tool
    let calls = vec![call("gen-1", "generate_image", "{\"prompt\":\"a cat\"}")];
    state.on_completion(ChatResult::ToolCalls {
        tool_calls: calls.clone(),
        assistant_message: assistant_with_calls(calls),
    });
    let c = match state.advance() {
        LoopDirective::ExecuteTool(c) => c,
        _ => panic!("expected tool execution"),
    };
    let req = ToolExecutor::resolve(&c.function.name, &c.function.arguments, Some(1)).expect("resolves");
    match req {
        ToolRequest::GenerateImage { prompt, aspect_ratio, size } => {
            assert_eq!(prompt, "a cat");
            assert!(aspect_ratio.is_none() && size.is_none());
        },
        _ => panic!("expected an image request"),
    }

    // the generation endpoint answers with a data URL; decoding it ends the loop
    let output = image_output_from_data_url("data:image/png;base64,AQID", "1700000000")
        .expect("decodes");
    state.on_tool_success(&c, output);
    assert!(matches!(state.advance(), LoopDirective::Finish));
    let result = state.into_result();
    assert!(result.text.is_none());
    assert_eq!(result.images.len(), 1);
    assert_eq!(result.images[0].data, vec![1u8, 2, 3]);
    assert_eq!(result.images[0].filename, "generated_1700000000.png");

    match plan_response(result) {
        ReplyPlan::MediaReply { images, audio } => {
            assert_eq!(images.len(), 1);
            assert!(audio.is_empty());
        },
        _ => panic!("expected a media-only reply"),
    }
}

#[test]
fn image_urls_come_most_recent_first() {
    let older = Message {
        role: MessageRole::User,
        content: Some(MessageContent::MultiPart(vec![
            leogpt::openrouter::ContentPart::ImageUrl {
                image_url: leogpt::openrouter::ImageUrl { url: "https://a/1.png".to_string() },
            },
        ])),
        tool_calls: None,
        tool_call_id: None,
    };
    let newer = Message {
        role: MessageRole::User,
        content: Some(MessageContent::MultiPart(vec![
            leogpt::openrouter::ContentPart::ImageUrl {
                image_url: leogpt::openrouter::ImageUrl { url: "https://a/2.png".to_string() },
            },
        ])),
        tool_calls: None,
        tool_call_id: None,
    };
    let urls = extract_image_urls(&vec![older, newer]);
    assert_eq!(urls, vec!["https://a/2.png".to_string(), "https://a/1.png".to_string()]);
}

#[test]
fn empty_result_plans_nothing() {
    let result = leogpt::response::ToolLoopResult {
        text: None,
        images: Vec::new(),
        audio: Vec::new(),
    };
    assert!(matches!(plan_response(result), ReplyPlan::Nothing));
}
