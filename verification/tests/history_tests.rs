use leogpt::conversation::build_conversation_history;
use leogpt::conversation::HistoryBuilder;
use leogpt::conversation::InboundMessage;
use leogpt::conversation::MessageRef;
use leogpt::openrouter::MessageContent;
use leogpt::types::MessageRole;

const BOT: u64 = 42;

fn msg(author: u64, text: &str, reply_to: Option<MessageRef>) -> InboundMessage {
    InboundMessage {
        author_id: author,
        content: text.to_string(),
        attachments: Vec::new(),
        reply_to,
    }
}

fn r(id: u64) -> MessageRef {
    MessageRef { channel_id: 1, message_id: id }
}

fn text_of(m: &leogpt::openrouter::Message) -> String {
    match m.content.as_ref().expect("content expected") {
        MessageContent::Text(t) => t.clone(),
        MessageContent::MultiPart(_) => panic!("expected text content"),
    }
}

#[test]
fn chain_of_two_resolves_three_entries() {
    // trigger replies to ancestor one, which replies to ancestor two
    let trigger = msg(7, "newest", Some(r(10)));
    let fetches = vec![
        Some(msg(BOT, "middle", Some(r(9)))),
        Some(msg(7, "oldest", None)),
    ];
    let history = build_conversation_history(BOT, &trigger, fetches);
    assert_eq!(history.len(), 3);
    assert_eq!(text_of(&history[0]), "oldest");
    assert_eq!(text_of(&history[1]), "middle");
    assert_eq!(text_of(&history[2]), "newest");
    assert_eq!(history[0].role, MessageRole::User);
    assert_eq!(history[1].role, MessageRole::Assistant);
    assert_eq!(history[2].role, MessageRole::User);
}

#[test]
fn third_fetch_failure_keeps_first_two() {
    let trigger = msg(7, "newest", Some(r(10)));
    let fetches = vec![
        Some(msg(8, "first ancestor", Some(r(9)))),
        Some(msg(9, "second ancestor", Some(r(8)))),
        None,
    ];
    let history = build_conversation_history(BOT, &trigger, fetches);
    assert_eq!(history.len(), 3);
    assert_eq!(text_of(&history[0]), "second ancestor");
    assert_eq!(text_of(&history[1]), "first ancestor");
    assert_eq!(text_of(&history[2]), "newest");
}

#[test]
fn no_reply_chain_yields_single_entry() {
    let trigger = msg(7, "hi", None);
    let history = build_conversation_history(BOT, &trigger, Vec::new());
    assert_eq!(history.len(), 1);
    assert_eq!(text_of(&history[0]), "hi");
    assert_eq!(history[0].role, MessageRole::User);
}

#[test]
fn roles_follow_authorship_not_alternation() {
    let trigger = msg(7, "d", Some(r(3)));
    let fetches = vec![
        Some(msg(7, "c", Some(r(2)))),
        Some(msg(7, "b", Some(r(1)))),
        Some(msg(BOT, "a", None)),
    ];
    let history = build_conversation_history(BOT, &trigger, fetches);
    assert_eq!(history.len(), 4);
    assert_eq!(history[0].role, MessageRole::Assistant);
    assert_eq!(history[1].role, MessageRole::User);
    assert_eq!(history[2].role, MessageRole::User);
    assert_eq!(history[3].role, MessageRole::User);
}

#[test]
fn builder_walks_step_by_step() {
    let mut builder = HistoryBuilder::new(BOT, Some(r(5)));
    assert!(builder.pending_fetch().is_some());
    builder.on_fetch(Some(msg(BOT, "older", None)));
    assert!(builder.pending_fetch().is_none());
    let history = builder.finish(&"newer".to_string(), &Vec::new());
    assert_eq!(history.len(), 2);
    assert_eq!(text_of(&history[0]), "older");
    assert_eq!(text_of(&history[1]), "newer");
}

#[test]
fn builder_failed_fetch_truncates() {
    let mut builder = HistoryBuilder::new(BOT, Some(r(5)));
    builder.on_fetch(None);
    assert!(builder.pending_fetch().is_none());
    let history = builder.finish(&"only".to_string(), &Vec::new());
    assert_eq!(history.len(), 1);
}
