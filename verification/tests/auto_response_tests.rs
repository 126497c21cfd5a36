use leogpt::auto_response::hardcoded_auto_responses;
use leogpt::auto_response::select_auto_response;
use leogpt::auto_response::AutoResponsePayload;
use leogpt::auto_response::AutoResponseRuleConfig;
use leogpt::auto_response::ContentMatchConfig;
use leogpt::auto_response::MatchMode;
use leogpt::auto_response::ResponseConfig;

const JAI_VU_USER: u64 = 398543560330444813;
const LAUGH_USER: u64 = 398620783498493964;

#[test]
fn built_in_rules_are_two() {
    let rules = hardcoded_auto_responses();
    assert_eq!(rules.len(), 2);
    assert_eq!(rules[0].name, "jai-vu-image");
    assert_eq!(rules[1].name, "laugh-emoji-image");
}

#[test]
fn phrase_rule_matches_for_its_user() {
    let rules = hardcoded_auto_responses();
    let action = select_auto_response(&rules, JAI_VU_USER, "j'ai vu un truc")
        .expect("expected an action");
    assert_eq!(action.rule_name, "jai-vu-image");
    let AutoResponsePayload::ImageUrl(url) = action.payload;
    assert!(url.ends_with("guillaume_a_vu_4k.png"));
}

#[test]
fn other_users_get_no_response() {
    let rules = hardcoded_auto_responses();
    assert!(select_auto_response(&rules, 12345, "j'ai vu un truc").is_none());
}

#[test]
fn emoji_rule_matches_verbatim() {
    let rules = hardcoded_auto_responses();
    let action = select_auto_response(&rules, LAUGH_USER, "haha \u{1F602} ok")
        .expect("expected an action");
    assert_eq!(action.rule_name, "laugh-emoji-image");
}

#[test]
fn unrelated_content_selects_nothing() {
    let rules = hardcoded_auto_responses();
    assert!(select_auto_response(&rules, JAI_VU_USER, "bonjour").is_none());
    assert!(select_auto_response(&rules, LAUGH_USER, "bonjour").is_none());
}

#[test]
fn unnamed_rule_is_named_by_position() {
    let config = AutoResponseRuleConfig {
        name: None,
        user_ids: Vec::new(),
        content: ContentMatchConfig {
            patterns: vec!["hello".to_string()],
            mode: MatchMode::Fuzzy,
            compact: false,
            fuzzy_threshold_percent: 75,
            max_token_window: 1,
        },
        response: ResponseConfig::ImageUrl { url: "https://x/y.png".to_string() },
    };
    let rule = config.into_rule(0);
    assert_eq!(rule.name, "rule-1");
}

#[test]
fn open_rule_matches_any_user() {
    let config = AutoResponseRuleConfig {
        name: Some("open".to_string()),
        user_ids: Vec::new(),
        content: ContentMatchConfig {
            patterns: vec!["hello world".to_string()],
            mode: MatchMode::Fuzzy,
            compact: false,
            fuzzy_threshold_percent: 75,
            max_token_window: 2,
        },
        response: ResponseConfig::ImageUrl { url: "https://x/y.png".to_string() },
    };
    let rules = vec![config.into_rule(0)];
    assert!(select_auto_response(&rules, 1, "well hello world!").is_some());
    assert!(select_auto_response(&rules, 2, "helo world please").is_some());
    assert!(select_auto_response(&rules, 2, "nothing related").is_none());
}
