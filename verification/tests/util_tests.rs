use leogpt::context::build_dynamic_context;
use leogpt::context::MentionInfo;
use leogpt::s3_index::entries_from_keys;
use leogpt::s3_index::key_file_name;
use leogpt::s3_index::sort_entries_by_name;
use leogpt::s3_index::S3Entry;
use leogpt::strutil::parse_u64;
use leogpt::strutil::u64_to_string;
use leogpt::textnorm::normalize;

#[test]
fn numbers_render_in_decimal() {
    assert_eq!(u64_to_string(0), "0");
    assert_eq!(u64_to_string(7), "7");
    assert_eq!(u64_to_string(1234567), "1234567");
    assert_eq!(u64_to_string(u64::MAX), "18446744073709551615");
}

#[test]
fn decimal_parsing_is_exact() {
    assert_eq!(parse_u64("123"), Some(123));
    assert_eq!(parse_u64("0"), Some(0));
    assert_eq!(parse_u64(""), None);
    assert_eq!(parse_u64("12a"), None);
    assert_eq!(parse_u64("-5"), None);
    assert_eq!(parse_u64("18446744073709551615"), Some(u64::MAX));
    assert_eq!(parse_u64("18446744073709551616"), None);
}

#[test]
fn normalization_lowercases_and_collapses() {
    let n: String = normalize("  Hey,  THERE!  ").into_iter().collect();
    assert_eq!(n, "hey there");
    let empty: String = normalize("!!!").into_iter().collect();
    assert_eq!(empty, "");
}

#[test]
fn key_names_come_after_the_last_slash() {
    assert_eq!(key_file_name("music/alpha.mp3"), "alpha.mp3");
    assert_eq!(key_file_name("alpha.mp3"), "alpha.mp3");
    assert_eq!(key_file_name("a/b/c.flac"), "c.flac");
    assert_eq!(key_file_name("dir/"), "");
}

#[test]
fn listing_drops_markers_and_dot_files() {
    let keys = vec![
        "music/".to_string(),
        "music/.hidden".to_string(),
        "music/beta.wav".to_string(),
        "music/alpha.mp3".to_string(),
    ];
    let entries = entries_from_keys(&keys);
    assert_eq!(entries.len(), 2);
    assert_eq!(entries[0].name, "beta.wav");
    assert_eq!(entries[1].name, "alpha.mp3");
    let sorted = sort_entries_by_name(&entries);
    assert_eq!(sorted[0].name, "alpha.mp3");
    assert_eq!(sorted[1].name, "beta.wav");
}

#[test]
fn sorting_keeps_all_entries() {
    let entries = vec![
        S3Entry { key: "k/c".to_string(), name: "c".to_string() },
        S3Entry { key: "k/a".to_string(), name: "a".to_string() },
        S3Entry { key: "k/b".to_string(), name: "b".to_string() },
    ];
    let sorted = sort_entries_by_name(&entries);
    let names: Vec<&str> = sorted.iter().map(|e| e.name.as_str()).collect();
    assert_eq!(names, vec!["a", "b", "c"]);
    assert_eq!(sorted[0].key, "k/a");
}

#[test]
fn dynamic_context_lists_the_pieces() {
    let mentions = vec![MentionInfo { display_name: "Ann".to_string(), user_id: 5 }];
    let ctx = build_dynamic_context(
        "2024-01-02 03:04:05 UTC",
        "leo",
        9,
        Some(&"Leo the Bot Fan".to_string()),
        Some(&"2020-05-06".to_string()),
        Some(77),
        88,
        &mentions,
    );
    let expected = "You are a Discord bot. Users interact with you by mentioning you in messages.\nCurrent datetime: 2024-01-02 03:04:05 UTC\nUser: leo (ID: 9) (Server nick: Leo the Bot Fan), joined 2020-05-06\nServer ID: 77\nChannel ID: 88\n\nUsers mentioned in this message:\n- Ann (ID: 5, mention: <@5>)";
    assert_eq!(ctx, expected);
}

#[test]
fn dynamic_context_without_server() {
    let ctx = build_dynamic_context(
        "now",
        "leo",
        9,
        None,
        None,
        None,
        88,
        &Vec::new(),
    );
    let expected = "You are a Discord bot. Users interact with you by mentioning you in messages.\nCurrent datetime: now\nUser: leo (ID: 9)\nChannel ID: 88";
    assert_eq!(ctx, expected);
}
