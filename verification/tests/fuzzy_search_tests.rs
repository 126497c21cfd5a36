use fuzzy_matcher::skim::SkimMatcherV2;
use fuzzy_matcher::FuzzyMatcher;
use leogpt::fuzzy_search::find_best_fuzzy;
use leogpt::fuzzy_search::find_exact;
use leogpt::fuzzy_search::search_fuzzy;
use leogpt::s3_index::S3Entry;

fn entries() -> Vec<S3Entry> {
    vec![
        S3Entry { key: "music/alpha.mp3".to_string(), name: "alpha.mp3".to_string() },
        S3Entry { key: "music/beta.wav".to_string(), name: "beta.wav".to_string() },
        S3Entry { key: "music/gamma.flac".to_string(), name: "gamma.flac".to_string() },
    ]
}

#[test]
fn exact_match_is_case_insensitive() {
    let entries = entries();
    let found = find_exact(&entries, "ALPHA.MP3").expect("expected match");
    assert_eq!(found.name, "alpha.mp3");
}

#[test]
fn empty_query_returns_none() {
    let entries = entries();
    assert!(find_best_fuzzy(&entries, "  ").is_none());
}

#[test]
fn finds_best_match() -> Result<(), &'static str> {
    let entries = entries();
    let found = find_best_fuzzy(&entries, "alp").ok_or("expected match")?;
    assert_eq!(found.name, "alpha.mp3");
    Ok(())
}

#[test]
fn search_returns_ranked_results() -> Result<(), &'static str> {
    let entries = entries();
    let results = search_fuzzy(&entries, "a", 10);
    assert!(!results.is_empty());

    let matcher = SkimMatcherV2::default();
    let mut last_score = None;
    for entry in results {
        let score = matcher
            .fuzzy_match(entry.name.as_str(), "a")
            .ok_or("expected score")?;
        if let Some(previous) = last_score {
            assert!(score <= previous);
        }
        last_score = Some(score);
    }
    Ok(())
}

#[test]
fn search_limits_results() {
    let entries = entries();
    let results = search_fuzzy(&entries, "a", 2);
    assert_eq!(results.len(), 2);
}

#[test]
fn search_empty_query_returns_empty() {
    let entries = entries();
    assert!(search_fuzzy(&entries, "   ", 10).is_empty());
}

#[test]
fn exact_match_needs_whole_name() {
    let entries = entries();
    assert!(find_exact(&entries, "alpha").is_none());
}
