use leogpt::editdist::levenshtein;
use leogpt::joke::matches_jai_vu;
use leogpt::joke::should_trigger_joke;
use leogpt::joke::JOKE_USER_ID;

#[test]
fn edit_distance_matches_known_values() {
    assert_eq!(levenshtein("kitten", "sitting"), 3);
    assert_eq!(levenshtein("", "abc"), 3);
    assert_eq!(levenshtein("abc", ""), 3);
    assert_eq!(levenshtein("same", "same"), 0);
    assert_eq!(levenshtein("flaw", "lawn"), 2);
}

#[test]
fn phrase_variants_match() {
    assert!(matches_jai_vu("j'ai vu"));
    assert!(matches_jai_vu("J'AI VU quelque chose"));
    assert!(matches_jai_vu("jaivu"));
    assert!(matches_jai_vu("j ai vu"));
}

#[test]
fn unrelated_content_does_not_match() {
    assert!(!matches_jai_vu("bonjour tout le monde"));
    assert!(!matches_jai_vu(""));
    assert!(!matches_jai_vu("   "));
}

#[test]
fn joke_is_gated_by_user() {
    assert!(should_trigger_joke(JOKE_USER_ID, "j'ai vu"));
    assert!(!should_trigger_joke(JOKE_USER_ID + 1, "j'ai vu"));
    assert!(!should_trigger_joke(JOKE_USER_ID, "bonjour"));
}
