//! Auto-response rules and matching utilities.

mod matching;
mod rules;

pub use matching::fuzzy_match;
pub use matching::has_non_alnum_whitespace;
pub use matching::matches_spec;
pub use matching::select_auto_response;
pub use matching::select_spec;
pub use matching::ContentMatchConfig;
pub use matching::MatchMode;
pub use rules::hardcoded_auto_responses;
pub use rules::AutoResponseAction;
pub use rules::AutoResponsePayload;
pub use rules::AutoResponseRule;
pub use rules::AutoResponseRuleConfig;
pub use rules::ResponseConfig;
