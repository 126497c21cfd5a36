//! Auto-response rule types and the built-in rule set.

use vstd::prelude::*;

verus! {

use vstd::string::StringExecFns;

use crate::auto_response::matching::ContentMatchConfig;
use crate::auto_response::matching::MatchMode;
use crate::strutil::dec_str;
use crate::strutil::u64_to_string;

/// Response configuration before resolving into sendable payloads.
pub enum ResponseConfig {
    ImageUrl { url: String },
}

/// Raw rule configuration before resolving names.
pub struct AutoResponseRuleConfig {
    pub name: Option<String>,
    pub user_ids: Vec<u64>,
    pub content: ContentMatchConfig,
    pub response: ResponseConfig,
}

/// Response payload ready to be sent.
pub enum AutoResponsePayload {
    ImageUrl(String),
}

impl AutoResponsePayload {
    /// An equal copy of the payload.
    pub fn duplicate(&self) -> (r: Self)
        ensures
            r == *self,
    {
        match self {
            AutoResponsePayload::ImageUrl(url) => AutoResponsePayload::ImageUrl(url.clone()),
        }
    }
}

/// Fully-resolved auto-response rule.
pub struct AutoResponseRule {
    pub name: String,
    pub user_ids: Vec<u64>,
    pub content: ContentMatchConfig,
    pub response: AutoResponsePayload,
}

/// Matched auto-response action.
pub struct AutoResponseAction {
    pub rule_name: String,
    pub payload: AutoResponsePayload,
}

impl AutoResponseRuleConfig {
    /// Convert a config entry into a resolved rule; an unnamed rule is named
    /// after its position, counted from one.
    pub fn into_rule(self, index: usize) -> (r: AutoResponseRule)
        requires
            index < usize::MAX,
        ensures
            r.name@ == (match self.name {
                Some(n) => n@,
                None => "rule-"@ + dec_str((index + 1) as nat),
            }),
            r.user_ids == self.user_ids,
            r.content == self.content,
            r.response == (match self.response {
                ResponseConfig::ImageUrl { url } => AutoResponsePayload::ImageUrl(url),
            }),
    {
        let name = match self.name {
            Some(n) => n,
            None => {
                let mut n = String::from_str("rule-");
                n.append(u64_to_string((index + 1) as u64).as_str());
                n
            },
        };

        let response = match self.response {
            ResponseConfig::ImageUrl { url } => AutoResponsePayload::ImageUrl(url),
        };

        AutoResponseRule { name, user_ids: self.user_ids, content: self.content, response }
    }
}

/// Returns the built-in auto-response rules: a phrase matcher for one user
/// and an emoji matcher for another, each answering with an image link.
pub fn hardcoded_auto_responses() -> (r: Vec<AutoResponseRule>)
    ensures
        r@.len() == 2,
        r@[0].name@ == "jai-vu-image"@,
        r@[0].user_ids@ == seq![398543560330444813u64],
        r@[0].content.patterns@.map_values(|p: String| p@) == seq![
            "j ai vu"@,
            "jaivu"@,
            "jlaivu"@,
        ],
        r@[0].content.mode is Fuzzy,
        r@[0].content.compact == true,
        r@[0].content.fuzzy_threshold_percent == 75u64,
        r@[0].content.max_token_window == 3usize,
        r@[0].response matches AutoResponsePayload::ImageUrl(u0) && u0@
            == "https://vault-public.s3.ca-east-006.backblazeb2.com/guillaume_a_vu_4k.png"@,
        r@[1].name@ == "laugh-emoji-image"@,
        r@[1].user_ids@ == seq![398620783498493964u64],
        r@[1].content.patterns@.map_values(|p: String| p@) == seq!["\u{1F602}"@],
        r@[1].content.mode is Fuzzy,
        r@[1].content.compact == false,
        r@[1].content.fuzzy_threshold_percent == 75u64,
        r@[1].content.max_token_window == 1usize,
        r@[1].response matches AutoResponsePayload::ImageUrl(u1) && u1@
            == "https://vault-public.s3.ca-east-006.backblazeb2.com/amir_drole_4k.png"@,
{
    let mut patterns1: Vec<String> = Vec::new();
    patterns1.push(String::from_str("j ai vu"));
    patterns1.push(String::from_str("jaivu"));
    patterns1.push(String::from_str("jlaivu"));
    let mut users1: Vec<u64> = Vec::new();
    users1.push(398543560330444813u64);
    let first = AutoResponseRuleConfig {
        name: Some(String::from_str("jai-vu-image")),
        user_ids: users1,
        content: ContentMatchConfig {
            patterns: patterns1,
            mode: MatchMode::Fuzzy,
            compact: true,
            fuzzy_threshold_percent: 75,
            max_token_window: 3,
        },
        response: ResponseConfig::ImageUrl {
            url: String::from_str(
                "https://vault-public.s3.ca-east-006.backblazeb2.com/guillaume_a_vu_4k.png",
            ),
        },
    };

    let mut patterns2: Vec<String> = Vec::new();
    patterns2.push(String::from_str("\u{1F602}"));
    let mut users2: Vec<u64> = Vec::new();
    users2.push(398620783498493964u64);
    let second = AutoResponseRuleConfig {
        name: Some(String::from_str("laugh-emoji-image")),
        user_ids: users2,
        content: ContentMatchConfig {
            patterns: patterns2,
            mode: MatchMode::Fuzzy,
            compact: false,
            fuzzy_threshold_percent: 75,
            max_token_window: 1,
        },
        response: ResponseConfig::ImageUrl {
            url: String::from_str(
                "https://vault-public.s3.ca-east-006.backblazeb2.com/amir_drole_4k.png",
            ),
        },
    };

    let mut out: Vec<AutoResponseRule> = Vec::new();
    out.push(first.into_rule(0));
    out.push(second.into_rule(1));
    proof {
        assert(out@[0].user_ids@ =~= seq![398543560330444813u64]);
        assert(out@[1].user_ids@ =~= seq![398620783498493964u64]);
        assert(out@[0].content.patterns@.map_values(|p: String| p@) =~= seq![
            "j ai vu"@,
            "jaivu"@,
            "jlaivu"@,
        ]);
        assert(out@[1].content.patterns@.map_values(|p: String| p@) =~= seq!["\u{1F602}"@]);
    }
    out
}

} // verus!
