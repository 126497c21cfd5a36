//! Dynamic context building: the per-request grounding text injected ahead
//! of the fixed system instruction.  The caller supplies the pieces the
//! platform knows (the formatted timestamp, names, identifiers); this
//! module assembles them.

use vstd::prelude::*;

verus! {

use vstd::string::StringExecFns;

use crate::strutil::dec_str;
use crate::strutil::u64_to_string;

/// The context's opening line.
pub const CONTEXT_PREAMBLE: &'static str =
    "You are a Discord bot. Users interact with you by mentioning you in messages.";

/// A user mentioned in the triggering message, as plain data.
pub struct MentionInfo {
    pub display_name: String,
    pub user_id: u64,
}

/// One mention's line: the display name, the id, and the mention marker.
pub open spec fn mention_line_spec(m: MentionInfo) -> Seq<char> {
    "\n- "@ + m.display_name@ + " (ID: "@ + dec_str(m.user_id as nat) + ", mention: <@"@ + dec_str(
        m.user_id as nat,
    ) + ">)"@
}

/// The mention block: nothing without mentions, else a heading followed by
/// one line per mentioned user.
pub open spec fn mentions_spec(mentions: Seq<MentionInfo>) -> Seq<char>
    decreases mentions.len(),
{
    if mentions.len() == 0 {
        Seq::<char>::empty()
    } else {
        mentions_spec(mentions.drop_last()) + mention_line_spec(mentions.last())
    }
}

/// The whole dynamic context: the preamble, the current time, the user
/// (with optional server nickname and join date), the server when there is
/// one, the channel, and the mentioned users.
pub open spec fn dynamic_context_spec(
    timestamp: Seq<char>,
    username: Seq<char>,
    user_id: u64,
    nick: Option<Seq<char>>,
    join_date: Option<Seq<char>>,
    guild_id: Option<u64>,
    channel_id: u64,
    mentions: Seq<MentionInfo>,
) -> Seq<char> {
    let base = CONTEXT_PREAMBLE@ + "\nCurrent datetime: "@ + timestamp + "\nUser: "@ + username
        + " (ID: "@ + dec_str(user_id as nat) + ")"@;
    let with_nick = match nick {
        Some(n) => base + " (Server nick: "@ + n + ")"@,
        None => base,
    };
    let with_join = match join_date {
        Some(d) => with_nick + ", joined "@ + d,
        None => with_nick,
    };
    let with_guild = match guild_id {
        Some(g) => with_join + "\nServer ID: "@ + dec_str(g as nat),
        None => with_join,
    };
    let with_channel = with_guild + "\nChannel ID: "@ + dec_str(channel_id as nat);
    if mentions.len() == 0 {
        with_channel
    } else {
        with_channel + "\n\nUsers mentioned in this message:"@ + mentions_spec(mentions)
    }
}

/// Builds the dynamic context from the pieces the platform reports.  The
/// mention list is expected with bot accounts already filtered out.
pub fn build_dynamic_context(
    timestamp: &str,
    username: &str,
    user_id: u64,
    nick: Option<&String>,
    join_date: Option<&String>,
    guild_id: Option<u64>,
    channel_id: u64,
    mentions: &Vec<MentionInfo>,
) -> (r: String)
    ensures
        r@ == dynamic_context_spec(
            timestamp@,
            username@,
            user_id,
            match nick {
                Some(n) => Some(n@),
                None => None,
            },
            match join_date {
                Some(d) => Some(d@),
                None => None,
            },
            guild_id,
            channel_id,
            mentions@,
        ),
{
    let mut context = String::from_str(CONTEXT_PREAMBLE);
    context.append("\nCurrent datetime: ");
    context.append(timestamp);
    context.append("\nUser: ");
    context.append(username);
    context.append(" (ID: ");
    context.append(u64_to_string(user_id).as_str());
    context.append(")");

    if let Some(n) = nick {
        context.append(" (Server nick: ");
        context.append(n.as_str());
        context.append(")");
    }
    if let Some(d) = join_date {
        context.append(", joined ");
        context.append(d.as_str());
    }
    if let Some(g) = guild_id {
        context.append("\nServer ID: ");
        context.append(u64_to_string(g).as_str());
    }
    context.append("\nChannel ID: ");
    context.append(u64_to_string(channel_id).as_str());

    if mentions.len() > 0 {
        context.append("\n\nUsers mentioned in this message:");
        let n = mentions.len();
        let ghost base = context@;
        proof {
            assert(mentions@.subrange(0, 0) =~= Seq::<MentionInfo>::empty());
            assert(base + mentions_spec(mentions@.subrange(0, 0)) =~= base);
        }
        for i in 0..n
            invariant
                n == mentions@.len(),
                context@ == base + mentions_spec(mentions@.subrange(0, i as int)),
        {
            let m = &mentions[i];
            let id_str = u64_to_string(m.user_id);
            context.append("\n- ");
            context.append(m.display_name.as_str());
            context.append(" (ID: ");
            context.append(id_str.as_str());
            context.append(", mention: <@");
            context.append(id_str.as_str());
            context.append(">)");
            proof {
                let pre = mentions@.subrange(0, i + 1);
                assert(pre.drop_last() =~= mentions@.subrange(0, i as int));
                assert(pre.last() == mentions@[i as int]);
                assert(context@ =~= base + mentions_spec(pre));
            }
        }
        proof {
            assert(mentions@.subrange(0, n as int) =~= mentions@);
        }
    }
    proof {
        assert(context@ =~= dynamic_context_spec(
            timestamp@,
            username@,
            user_id,
            match nick {
                Some(n) => Some(n@),
                None => None,
            },
            match join_date {
                Some(d) => Some(d@),
                None => None,
            },
            guild_id,
            channel_id,
            mentions@,
        ));
    }
    context
}

} // verus!
