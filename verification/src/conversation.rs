//! Conversation history building: walking a reply chain backward from the
//! triggering message, one fetched ancestor at a time, and producing the
//! chronologically-ordered message list.  Fetching itself is the caller's
//! business: the builder says what to fetch and takes each outcome.

use vstd::prelude::*;

verus! {

use crate::media::assembled_content_rel;
use crate::media::message_to_openrouter_message;
use crate::media::AttachmentData;
use crate::openrouter::Message;
use crate::types::MessageRole;

/// A reference to a platform message.
#[derive(Debug, Clone, Copy, PartialEq, Eq, Structural)]
pub struct MessageRef {
    pub channel_id: u64,
    pub message_id: u64,
}

/// One inbound platform message, as plain data.  Audio attachment bytes
/// are prefetched by the caller.
pub struct InboundMessage {
    pub author_id: u64,
    pub content: String,
    pub attachments: Vec<AttachmentData>,
    pub reply_to: Option<MessageRef>,
}

/// The role an author gets: the bot's own messages are assistant turns,
/// everything else is a user turn.
pub open spec fn role_for(bot_user_id: u64, author_id: u64) -> MessageRole {
    if author_id == bot_user_id {
        MessageRole::Assistant
    } else {
        MessageRole::User
    }
}

/// Whether `m` is the structured message that the inbound message `src`
/// assembles into, under the bot identity `bot`.
pub open spec fn converted_rel(m: Message, src: InboundMessage, bot: u64) -> bool {
    &&& m.role == role_for(bot, src.author_id)
    &&& m.content matches Some(c) && assembled_content_rel(src.content@, src.attachments@, c)
    &&& m.tool_calls is None
    &&& m.tool_call_id is None
}

/// How many ancestors get resolved, walking from `start` through the fetch
/// outcomes: the walk stops at a missing reply reference, a failed fetch,
/// or the end of the outcomes.
pub open spec fn resolved_count(
    start: Option<MessageRef>,
    fetches: Seq<Option<InboundMessage>>,
) -> nat
    decreases fetches.len(),
{
    if start is None || fetches.len() == 0 {
        0
    } else {
        match fetches[0] {
            None => 0,
            Some(m) => 1 + resolved_count(m.reply_to, fetches.drop_first()),
        }
    }
}

/// The k-th resolved ancestor along the walk (meaningful for
/// `k < resolved_count`).
pub open spec fn kth_resolved(
    start: Option<MessageRef>,
    fetches: Seq<Option<InboundMessage>>,
    k: int,
) -> InboundMessage
    decreases k
        when 0 <= k
{
    if k == 0 || fetches.len() == 0 {
        fetches[0]->0
    } else {
        kth_resolved(fetches[0]->0.reply_to, fetches.drop_first(), k - 1)
    }
}

/// Walks the reply chain: holds the ancestors collected so far (newest
/// first) and the reference still to fetch, if any.
pub struct HistoryBuilder {
    pub bot_user_id: u64,
    pub collected: Vec<Message>,
    pub next_ref: Option<MessageRef>,
}

impl HistoryBuilder {
    /// Starts a walk at the triggering message's reply reference.
    pub fn new(bot_user_id: u64, trigger_reply_to: Option<MessageRef>) -> (s: Self)
        ensures
            s.bot_user_id == bot_user_id,
            s.collected@ == Seq::<Message>::empty(),
            s.next_ref == trigger_reply_to,
    {
        HistoryBuilder { bot_user_id, collected: Vec::new(), next_ref: trigger_reply_to }
    }

    /// The ancestor to fetch next, if the walk is still going.
    pub fn pending_fetch(&self) -> (r: Option<MessageRef>)
        ensures
            r == self.next_ref,
    {
        self.next_ref
    }

    /// Takes the outcome of one fetch.  A failed fetch ends the walk and
    /// keeps everything collected so far; a fetched ancestor is converted,
    /// collected, and the walk moves to its own reply reference.
    pub fn on_fetch(&mut self, fetched: Option<InboundMessage>)
        requires
            old(self).next_ref is Some,
        ensures
            final(self).bot_user_id == old(self).bot_user_id,
            match fetched {
                None => final(self).collected == old(self).collected && final(self).next_ref
                    is None,
                Some(m) => {
                    &&& final(self).next_ref == m.reply_to
                    &&& final(self).collected@.len() == old(self).collected@.len() + 1
                    &&& final(self).collected@.drop_last() == old(self).collected@
                    &&& converted_rel(
                        final(self).collected@.last(),
                        m,
                        old(self).bot_user_id,
                    )
                },
            },
    {
        match fetched {
            None => {
                self.next_ref = None;
            },
            Some(m) => {
                let converted = message_to_openrouter_message(
                    &m.content,
                    &m.attachments,
                    if m.author_id == self.bot_user_id {
                        MessageRole::Assistant
                    } else {
                        MessageRole::User
                    },
                );
                self.next_ref = m.reply_to;
                self.collected.push(converted);
                proof {
                    assert(self.collected@.drop_last() =~= old(self).collected@);
                }
            },
        }
    }

    /// Finishes the walk: the collected ancestors in chronological order
    /// (oldest first), with the triggering message appended as the final
    /// user turn.
    pub fn finish(self, trigger_text: &String, trigger_attachments: &Vec<AttachmentData>) -> (r:
        Vec<Message>)
        ensures
            r@.len() == self.collected@.len() + 1,
            forall|i: int|
                0 <= i < self.collected@.len() ==> r@[i] == self.collected@[self.collected@.len()
                    - 1 - i],
            r@.last().role is User,
            r@.last().content matches Some(c) && assembled_content_rel(
                trigger_text@,
                trigger_attachments@,
                c,
            ),
            r@.last().tool_calls is None,
            r@.last().tool_call_id is None,
    {
        let ghost orig = self.collected@;
        let mut col = self.collected;
        let mut out: Vec<Message> = Vec::new();
        proof {
            assert(col@ =~= orig.subrange(0, col@.len() as int));
        }
        while col.len() > 0
            invariant
                out@.len() + col@.len() == orig.len(),
                col@ == orig.subrange(0, col@.len() as int),
                forall|i: int| 0 <= i < out@.len() ==> out@[i] == orig[orig.len() - 1 - i],
            decreases col.len(),
        {
            let m = match col.pop() {
                Some(m) => m,
                None => {
                    proof {
                        assert(false);
                    }
                    return out;
                },
            };
            proof {
                assert(col@ =~= orig.subrange(0, col@.len() as int));
            }
            out.push(m);
        }
        let trigger = message_to_openrouter_message(
            trigger_text,
            trigger_attachments,
            MessageRole::User,
        );
        out.push(trigger);
        out
    }
}

/// Builds the conversation history from the triggering message and the
/// outcomes of the successive ancestor fetches, in fetch order.  The chain
/// is walked until an ancestor has no reply reference, a fetch fails, or
/// the outcomes run out; what was collected is kept either way, reversed
/// to chronological order, and the trigger closes the list as a user turn.
pub fn build_conversation_history(
    bot_user_id: u64,
    trigger: &InboundMessage,
    fetches: Vec<Option<InboundMessage>>,
) -> (r: Vec<Message>)
    ensures
        ({
            let c = resolved_count(trigger.reply_to, fetches@) as int;
            &&& c <= fetches@.len()
            &&& r@.len() == c + 1
            &&& forall|i: int|
                0 <= i < c ==> converted_rel(
                    #[trigger] r@[i],
                    kth_resolved(trigger.reply_to, fetches@, c - 1 - i),
                    bot_user_id,
                )
            &&& r@.last().role is User
            &&& r@.last().content matches Some(con) && assembled_content_rel(
                trigger.content@,
                trigger.attachments@,
                con,
            )
            &&& r@.last().tool_calls is None
            &&& r@.last().tool_call_id is None
        }),
{
    let ghost f = fetches@;
    let ghost start0 = trigger.reply_to;
    let mut rest = fetches;
    let mut builder = HistoryBuilder::new(bot_user_id, trigger.reply_to);
    proof {
        assert(f.skip(0) =~= f);
    }
    loop
        invariant
            builder.bot_user_id == bot_user_id,
            rest@ == f.skip(f.len() - rest@.len()),
            rest@.len() <= f.len(),
            builder.collected@.len() <= f.len() - rest@.len(),
            builder.next_ref is Some ==> builder.collected@.len() == f.len() - rest@.len(),
            match builder.next_ref {
                Some(_) => resolved_count(start0, f) == builder.collected@.len()
                    + resolved_count(builder.next_ref, rest@),
                None => resolved_count(start0, f) == builder.collected@.len(),
            },
            builder.next_ref is Some ==> forall|d: int|
                0 <= d ==> #[trigger] kth_resolved(start0, f, builder.collected@.len() + d)
                    == kth_resolved(builder.next_ref, rest@, d),
            forall|k: int|
                0 <= k < builder.collected@.len() ==> converted_rel(
                    #[trigger] builder.collected@[k],
                    kth_resolved(start0, f, k),
                    bot_user_id,
                ),
        ensures
            builder.bot_user_id == bot_user_id,
            builder.collected@.len() == resolved_count(start0, f),
            resolved_count(start0, f) <= f.len(),
            forall|k: int|
                0 <= k < builder.collected@.len() ==> converted_rel(
                    #[trigger] builder.collected@[k],
                    kth_resolved(start0, f, k),
                    bot_user_id,
                ),
        decreases rest.len(),
    {
        if builder.pending_fetch().is_none() {
            break ;
        }
        if rest.len() == 0 {
            proof {
                assert(rest@ =~= Seq::<Option<InboundMessage>>::empty());
            }
            break ;
        }
        let ghost old_c = builder.collected@.len() as int;
        let ghost old_rest = rest@;
        let ghost old_next = builder.next_ref;
        let fetched = rest.remove(0);
        proof {
            assert(rest@ =~= old_rest.drop_first());
            assert(rest@ =~= f.skip(f.len() - rest@.len()));
        }
        let ghost was_some = fetched is Some;
        let ghost fetched_m = fetched->0;
        builder.on_fetch(fetched);
        proof {
            if was_some {
                assert(kth_resolved(start0, f, old_c + 0) == kth_resolved(old_next, old_rest, 0));
                assert(kth_resolved(old_next, old_rest, 0) == old_rest[0]->0);
                assert(builder.collected@.last() == builder.collected@[old_c]);
                assert(forall|k: int|
                    0 <= k < old_c ==> #[trigger] builder.collected@[k]
                        == builder.collected@.drop_last()[k]);
                assert(resolved_count(old_next, old_rest) == 1 + resolved_count(
                    fetched_m.reply_to,
                    old_rest.drop_first(),
                ));
                if builder.next_ref is Some {
                    assert forall|d: int| 0 <= d implies #[trigger] kth_resolved(
                        start0,
                        f,
                        builder.collected@.len() + d,
                    ) == kth_resolved(builder.next_ref, rest@, d) by {
                        assert(kth_resolved(start0, f, old_c + (d + 1)) == kth_resolved(
                            old_next,
                            old_rest,
                            d + 1,
                        ));
                        assert(kth_resolved(old_next, old_rest, d + 1) == kth_resolved(
                            old_rest[0]->0.reply_to,
                            old_rest.drop_first(),
                            d,
                        ));
                    }
                }
            } else {
                assert(resolved_count(old_next, old_rest) == 0);
            }
        }
    }
    builder.finish(&trigger.content, &trigger.attachments)
}

/// Law: on a chain where every fetch succeeds and every fetched ancestor
/// but the last still has a reply reference, every outcome is consumed:
/// a failure-free chain of N ancestors resolves all N of them.
pub proof fn lemma_full_chain_count(
    start: Option<MessageRef>,
    fetches: Seq<Option<InboundMessage>>,
)
    requires
        fetches.len() > 0 ==> start is Some,
        forall|i: int| 0 <= i < fetches.len() ==> (#[trigger] fetches[i]) is Some,
        forall|i: int| 0 <= i < fetches.len() - 1 ==> (#[trigger] fetches[i])->0.reply_to is Some,
    ensures
        resolved_count(start, fetches) == fetches.len(),
    decreases fetches.len(),
{
    if fetches.len() > 0 {
        let rest = fetches.drop_first();
        assert(forall|i: int|
            0 <= i < rest.len() ==> #[trigger] rest[i] == fetches[i + 1]);
        lemma_full_chain_count(fetches[0]->0.reply_to, rest);
    }
}

/// Law: a failed fetch truncates the chain without losing what came
/// before.  When the fetch for the (k+1)-th ancestor fails and all earlier
/// ones succeeded, exactly the first k ancestors are resolved.
pub proof fn lemma_truncated_chain_count(
    start: Option<MessageRef>,
    fetches: Seq<Option<InboundMessage>>,
    k: int,
)
    requires
        0 <= k < fetches.len(),
        fetches[k] is None,
        k > 0 ==> start is Some,
        forall|i: int| 0 <= i < k ==> (#[trigger] fetches[i]) is Some,
        forall|i: int| 0 <= i < k ==> (#[trigger] fetches[i])->0.reply_to is Some,
    ensures
        resolved_count(start, fetches) <= k,
        start is Some ==> resolved_count(start, fetches) == k,
    decreases k,
{
    if k == 0 {
    } else {
        let rest = fetches.drop_first();
        assert(forall|i: int|
            0 <= i < rest.len() ==> #[trigger] rest[i] == fetches[i + 1]);
        lemma_truncated_chain_count(fetches[0]->0.reply_to, rest, k - 1);
    }
}

} // verus!
