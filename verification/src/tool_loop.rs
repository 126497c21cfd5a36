//! The tool execution loop, as an explicit state machine: at most five
//! completion rounds, each either ending the conversation with a final
//! text or handing back a batch of tool calls to run in order; generated
//! media ends the whole loop at once.  The caller performs the completion
//! requests and tool executions and reports each outcome back.

use vstd::prelude::*;

verus! {

use vstd::string::StringExecFns;

use crate::error::error_message_spec;
use crate::error::BotError;
use crate::openrouter::is_tool_reply;
use crate::openrouter::tool_result_message;
use crate::openrouter::ChatResult;
use crate::openrouter::ContentPart;
use crate::openrouter::Message;
use crate::openrouter::MessageContent;
use crate::openrouter::ToolCall;
use crate::response::ToolLoopResult;
use crate::tools::AudioAttachment;
use crate::tools::ImageAttachment;
use crate::tools::ToolOutput;

/// The hard bound on completion rounds in one conversation turn.
pub const MAX_TOOL_ITERATIONS: usize = 5;

/// What the caller must do next.
pub enum LoopDirective {
    /// Issue one completion request and report the decoded result.
    CallCompletion,
    /// Execute this tool call and report its outcome.
    ExecuteTool(ToolCall),
    /// The loop ended with a result; take it with `into_result`.
    Finish,
    /// The round bound is spent without a final answer: the turn fails
    /// with the loop-limit error and nothing is salvaged.
    GiveUp,
}

/// The image URLs found in a sequence of content parts, in order.
pub open spec fn image_urls_of_parts(parts: Seq<ContentPart>) -> Seq<Seq<char>>
    decreases parts.len(),
{
    if parts.len() == 0 {
        Seq::<Seq<char>>::empty()
    } else {
        let rest = image_urls_of_parts(parts.drop_last());
        match parts.last() {
            ContentPart::ImageUrl { image_url } => rest + seq![image_url.url@],
            _ => rest,
        }
    }
}

/// The image URLs one message contributes.
pub open spec fn image_urls_of_message(m: Message) -> Seq<Seq<char>> {
    match m.content {
        Some(MessageContent::MultiPart(parts)) => image_urls_of_parts(parts@),
        _ => Seq::<Seq<char>>::empty(),
    }
}

/// All image URLs in a history, most recent message first; within one
/// message the parts keep their order.
pub open spec fn image_urls_spec(messages: Seq<Message>) -> Seq<Seq<char>>
    decreases messages.len(),
{
    if messages.len() == 0 {
        Seq::<Seq<char>>::empty()
    } else {
        image_urls_of_message(messages.last()) + image_urls_spec(messages.drop_last())
    }
}

fn push_part_urls(urls: &mut Vec<String>, parts: &Vec<ContentPart>)
    ensures
        final(urls)@.map_values(|s: String| s@) == old(urls)@.map_values(|s: String| s@)
            + image_urls_of_parts(parts@),
{
    let n = parts.len();
    proof {
        assert(parts@.subrange(0, 0) =~= Seq::<ContentPart>::empty());
        assert(urls@.map_values(|s: String| s@) + image_urls_of_parts(parts@.subrange(0, 0))
            =~= urls@.map_values(|s: String| s@));
    }
    for i in 0..n
        invariant
            n == parts@.len(),
            urls@.map_values(|s: String| s@) == old(urls)@.map_values(|s: String| s@)
                + image_urls_of_parts(parts@.subrange(0, i as int)),
    {
        proof {
            let pre = parts@.subrange(0, i + 1);
            assert(pre.drop_last() =~= parts@.subrange(0, i as int));
            assert(pre.last() == parts@[i as int]);
        }
        let ghost old_view = urls@;
        match &parts[i] {
            ContentPart::ImageUrl { image_url } => {
                urls.push(image_url.url.clone());
                proof {
                    assert(urls@.map_values(|s: String| s@) =~= old_view.map_values(
                        |s: String| s@,
                    ) + seq![image_url.url@]);
                    assert(old(urls)@.map_values(|s: String| s@) + (image_urls_of_parts(
                        parts@.subrange(0, i as int),
                    ) + seq![image_url.url@]) =~= (old(urls)@.map_values(|s: String| s@)
                        + image_urls_of_parts(parts@.subrange(0, i as int))) + seq![
                        image_url.url@,
                    ]);
                }
            },
            _ => {},
        }
    }
    proof {
        assert(parts@.subrange(0, n as int) =~= parts@);
    }
}

/// Extract image URLs from conversation history (most recent first).
pub fn extract_image_urls(messages: &Vec<Message>) -> (r: Vec<String>)
    ensures
        r@.map_values(|s: String| s@) == image_urls_spec(messages@),
{
    let mut urls: Vec<String> = Vec::new();
    let n = messages.len();
    proof {
        assert(messages@.subrange(0, n as int) =~= messages@);
        assert(urls@.map_values(|s: String| s@) =~= Seq::<Seq<char>>::empty());
    }
    let mut remaining = n;
    while remaining > 0
        invariant
            n == messages@.len(),
            remaining <= n,
            urls@.map_values(|s: String| s@) + image_urls_spec(
                messages@.subrange(0, remaining as int),
            ) == image_urls_spec(messages@),
        decreases remaining,
    {
        let i = remaining - 1;
        proof {
            let pre = messages@.subrange(0, remaining as int);
            assert(pre.drop_last() =~= messages@.subrange(0, i as int));
            assert(pre.last() == messages@[i as int]);
        }
        match &messages[i].content {
            Some(MessageContent::MultiPart(parts)) => {
                push_part_urls(&mut urls, parts);
            },
            _ => {},
        }
        proof {
            assert(urls@.map_values(|s: String| s@) + image_urls_spec(
                messages@.subrange(0, i as int),
            ) =~= image_urls_spec(messages@));
        }
        remaining = i;
    }
    proof {
        assert(messages@.subrange(0, 0) =~= Seq::<Message>::empty());
        assert(urls@.map_values(|s: String| s@) =~= image_urls_spec(messages@));
    }
    urls
}

/// The loop's state: the running history, the tool calls of the current
/// batch still to run, the media collected so far, the number of
/// completion rounds issued, and whether the loop has terminated with a
/// result.
pub struct LoopState {
    pub history: Vec<Message>,
    pub pending_calls: Vec<ToolCall>,
    pub generated_images: Vec<ImageAttachment>,
    pub generated_audio: Vec<AudioAttachment>,
    pub rounds: usize,
    pub done: bool,
    pub final_text: Option<String>,
}

/// Whether two states agree on the history, the collected media and the
/// final text.
pub open spec fn same_collections(a: LoopState, b: LoopState) -> bool {
    &&& a.history == b.history
    &&& a.generated_images == b.generated_images
    &&& a.generated_audio == b.generated_audio
    &&& a.final_text == b.final_text
}

impl LoopState {
    /// The counter never passes the bound.
    pub open spec fn wf(self) -> bool {
        self.rounds <= MAX_TOOL_ITERATIONS
    }

    /// A fresh loop over the given history: nothing collected, no round
    /// issued yet.
    pub fn new(history: Vec<Message>) -> (s: Self)
        ensures
            s.history == history,
            s.pending_calls@ == Seq::<ToolCall>::empty(),
            s.generated_images@ == Seq::<ImageAttachment>::empty(),
            s.generated_audio@ == Seq::<AudioAttachment>::empty(),
            s.rounds == 0,
            !s.done,
            s.final_text is None,
            s.wf(),
    {
        LoopState {
            history,
            pending_calls: Vec::new(),
            generated_images: Vec::new(),
            generated_audio: Vec::new(),
            rounds: 0,
            done: false,
            final_text: None,
        }
    }

    /// Decides the next step.  A live loop first works through the pending
    /// batch in order; with the batch empty it issues another completion
    /// round while the counter is below the bound, and gives up the moment
    /// the bound is spent: the extra round is never issued.
    pub fn advance(&mut self) -> (d: LoopDirective)
        requires
            old(self).wf(),
        ensures
            final(self).wf(),
            old(self).done ==> (d is Finish && *final(self) == *old(self)),
            (!old(self).done && old(self).pending_calls@.len() > 0) ==> ({
                &&& d matches LoopDirective::ExecuteTool(c) && c == old(self).pending_calls@[0]
                &&& final(self).pending_calls@ == old(self).pending_calls@.drop_first()
                &&& same_collections(*final(self), *old(self))
                &&& final(self).rounds == old(self).rounds
                &&& final(self).done == old(self).done
            }),
            (!old(self).done && old(self).pending_calls@.len() == 0 && old(self).rounds
                < MAX_TOOL_ITERATIONS) ==> ({
                &&& d is CallCompletion
                &&& final(self).rounds == old(self).rounds + 1
                &&& final(self).pending_calls == old(self).pending_calls
                &&& same_collections(*final(self), *old(self))
                &&& final(self).done == old(self).done
            }),
            (!old(self).done && old(self).pending_calls@.len() == 0 && old(self).rounds
                >= MAX_TOOL_ITERATIONS) ==> (d is GiveUp && *final(self) == *old(self)),
    {
        if self.done {
            return LoopDirective::Finish;
        }
        if self.pending_calls.len() > 0 {
            let ghost before = self.pending_calls@;
            let call = self.pending_calls.remove(0);
            proof {
                assert(self.pending_calls@ =~= before.drop_first());
            }
            return LoopDirective::ExecuteTool(call);
        }
        if self.rounds < MAX_TOOL_ITERATIONS {
            self.rounds = self.rounds + 1;
            return LoopDirective::CallCompletion;
        }
        LoopDirective::GiveUp
    }

    /// Takes one completion outcome: a final text terminates the loop with
    /// whatever media was collected; a tool batch appends the assistant's
    /// tool-call message to the history and queues the batch.
    pub fn on_completion(&mut self, result: ChatResult)
        requires
            !old(self).done,
            old(self).pending_calls@.len() == 0,
        ensures
            final(self).wf() == old(self).wf(),
            final(self).rounds == old(self).rounds,
            final(self).generated_images == old(self).generated_images,
            final(self).generated_audio == old(self).generated_audio,
            match result {
                ChatResult::TextResponse(t) => {
                    &&& final(self).done
                    &&& final(self).final_text == Some(t)
                    &&& final(self).history == old(self).history
                    &&& final(self).pending_calls@.len() == 0
                },
                ChatResult::ToolCalls { tool_calls, assistant_message } => {
                    &&& !final(self).done
                    &&& final(self).final_text == old(self).final_text
                    &&& final(self).history@ == old(self).history@.push(assistant_message)
                    &&& final(self).pending_calls == tool_calls
                },
            },
    {
        match result {
            ChatResult::TextResponse(t) => {
                self.done = true;
                self.final_text = Some(t);
            },
            ChatResult::ToolCalls { tool_calls, assistant_message } => {
                self.history.push(assistant_message);
                self.pending_calls = tool_calls;
            },
        }
    }

    /// Takes one successful tool outcome.  Generated media terminates the
    /// whole loop at once: the artifact is collected, the rest of the
    /// batch is discarded, and no further completion round will be
    /// issued.  A plain text result becomes a Tool-role reply under the
    /// call's id, and the batch goes on.
    pub fn on_tool_success(&mut self, call: &ToolCall, output: ToolOutput)
        requires
            !old(self).done,
        ensures
            final(self).wf() == old(self).wf(),
            final(self).rounds == old(self).rounds,
            final(self).final_text == old(self).final_text,
            match output.image {
                Some(img) => {
                    &&& final(self).done
                    &&& final(self).generated_images@ == old(self).generated_images@.push(img)
                    &&& final(self).generated_audio == old(self).generated_audio
                    &&& final(self).pending_calls@.len() == 0
                    &&& final(self).history == old(self).history
                },
                None => match output.audio {
                    Some(aud) => {
                        &&& final(self).done
                        &&& final(self).generated_audio@ == old(self).generated_audio@.push(aud)
                        &&& final(self).generated_images == old(self).generated_images
                        &&& final(self).pending_calls@.len() == 0
                        &&& final(self).history == old(self).history
                    },
                    None => {
                        &&& !final(self).done
                        &&& final(self).generated_images == old(self).generated_images
                        &&& final(self).generated_audio == old(self).generated_audio
                        &&& final(self).pending_calls == old(self).pending_calls
                        &&& final(self).history@.len() == old(self).history@.len() + 1
                        &&& final(self).history@.drop_last() == old(self).history@
                        &&& is_tool_reply(final(self).history@.last(), call.id, output.text)
                    },
                },
            },
    {
        let ToolOutput { text, image, audio } = output;
        match image {
            Some(img) => {
                self.generated_images.push(img);
                self.pending_calls.clear();
                self.done = true;
            },
            None => match audio {
                Some(aud) => {
                    self.generated_audio.push(aud);
                    self.pending_calls.clear();
                    self.done = true;
                },
                None => {
                    let reply = tool_result_message(call.id.clone(), text);
                    self.history.push(reply);
                    proof {
                        assert(self.history@.drop_last() =~= old(self).history@);
                    }
                },
            },
        }
    }

    /// Takes one failed tool outcome: the failure is caught here, turned
    /// into a Tool-role message reading `Error: ` and the description, and
    /// the batch goes on; the loop never aborts on a tool failure.
    pub fn on_tool_failure(&mut self, call: &ToolCall, error: &BotError)
        requires
            !old(self).done,
        ensures
            final(self).wf() == old(self).wf(),
            final(self).rounds == old(self).rounds,
            final(self).final_text == old(self).final_text,
            final(self).done == old(self).done,
            final(self).generated_images == old(self).generated_images,
            final(self).generated_audio == old(self).generated_audio,
            final(self).pending_calls == old(self).pending_calls,
            final(self).history@.len() == old(self).history@.len() + 1,
            final(self).history@.drop_last() == old(self).history@,
            (final(self).history@.last().content matches Some(MessageContent::Text(t)) && t@
                == "Error: "@ + error_message_spec(*error) && is_tool_reply(
                final(self).history@.last(),
                call.id,
                t,
            )),
    {
        let mut text = String::from_str("Error: ");
        text.append(error.message().as_str());
        let reply = tool_result_message(call.id.clone(), text);
        self.history.push(reply);
        proof {
            assert(self.history@.drop_last() =~= old(self).history@);
        }
    }

    /// Gives up the terminal result of a finished loop.
    pub fn into_result(self) -> (r: ToolLoopResult)
        requires
            self.done,
        ensures
            r.text == self.final_text,
            r.images == self.generated_images,
            r.audio == self.generated_audio,
    {
        ToolLoopResult {
            text: self.final_text,
            images: self.generated_images,
            audio: self.generated_audio,
        }
    }
}

} // verus!
