//! Response planning: turning the tool loop's terminal state into exactly
//! one of four reply shapes.  Sending is the caller's business.

use vstd::prelude::*;

verus! {

use crate::tools::AudioAttachment;
use crate::tools::ImageAttachment;

/// Result of the tool loop containing text and media attachments.
pub struct ToolLoopResult {
    pub text: Option<String>,
    pub images: Vec<ImageAttachment>,
    pub audio: Vec<AudioAttachment>,
}

/// The reply to send: a threaded text reply, a media message referencing
/// the trigger, both combined, or nothing at all.
pub enum ReplyPlan {
    TextReply { text: String },
    MediaReply { images: Vec<ImageAttachment>, audio: Vec<AudioAttachment> },
    TextAndMediaReply { text: String, images: Vec<ImageAttachment>, audio: Vec<AudioAttachment> },
    Nothing,
}

/// Plans the reply for a finished loop: exactly one of the four shapes
/// holds, by whether text and media are present.
pub fn plan_response(result: ToolLoopResult) -> (r: ReplyPlan)
    ensures
        (result.text is Some && result.images@.len() == 0 && result.audio@.len() == 0) ==> (
        r matches ReplyPlan::TextReply { text } && text == result.text->0),
        (result.text is None && (result.images@.len() > 0 || result.audio@.len() > 0)) ==> (
        r matches ReplyPlan::MediaReply { images, audio } && images == result.images && audio
            == result.audio),
        (result.text is Some && (result.images@.len() > 0 || result.audio@.len() > 0)) ==> (
        r matches ReplyPlan::TextAndMediaReply { text, images, audio } && text == result.text->0
            && images == result.images && audio == result.audio),
        (result.text is None && result.images@.len() == 0 && result.audio@.len() == 0)
            ==> r is Nothing,
{
    let has_media = result.images.len() > 0 || result.audio.len() > 0;
    match (result.text, has_media) {
        (Some(text), false) => ReplyPlan::TextReply { text },
        (None, true) => ReplyPlan::MediaReply { images: result.images, audio: result.audio },
        (Some(text), true) => ReplyPlan::TextAndMediaReply {
            text,
            images: result.images,
            audio: result.audio,
        },
        (None, false) => ReplyPlan::Nothing,
    }
}

} // verus!
