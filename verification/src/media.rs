//! Media attachment processing: classifying platform attachments by MIME
//! type and assembling them, together with the message text, into the
//! structured content the completion API takes.  Fetching attachment bytes
//! is the caller's business; audio bytes are handed in, already fetched.

use vstd::prelude::*;

verus! {

use crate::openrouter::AudioData;
use crate::openrouter::ContentPart;
use crate::openrouter::File;
use crate::openrouter::ImageUrl;
use crate::openrouter::Message;
use crate::openrouter::MessageContent;
use crate::openrouter::VideoUrl;
use crate::types::audio_format_spec;
use crate::types::AudioFormat;
use crate::types::MediaType;
use crate::types::media_type_spec;
use crate::types::MessageRole;

/// What the platform reports about one attachment.
#[derive(Debug, Clone)]
pub struct AttachmentInfo {
    pub url: String,
    pub filename: String,
    pub content_type: Option<String>,
}

/// One attachment together with its fetched bytes: for audio attachments
/// the caller fetches the raw bytes beforehand and passes them here, or
/// None when the fetch failed.
pub struct AttachmentData {
    pub info: AttachmentInfo,
    pub audio: Option<Vec<u8>>,
}

/// What the standard base64 encoding of a byte string is; it depends on
/// the bytes alone.
pub uninterp spec fn b64_of(bytes: Seq<u8>) -> Seq<char>;

/// Relies on base64's STANDARD engine: encode renders the bytes in base64,
/// and an empty input yields an empty string.
#[verifier::external_body]
pub fn base64_encode(bytes: &Vec<u8>) -> (r: String)
    ensures
        r@ == b64_of(bytes@),
        bytes@.len() == 0 ==> r@.len() == 0,
{
    base64::Engine::encode(&base64::engine::general_purpose::STANDARD, bytes)
}

/// What the standard base64 decoding of a string yields: the bytes, or
/// nothing when the string is not well-formed base64; it depends on the
/// string alone.
pub uninterp spec fn b64_dec(s: Seq<char>) -> Option<Seq<u8>>;

/// Relies on base64's STANDARD engine: decode reads base64 text back into
/// bytes, or fails on malformed input.
#[verifier::external_body]
pub fn base64_decode(s: &str) -> (r: Option<Vec<u8>>)
    ensures
        r is Some <==> b64_dec(s@) is Some,
        r matches Some(b) ==> b64_dec(s@) matches Some(q) && b@ == q,
{
    base64::Engine::decode(&base64::engine::general_purpose::STANDARD, s).ok()
}

/// The media type an attachment classifies as, from its declared content
/// type.
pub open spec fn attachment_media_type(info: AttachmentInfo) -> Option<MediaType> {
    match info.content_type {
        Some(ct) => media_type_spec(ct@),
        None => None,
    }
}

/// Check if an attachment is a supported media type.
pub fn is_supported_attachment(attachment: &AttachmentInfo) -> (r: bool)
    ensures
        r == (attachment_media_type(*attachment) is Some),
{
    match &attachment.content_type {
        Some(ct) => MediaType::from_content_type(ct.as_str()).is_some(),
        None => false,
    }
}

/// Check if any attachment holds supported media.
pub fn has_supported_media(attachments: &Vec<AttachmentInfo>) -> (r: bool)
    ensures
        r == exists|i: int|
            0 <= i < attachments@.len() && attachment_media_type(#[trigger] attachments@[i])
                is Some,
{
    let n = attachments.len();
    for i in 0..n
        invariant
            n == attachments@.len(),
            forall|j: int|
                0 <= j < i ==> attachment_media_type(#[trigger] attachments@[j]) is None,
    {
        if is_supported_attachment(&attachments[i]) {
            return true;
        }
    }
    false
}

/// Whether processing an attachment yields a content part at all: images,
/// videos and documents always do, audio only when its bytes were fetched.
pub open spec fn attachment_yields(a: AttachmentData) -> bool {
    match attachment_media_type(a.info) {
        None => false,
        Some(MediaType::Audio) => a.audio is Some,
        Some(_) => true,
    }
}

/// How one attachment turns into a content part: images and videos become
/// URL references, documents a file reference carrying the original URL,
/// audio an inline base64 payload with its format derived from the MIME
/// subtype; unsupported attachments, and audio whose fetch failed, yield
/// nothing.
pub open spec fn process_attachment_rel(a: AttachmentData, r: Option<ContentPart>) -> bool {
    match attachment_media_type(a.info) {
        None => r is None,
        Some(MediaType::Image) => r == Some(
            ContentPart::ImageUrl { image_url: ImageUrl { url: a.info.url } },
        ),
        Some(MediaType::Video) => r == Some(
            ContentPart::VideoUrl { video_url: VideoUrl { url: a.info.url } },
        ),
        Some(MediaType::Pdf) => r == Some(
            ContentPart::File { file: File { filename: a.info.filename, file_data: a.info.url } },
        ),
        Some(MediaType::Audio) => match a.audio {
            None => r is None,
            Some(bytes) => r matches Some(ContentPart::InputAudio { input_audio }) && input_audio.data@
                == b64_of(bytes@) && input_audio.format@ == audio_format_spec(
                a.info.content_type->0@,
            ),
        },
    }
}

/// Process a single attachment into a content part.
pub fn process_attachment(a: &AttachmentData) -> (r: Option<ContentPart>)
    ensures
        process_attachment_rel(*a, r),
{
    let content_type = match &a.info.content_type {
        Some(ct) => ct,
        None => {
            return None;
        },
    };
    let media_type = match MediaType::from_content_type(content_type.as_str()) {
        Some(mt) => mt,
        None => {
            return None;
        },
    };

    match media_type {
        MediaType::Image => Some(
            ContentPart::ImageUrl { image_url: ImageUrl { url: a.info.url.clone() } },
        ),
        MediaType::Video => Some(
            ContentPart::VideoUrl { video_url: VideoUrl { url: a.info.url.clone() } },
        ),
        MediaType::Audio => {
            match &a.audio {
                Some(bytes) => {
                    let audio_base64 = base64_encode(bytes);
                    let format = AudioFormat::from_mime_type(content_type.as_str());
                    Some(
                        ContentPart::InputAudio {
                            input_audio: AudioData {
                                data: audio_base64,
                                format: format.into_string(),
                            },
                        },
                    )
                },
                None => None,
            }
        },
        MediaType::Pdf => Some(
            ContentPart::File {
                file: File {
                    filename: a.info.filename.clone(),
                    file_data: a.info.url.clone(),
                },
            },
        ),
    }
}

/// How a whole attachment list turns into content parts, in order.
pub open spec fn process_attachments_rel(atts: Seq<AttachmentData>, parts: Seq<ContentPart>) -> bool
    decreases atts.len(),
{
    if atts.len() == 0 {
        parts.len() == 0
    } else {
        let a = atts.last();
        if attachment_yields(a) {
            &&& parts.len() > 0
            &&& process_attachment_rel(a, Some(parts.last()))
            &&& process_attachments_rel(atts.drop_last(), parts.drop_last())
        } else {
            &&& process_attachment_rel(a, None)
            &&& process_attachments_rel(atts.drop_last(), parts)
        }
    }
}

/// Process all attachments, keeping the parts of those that yield one.
pub fn process_attachments(attachments: &Vec<AttachmentData>) -> (r: Vec<ContentPart>)
    ensures
        process_attachments_rel(attachments@, r@),
{
    let n = attachments.len();
    let mut parts: Vec<ContentPart> = Vec::new();
    for i in 0..n
        invariant
            n == attachments@.len(),
            process_attachments_rel(attachments@.subrange(0, i as int), parts@),
    {
        let ghost old_parts = parts@;
        let part = process_attachment(&attachments[i]);
        match part {
            Some(p) => {
                parts.push(p);
            },
            None => {},
        }
        proof {
            let pre = attachments@.subrange(0, i + 1);
            assert(pre.drop_last() =~= attachments@.subrange(0, i as int));
            assert(pre.last() == attachments@[i as int]);
            if attachment_yields(attachments@[i as int]) {
                assert(parts@.drop_last() =~= old_parts);
            }
        }
    }
    proof {
        assert(attachments@.subrange(0, n as int) =~= attachments@);
    }
    parts
}

/// Whether some attachment in the list classifies as supported media.
pub open spec fn any_supported(atts: Seq<AttachmentData>) -> bool {
    exists|i: int| 0 <= i < atts.len() && attachment_media_type(#[trigger] atts[i].info) is Some
}

/// How one inbound message's text and attachments assemble into content:
/// with no supported attachment the raw text stands alone; otherwise a
/// multi-part body carries the text first (only when non-empty), then one
/// part per supported attachment in their original order.
pub open spec fn assembled_content_rel(
    text: Seq<char>,
    atts: Seq<AttachmentData>,
    r: MessageContent,
) -> bool {
    if !any_supported(atts) {
        r matches MessageContent::Text(t) && t@ == text
    } else {
        r matches MessageContent::MultiPart(parts) && {
            if text.len() > 0 {
                &&& parts@.len() >= 1
                &&& parts@[0] matches ContentPart::Text { text: t } && t@ == text
                &&& process_attachments_rel(atts, parts@.skip(1))
            } else {
                process_attachments_rel(atts, parts@)
            }
        }
    }
}

/// Assembles one message's text and attachments into its content unit.
pub fn message_to_content(text: &String, attachments: &Vec<AttachmentData>) -> (r: MessageContent)
    ensures
        assembled_content_rel(text@, attachments@, r),
{
    let mut supported = false;
    let n = attachments.len();
    for i in 0..n
        invariant
            n == attachments@.len(),
            supported == exists|j: int|
                0 <= j < i && attachment_media_type(#[trigger] attachments@[j].info) is Some,
    {
        if is_supported_attachment(&attachments[i].info) {
            supported = true;
        }
    }

    if !supported {
        return MessageContent::Text(text.clone());
    }

    let mut parts: Vec<ContentPart> = Vec::new();
    let has_text = !text.as_str().is_empty();
    if has_text {
        parts.push(ContentPart::Text { text: text.clone() });
    }
    let ghost head = parts@;
    let mut media = process_attachments(attachments);
    let ghost media_view = media@;
    parts.append(&mut media);
    proof {
        if text@.len() > 0 {
            assert(parts@[0] == head[0]);
            assert(parts@.skip(1) =~= media_view);
        } else {
            assert(parts@ =~= media_view);
        }
    }
    MessageContent::MultiPart(parts)
}

/// Wraps one message's assembled content with its conversation role.
pub fn message_to_openrouter_message(
    text: &String,
    attachments: &Vec<AttachmentData>,
    role: MessageRole,
) -> (m: Message)
    ensures
        m.role == role,
        m.content matches Some(c) && assembled_content_rel(text@, attachments@, c),
        m.tool_calls is None,
        m.tool_call_id is None,
{
    let content = message_to_content(text, attachments);
    Message { role, content: Some(content), tool_calls: None, tool_call_id: None }
}

} // verus!
