//! Common types: conversation roles, media classification, audio formats.

use vstd::prelude::*;

verus! {

use vstd::string::StringExecFns;

use crate::strutil::str_eq;

/// Role of a message in the conversation.
#[derive(Debug, Clone, Copy, PartialEq, Eq, Structural)]
pub enum MessageRole {
    /// Message from the human user
    User,
    /// Message from the AI assistant
    Assistant,
    /// System prompt or instructions
    System,
    /// Result from a tool execution
    Tool,
}

/// Supported media types for attachments.
#[derive(Debug, Clone, Copy, PartialEq, Eq, Structural)]
pub enum MediaType {
    /// Image files (PNG, JPEG, GIF, WebP)
    Image,
    /// Video files (MP4, WebM)
    Video,
    /// Audio files (MP3, WAV, OGG, FLAC)
    Audio,
    /// PDF documents
    Pdf,
}

/// The top-level type and subtype that the MIME parser reads out of a
/// content-type string, if it is well formed; parsing depends on the string
/// alone.
pub uninterp spec fn mime_parts(s: Seq<char>) -> Option<(Seq<char>, Seq<char>)>;

/// Relies on the mime crate's parser (str::parse::<Mime>) and its type_ and
/// subtype accessors.
#[verifier::external_body]
pub fn parse_mime_parts(content_type: &str) -> (r: Option<(String, String)>)
    ensures
        r is Some <==> mime_parts(content_type@) is Some,
        r matches Some(p) ==> mime_parts(content_type@) matches Some(q) && p.0@ == q.0 && p.1@
            == q.1,
{
    match content_type.parse::<mime::Mime>() {
        Ok(m) => Some((m.type_().as_str().to_string(), m.subtype().as_str().to_string())),
        Err(_) => None,
    }
}

/// How a (type, subtype) pair classifies: images, videos and audio by their
/// top-level type, PDFs by the application subtype, everything else
/// unsupported.
pub open spec fn media_type_of_parts(t: Seq<char>, sub: Seq<char>) -> Option<MediaType> {
    if t == "image"@ {
        Some(MediaType::Image)
    } else if t == "video"@ {
        Some(MediaType::Video)
    } else if t == "audio"@ {
        Some(MediaType::Audio)
    } else if t == "application"@ && sub == "pdf"@ {
        Some(MediaType::Pdf)
    } else {
        None
    }
}

/// How a whole content-type string classifies.
pub open spec fn media_type_spec(content_type: Seq<char>) -> Option<MediaType> {
    match mime_parts(content_type) {
        None => None,
        Some(p) => media_type_of_parts(p.0, p.1),
    }
}

/// Classifies an already-parsed (type, subtype) pair.
pub fn media_type_from_parts(t: &str, sub: &str) -> (r: Option<MediaType>)
    ensures
        r == media_type_of_parts(t@, sub@),
{
    if str_eq(t, "image") {
        Some(MediaType::Image)
    } else if str_eq(t, "video") {
        Some(MediaType::Video)
    } else if str_eq(t, "audio") {
        Some(MediaType::Audio)
    } else if str_eq(t, "application") && str_eq(sub, "pdf") {
        Some(MediaType::Pdf)
    } else {
        None
    }
}

impl MediaType {
    /// Determine media type from a MIME content type string.
    pub fn from_content_type(content_type: &str) -> (r: Option<MediaType>)
        ensures
            r == media_type_spec(content_type@),
    {
        match parse_mime_parts(content_type) {
            None => None,
            Some((t, sub)) => media_type_from_parts(t.as_str(), sub.as_str()),
        }
    }
}

/// The preferred file extension that mime_guess knows for a MIME type
/// string, if the string parses and an extension is known; it depends on
/// the string alone.
pub uninterp spec fn mime_ext(s: Seq<char>) -> Option<Seq<char>>;

/// Relies on the mime crate's parser and mime_guess::get_mime_extensions:
/// the first known extension for the parsed type.  The extension table
/// holds no empty strings.
#[verifier::external_body]
fn preferred_mime_extension(mime_type: &str) -> (r: Option<String>)
    ensures
        r is Some <==> mime_ext(mime_type@) is Some,
        r matches Some(e) ==> mime_ext(mime_type@) matches Some(x) && e@ == x && x.len() > 0,
{
    mime_type
        .parse::<mime::Mime>()
        .ok()
        .and_then(|m| mime_guess::get_mime_extensions(&m).and_then(|exts| exts.first().copied()))
        .map(|ext| ext.to_string())
}

/// The format string for an audio MIME type: its preferred extension, or
/// `wav` when none is known.
pub open spec fn audio_format_spec(mime_type: Seq<char>) -> Seq<char> {
    match mime_ext(mime_type) {
        Some(e) => e,
        None => "wav"@,
    }
}

/// Audio format label for the completion API.
#[derive(Debug, Clone)]
pub struct AudioFormat(String);

impl View for AudioFormat {
    type V = Seq<char>;

    closed spec fn view(&self) -> Seq<char> {
        self.0@
    }
}

impl AudioFormat {
    /// Convert a MIME type to an audio format string, such as `mp3` for
    /// `audio/mpeg`; unknown types fall back to `wav`.
    pub fn from_mime_type(mime_type: &str) -> (r: Self)
        ensures
            r@ == audio_format_spec(mime_type@),
            r@.len() > 0,
    {
        match preferred_mime_extension(mime_type) {
            Some(e) => AudioFormat(e),
            None => {
                proof {
                    reveal_strlit("wav");
                }
                AudioFormat(String::from_str("wav"))
            },
        }
    }

    /// Returns the format string.
    pub fn as_str(&self) -> (r: &str)
        ensures
            r@ == self@,
    {
        self.0.as_str()
    }

    /// Gives up the format string.
    pub fn into_string(self) -> (r: String)
        ensures
            r@ == self@,
    {
        self.0
    }
}

} // verus!
