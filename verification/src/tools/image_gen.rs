//! Image generation: validating the requested aspect ratio and size,
//! building the multimodal request content, and decoding the generated
//! image out of the response's data URL.  The HTTP call itself is the
//! caller's business.

use vstd::prelude::*;

verus! {

use vstd::string::StrSliceExecFns;
use vstd::string::StringExecFns;
use vstd::utf8::encode_utf8;

use crate::error::BotError;
use crate::openrouter::ContentPart;
use crate::openrouter::ImageUrl;
use crate::openrouter::MessageContent;
use crate::strutil::bytes_eq_ignore_ascii_case;
use crate::strutil::eq_ignore_ascii_case_spec;
use crate::strutil::str_eq;
use crate::strutil::u64_to_string;
use crate::strutil::dec_str;
use crate::tools::executor::ToolOutput;

/// Model for image generation.
pub const IMAGE_GEN_MODEL: &'static str = "google/gemini-2.5-flash-image";

/// Image configuration for the generation request.
pub struct ImageConfig {
    pub aspect_ratio: Option<String>,
    pub image_size: Option<String>,
}

/// Whether a string names a supported aspect ratio (the comparison ignores
/// ASCII case, as the ratios hold no letters the fold changes nothing).
pub open spec fn is_aspect_ratio(s: Seq<u8>) -> bool {
    ||| eq_ignore_ascii_case_spec(s, encode_utf8("1:1"@))
    ||| eq_ignore_ascii_case_spec(s, encode_utf8("16:9"@))
    ||| eq_ignore_ascii_case_spec(s, encode_utf8("9:16"@))
    ||| eq_ignore_ascii_case_spec(s, encode_utf8("2:3"@))
    ||| eq_ignore_ascii_case_spec(s, encode_utf8("3:2"@))
    ||| eq_ignore_ascii_case_spec(s, encode_utf8("3:4"@))
    ||| eq_ignore_ascii_case_spec(s, encode_utf8("4:3"@))
    ||| eq_ignore_ascii_case_spec(s, encode_utf8("4:5"@))
    ||| eq_ignore_ascii_case_spec(s, encode_utf8("5:4"@))
    ||| eq_ignore_ascii_case_spec(s, encode_utf8("21:9"@))
}

/// Whether a string names a supported image size, up to ASCII case.
pub open spec fn is_image_size(s: Seq<u8>) -> bool {
    ||| eq_ignore_ascii_case_spec(s, encode_utf8("1K"@))
    ||| eq_ignore_ascii_case_spec(s, encode_utf8("2K"@))
    ||| eq_ignore_ascii_case_spec(s, encode_utf8("4K"@))
}

/// The canonical spelling of a recognized aspect ratio.
pub open spec fn canonical_aspect(s: Seq<u8>) -> Seq<char> {
    if eq_ignore_ascii_case_spec(s, encode_utf8("1:1"@)) {
        "1:1"@
    } else if eq_ignore_ascii_case_spec(s, encode_utf8("16:9"@)) {
        "16:9"@
    } else if eq_ignore_ascii_case_spec(s, encode_utf8("9:16"@)) {
        "9:16"@
    } else if eq_ignore_ascii_case_spec(s, encode_utf8("2:3"@)) {
        "2:3"@
    } else if eq_ignore_ascii_case_spec(s, encode_utf8("3:2"@)) {
        "3:2"@
    } else if eq_ignore_ascii_case_spec(s, encode_utf8("3:4"@)) {
        "3:4"@
    } else if eq_ignore_ascii_case_spec(s, encode_utf8("4:3"@)) {
        "4:3"@
    } else if eq_ignore_ascii_case_spec(s, encode_utf8("4:5"@)) {
        "4:5"@
    } else if eq_ignore_ascii_case_spec(s, encode_utf8("5:4"@)) {
        "5:4"@
    } else {
        "21:9"@
    }
}

/// The canonical spelling of a recognized image size.
pub open spec fn canonical_size(s: Seq<u8>) -> Seq<char> {
    if eq_ignore_ascii_case_spec(s, encode_utf8("1K"@)) {
        "1K"@
    } else if eq_ignore_ascii_case_spec(s, encode_utf8("2K"@)) {
        "2K"@
    } else {
        "4K"@
    }
}

fn ascii_matches(s: &str, canonical: &str) -> (r: bool)
    ensures
        r == eq_ignore_ascii_case_spec(encode_utf8(s@), encode_utf8(canonical@)),
{
    let a = s.as_bytes_vec();
    let b = canonical.as_bytes_vec();
    bytes_eq_ignore_ascii_case(&a, &b)
}

/// Recognizes an aspect ratio, handing back its canonical spelling.
fn parse_aspect_ratio(raw: &str) -> (r: Option<String>)
    ensures
        r is Some <==> is_aspect_ratio(encode_utf8(raw@)),
        r matches Some(c) ==> c@ == canonical_aspect(encode_utf8(raw@)),
{
    if ascii_matches(raw, "1:1") {
        Some(String::from_str("1:1"))
    } else if ascii_matches(raw, "16:9") {
        Some(String::from_str("16:9"))
    } else if ascii_matches(raw, "9:16") {
        Some(String::from_str("9:16"))
    } else if ascii_matches(raw, "2:3") {
        Some(String::from_str("2:3"))
    } else if ascii_matches(raw, "3:2") {
        Some(String::from_str("3:2"))
    } else if ascii_matches(raw, "3:4") {
        Some(String::from_str("3:4"))
    } else if ascii_matches(raw, "4:3") {
        Some(String::from_str("4:3"))
    } else if ascii_matches(raw, "4:5") {
        Some(String::from_str("4:5"))
    } else if ascii_matches(raw, "5:4") {
        Some(String::from_str("5:4"))
    } else if ascii_matches(raw, "21:9") {
        Some(String::from_str("21:9"))
    } else {
        None
    }
}

/// Recognizes an image size, handing back its canonical spelling.
fn parse_image_size(raw: &str) -> (r: Option<String>)
    ensures
        r is Some <==> is_image_size(encode_utf8(raw@)),
        r matches Some(c) ==> c@ == canonical_size(encode_utf8(raw@)),
{
    if ascii_matches(raw, "1K") {
        Some(String::from_str("1K"))
    } else if ascii_matches(raw, "2K") {
        Some(String::from_str("2K"))
    } else if ascii_matches(raw, "4K") {
        Some(String::from_str("4K"))
    } else {
        None
    }
}

/// Validates the requested aspect ratio and size: nothing requested means
/// no configuration, an unsupported value is refused by name, and accepted
/// values come back in canonical spelling.
pub fn build_image_config(aspect_ratio: Option<String>, size: Option<String>) -> (r: Result<
    Option<ImageConfig>,
    BotError,
>)
    ensures
        aspect_ratio is None && size is None ==> (r matches Ok(c) && c is None),
        (match aspect_ratio {
            Some(a) => !is_aspect_ratio(encode_utf8(a@)),
            None => false,
        }) ==> (r matches Err(e) && e matches BotError::ToolExecution(s) && s@
            == "Invalid aspect ratio '"@ + aspect_ratio->0@
            + "'. Supported: 1:1, 16:9, 9:16, 2:3, 3:2, 3:4, 4:3, 4:5, 5:4, 21:9"@),
        ((match aspect_ratio {
            Some(a) => is_aspect_ratio(encode_utf8(a@)),
            None => true,
        }) && (match size {
            Some(z) => !is_image_size(encode_utf8(z@)),
            None => false,
        })) ==> (r matches Err(e) && e matches BotError::ToolExecution(s) && s@
            == "Invalid image size '"@ + size->0@ + "'. Supported: 1K, 2K, 4K"@),
        (!(aspect_ratio is None && size is None) && (match aspect_ratio {
            Some(a) => is_aspect_ratio(encode_utf8(a@)),
            None => true,
        }) && (match size {
            Some(z) => is_image_size(encode_utf8(z@)),
            None => true,
        })) ==> (r matches Ok(c) && c matches Some(cfg) && (match aspect_ratio {
            Some(a) => cfg.aspect_ratio matches Some(ca) && ca@ == canonical_aspect(
                encode_utf8(a@),
            ),
            None => cfg.aspect_ratio is None,
        }) && (match size {
            Some(z) => cfg.image_size matches Some(cz) && cz@ == canonical_size(encode_utf8(z@)),
            None => cfg.image_size is None,
        })),
{
    if aspect_ratio.is_none() && size.is_none() {
        return Ok(None);
    }

    let ar = match aspect_ratio {
        Some(raw) => {
            match parse_aspect_ratio(raw.as_str()) {
                Some(canonical) => Some(canonical),
                None => {
                    let mut s = String::from_str("Invalid aspect ratio '");
                    s.append(raw.as_str());
                    s.append("'. Supported: 1:1, 16:9, 9:16, 2:3, 3:2, 3:4, 4:3, 4:5, 5:4, 21:9");
                    proof {
                        assert(s@ =~= "Invalid aspect ratio '"@ + raw@
                            + "'. Supported: 1:1, 16:9, 9:16, 2:3, 3:2, 3:4, 4:3, 4:5, 5:4, 21:9"@);
                    }
                    return Err(BotError::ToolExecution(s));
                },
            }
        },
        None => None,
    };

    let sz = match size {
        Some(raw) => {
            match parse_image_size(raw.as_str()) {
                Some(canonical) => Some(canonical),
                None => {
                    let mut s = String::from_str("Invalid image size '");
                    s.append(raw.as_str());
                    s.append("'. Supported: 1K, 2K, 4K");
                    proof {
                        assert(s@ =~= "Invalid image size '"@ + raw@ + "'. Supported: 1K, 2K, 4K"@);
                    }
                    return Err(BotError::ToolExecution(s));
                },
            }
        },
        None => None,
    };

    Ok(Some(ImageConfig { aspect_ratio: ar, image_size: sz }))
}

/// The request content for the generation call: just the prompt when no
/// context images are in play; otherwise the context images first, in
/// order, with the prompt as the closing text part.
pub fn build_message_content(prompt: &str, recent_images: &Vec<String>) -> (r: MessageContent)
    ensures
        recent_images@.len() == 0 ==> (r matches MessageContent::Text(t) && t@ == prompt@),
        recent_images@.len() > 0 ==> (r matches MessageContent::MultiPart(parts) && {
            &&& parts@.len() == recent_images@.len() + 1
            &&& forall|i: int|
                0 <= i < recent_images@.len() ==> ((#[trigger] parts@[i]) matches
                    ContentPart::ImageUrl { image_url } && image_url.url@ == recent_images@[i]@)
            &&& parts@.last() matches ContentPart::Text { text } && text@ == prompt@
        }),
{
    if recent_images.len() == 0 {
        return MessageContent::Text(prompt.to_owned());
    }
    let mut parts: Vec<ContentPart> = Vec::new();
    let n = recent_images.len();
    for i in 0..n
        invariant
            n == recent_images@.len(),
            parts@.len() == i,
            forall|j: int|
                0 <= j < i ==> ((#[trigger] parts@[j]) matches ContentPart::ImageUrl { image_url }
                    && image_url.url@ == recent_images@[j]@),
    {
        parts.push(
            ContentPart::ImageUrl { image_url: ImageUrl { url: recent_images[i].clone() } },
        );
    }
    parts.push(ContentPart::Text { text: prompt.to_owned() });
    MessageContent::MultiPart(parts)
}

/// One choice message of the generation response, as plain data: optional
/// text content and the data URLs of any generated images.
pub struct ImageResponseMessage {
    pub content: Option<String>,
    pub images: Vec<String>,
}

/// At most this many characters of stray model text are echoed back.
pub open spec fn clipped(s: Seq<char>) -> Seq<char> {
    if s.len() <= 200 {
        s
    } else {
        s.subrange(0, 200)
    }
}

/// Picks the generated image's data URL out of the response choices: no
/// choice at all, text instead of an image, and an empty image list are
/// each refused with a response error naming what happened.
pub fn extract_image_from_response(choices: &Vec<ImageResponseMessage>) -> (r: Result<
    String,
    BotError,
>)
    ensures
        choices@.len() == 0 ==> (r matches Err(e) && e matches BotError::OpenRouterResponse(s)
            && s@ == "No response from image model"@),
        choices@.len() > 0 && choices@[0].images@.len() > 0 ==> (r matches Ok(url) && url@
            == choices@[0].images@[0]@),
        choices@.len() > 0 && choices@[0].images@.len() == 0 ==> (r matches Err(e) && match choices@[0].content {
            Some(text) => e matches BotError::OpenRouterResponse(s) && s@
                == "Model returned text instead of image: "@ + clipped(text@),
            None => e matches BotError::OpenRouterResponse(s) && s@ == "No image generated"@,
        }),
{
    if choices.len() == 0 {
        return Err(BotError::OpenRouterResponse(String::from_str("No response from image model")));
    }
    let first = &choices[0];
    if first.images.len() == 0 {
        match &first.content {
            Some(text) => {
                let tlen = text.as_str().unicode_len();
                let cut = if tlen <= 200 {
                    text.as_str()
                } else {
                    text.as_str().substring_char(0, 200)
                };
                let mut s = String::from_str("Model returned text instead of image: ");
                s.append(cut);
                proof {
                    assert(s@ =~= "Model returned text instead of image: "@ + clipped(text@));
                }
                return Err(BotError::OpenRouterResponse(s));
            },
            None => {
                return Err(BotError::OpenRouterResponse(String::from_str("No image generated")));
            },
        }
    }
    Ok(first.images[0].clone())
}

/// What the data-URL parser reads out of a URL: the decoded body bytes and
/// the MIME type and subtype, if the URL is well formed; it depends on the
/// URL alone.
pub uninterp spec fn data_url_parts(s: Seq<char>) -> Option<(Seq<u8>, Seq<char>, Seq<char>)>;

/// Relies on data_url's DataUrl::process and decode_to_vec, and the parsed
/// mime type's fields.
#[verifier::external_body]
fn decode_data_url(url: &str) -> (r: Option<(Vec<u8>, String, String)>)
    ensures
        r is Some <==> data_url_parts(url@) is Some,
        r matches Some(p) ==> data_url_parts(url@) matches Some(q) && p.0@ == q.0 && p.1@ == q.1
            && p.2@ == q.2,
{
    match data_url::DataUrl::process(url) {
        Ok(d) => match d.decode_to_vec() {
            Ok((body, _fragment)) => {
                let m = d.mime_type();
                Some((body, m.type_.clone(), m.subtype.clone()))
            },
            Err(_) => None,
        },
        Err(_) => None,
    }
}

/// The file extension for a decoded image: the MIME subtype for image
/// types, with PNG as the fallback for anything else.
pub open spec fn data_url_ext(mime_type: Seq<char>, subtype: Seq<char>) -> Seq<char> {
    if mime_type == "image"@ {
        subtype
    } else {
        "png"@
    }
}

/// Parse a data URL and extract the image bytes and the file extension.
pub fn parse_data_url(url: &str) -> (r: Result<(Vec<u8>, String), BotError>)
    ensures
        r matches Ok(p) ==> data_url_parts(url@) matches Some(q) && p.0@ == q.0 && p.1@
            == data_url_ext(q.1, q.2),
        r is Err ==> data_url_parts(url@) is None,
        r matches Err(e) ==> e matches BotError::DataUrl(s) && s@ == "invalid data URL"@,
{
    match decode_data_url(url) {
        Some((body, mime_type, subtype)) => {
            let ext = if str_eq(mime_type.as_str(), "image") {
                subtype
            } else {
                String::from_str("png")
            };
            Ok((body, ext))
        },
        None => Err(BotError::DataUrl(String::from_str("invalid data URL"))),
    }
}

/// Decodes a generated image from its data URL into a tool output: the
/// bytes under a timestamped filename, and a summary line for the model.
pub fn image_output_from_data_url(url: &str, timestamp: &str) -> (r: Result<ToolOutput, BotError>)
    ensures
        r matches Ok(out) ==> data_url_parts(url@) matches Some(q) && {
            &&& out.image matches Some(img) && img.data@ == q.0 && img.filename@ == "generated_"@
                + timestamp@ + "."@ + data_url_ext(q.1, q.2)
            &&& out.text@ == "Image generated successfully ("@ + dec_str(q.0.len()) + " bytes, "@
                + data_url_ext(q.1, q.2) + " format)"@
            &&& out.audio is None
        },
        r is Err ==> data_url_parts(url@) is None,
{
    let (image_bytes, extension) = match parse_data_url(url) {
        Ok(p) => p,
        Err(e) => {
            return Err(e);
        },
    };

    let mut filename = String::from_str("generated_");
    filename.append(timestamp);
    filename.append(".");
    filename.append(extension.as_str());

    let mut text = String::from_str("Image generated successfully (");
    text.append(u64_to_string(image_bytes.len() as u64).as_str());
    text.append(" bytes, ");
    text.append(extension.as_str());
    text.append(" format)");

    proof {
        assert(filename@ =~= "generated_"@ + timestamp@ + "."@ + extension@);
        assert(text@ =~= "Image generated successfully ("@ + dec_str(image_bytes@.len()) + " bytes, "@
            + extension@ + " format)"@);
    }
    Ok(ToolOutput::with_image(text, image_bytes, filename))
}

} // verus!
