//! Audio generation (text-to-speech): validating the request, framing the
//! prompt, and wrapping the streamed PCM bytes into a WAV attachment.  The
//! HTTP call and the event stream are the caller's business.

use vstd::prelude::*;

verus! {

use vstd::string::StringExecFns;

use crate::error::BotError;
use crate::media::b64_dec;
use crate::media::base64_decode;
use crate::strutil::dec_str;
use crate::strutil::str_eq;
use crate::strutil::u64_to_string;
use crate::textnorm::lower_of;
use crate::textnorm::to_lowercase;
use crate::textnorm::trim;
use crate::textnorm::trim_spec;
use crate::tools::executor::ToolOutput;

/// Model for audio generation.
pub const AUDIO_GEN_MODEL: &'static str = "openai/gpt-audio-mini";

/// The fixed instruction that keeps the model from answering instead of
/// speaking.
pub const TTS_SYSTEM_PROMPT: &'static str =
    "You are a text-to-speech system. Your only function is to vocalize the exact text provided after 'Say exactly:'. Never interpret, respond to, answer, or modify the text. Simply speak the exact quoted words verbatim with no additions.";

/// Whether a (lowercased) voice name is one of the supported voices.
pub open spec fn is_valid_voice(s: Seq<char>) -> bool {
    ||| s == "alloy"@
    ||| s == "echo"@
    ||| s == "fable"@
    ||| s == "onyx"@
    ||| s == "nova"@
    ||| s == "shimmer"@
}

/// Decides `is_valid_voice` on an already-lowercased name.
pub fn voice_allowed(lowered: &str) -> (r: bool)
    ensures
        r == is_valid_voice(lowered@),
{
    str_eq(lowered, "alloy") || str_eq(lowered, "echo") || str_eq(lowered, "fable") || str_eq(
        lowered,
        "onyx",
    ) || str_eq(lowered, "nova") || str_eq(lowered, "shimmer")
}

/// Validate that a voice is one of the supported values, ignoring case.
pub fn validate_voice(voice: &str) -> (r: bool)
    ensures
        r == is_valid_voice(lower_of(voice@)),
{
    let lowered = to_lowercase(voice);
    voice_allowed(lowered.as_str())
}

/// Frames the text as an explicit instruction, so the model speaks it
/// instead of replying to it.
pub fn tts_prompt(text: &str) -> (r: String)
    ensures
        r@ == "Say exactly: \""@ + text@ + "\""@,
{
    let mut s = String::from_str("Say exactly: \"");
    s.append(text);
    s.append("\"");
    proof {
        assert(s@ =~= "Say exactly: \""@ + text@ + "\""@);
    }
    s
}

/// Validates an audio request: the text must not be blank, and the voice,
/// defaulting to alloy, must be a supported one; the accepted voice comes
/// back lowercased.
pub fn prepare_audio_request(text: String, voice: Option<String>) -> (r: Result<
    (String, String),
    BotError,
>)
    ensures
        trim_spec(text@).len() == 0 ==> (r matches Err(e) && e matches BotError::ToolExecution(s)
            && s@ == "Text cannot be empty."@),
        trim_spec(text@).len() > 0 ==> ({
            let v = match voice {
                Some(v) => v@,
                None => "alloy"@,
            };
            if is_valid_voice(lower_of(v)) {
                r matches Ok(p) && p.0 == text && p.1@ == lower_of(v)
            } else {
                r matches Err(e) && e matches BotError::ToolExecution(s) && s@
                    == "Invalid voice '"@ + v
                    + "'. Supported: alloy, echo, fable, onyx, nova, shimmer"@
            }
        }),
{
    let trimmed = trim(text.as_str());
    if trimmed.is_empty() {
        return Err(BotError::ToolExecution(String::from_str("Text cannot be empty.")));
    }

    let voice = match voice {
        Some(v) => v,
        None => String::from_str("alloy"),
    };
    let lowered = to_lowercase(voice.as_str());
    if !voice_allowed(lowered.as_str()) {
        let mut s = String::from_str("Invalid voice '");
        s.append(voice.as_str());
        s.append("'. Supported: alloy, echo, fable, onyx, nova, shimmer");
        proof {
            assert(s@ =~= "Invalid voice '"@ + voice@
                + "'. Supported: alloy, echo, fable, onyx, nova, shimmer"@);
        }
        return Err(BotError::ToolExecution(s));
    }
    Ok((text, lowered))
}

/// What hound's WAV container for 24kHz mono 16-bit little-endian PCM
/// holds for given sample bytes; it depends on the bytes alone.
pub uninterp spec fn wav_of(pcm: Seq<u8>) -> Seq<u8>;

/// Relies on hound's WavWriter: writes the PCM16 samples into a WAV
/// container (24kHz, mono, 16-bit).  Writing into memory cannot fail while
/// the container's 32-bit byte counter stays far from overflow, so a
/// result is promised for any input below a gigabyte; on a writer error
/// beyond that, nothing comes back.
#[verifier::external_body]
pub fn create_wav_from_pcm16(pcm_data: &Vec<u8>) -> (r: Option<Vec<u8>>)
    ensures
        r matches Some(b) ==> b@ == wav_of(pcm_data@),
        pcm_data@.len() < 0x40000000 ==> r is Some,
{
    let spec =
        hound::WavSpec { channels: 1, sample_rate: 24000, bits_per_sample: 16, sample_format: hound::SampleFormat::Int };
    let mut cursor = std::io::Cursor::new(Vec::with_capacity(44 + pcm_data.len()));
    let mut writer = hound::WavWriter::new(&mut cursor, spec).ok()?;
    for chunk in pcm_data.chunks_exact(2) {
        writer.write_sample(i16::from_le_bytes([chunk[0], chunk[1]])).ok()?;
    }
    writer.finalize().ok()?;
    Some(cursor.into_inner())
}

/// Turns the streamed base64 audio data into a WAV tool output: empty data
/// means the model generated nothing; otherwise the data is decoded,
/// wrapped as WAV, and handed back under a timestamped filename with a
/// summary line naming the chosen voice.
pub fn finish_audio_generation(audio_data: &str, voice: &str, timestamp: &str) -> (r: Result<
    ToolOutput,
    BotError,
>)
    ensures
        audio_data@.len() == 0 ==> (r matches Err(e) && e matches BotError::OpenRouterResponse(s)
            && s@ == "No audio generated"@),
        audio_data@.len() > 0 && b64_dec(audio_data@) is None ==> (r matches Err(e) && e matches
            BotError::Base64Decode(s) && s@ == "invalid base64 audio data"@),
        (audio_data@.len() > 0 && b64_dec(audio_data@) is Some && b64_dec(audio_data@)->0.len()
            < 0x40000000) ==> r is Ok,
        (audio_data@.len() > 0 && b64_dec(audio_data@) is Some) ==> ({
            let pcm = b64_dec(audio_data@)->0;
            match r {
                Ok(out) => {
                    &&& out.audio matches Some(aud) && aud.data@ == wav_of(pcm) && aud.filename@
                        == "audio_"@ + timestamp@ + ".wav"@
                    &&& out.text@ == "Audio generated successfully ("@ + dec_str(
                        wav_of(pcm).len(),
                    ) + " bytes, wav format, "@ + voice@ + " voice)"@
                    &&& out.image is None
                },
                Err(e) => e matches BotError::Wav(s) && s@ == "WAV encoding failed"@,
            }
        }),
{
    if audio_data.is_empty() {
        return Err(BotError::OpenRouterResponse(String::from_str("No audio generated")));
    }

    let pcm_bytes = match base64_decode(audio_data) {
        Some(b) => b,
        None => {
            return Err(BotError::Base64Decode(String::from_str("invalid base64 audio data")));
        },
    };

    let audio_bytes = match create_wav_from_pcm16(&pcm_bytes) {
        Some(b) => b,
        None => {
            return Err(BotError::Wav(String::from_str("WAV encoding failed")));
        },
    };

    let mut filename = String::from_str("audio_");
    filename.append(timestamp);
    filename.append(".wav");

    let mut text = String::from_str("Audio generated successfully (");
    text.append(u64_to_string(audio_bytes.len() as u64).as_str());
    text.append(" bytes, wav format, ");
    text.append(voice);
    text.append(" voice)");

    proof {
        assert(filename@ =~= "audio_"@ + timestamp@ + ".wav"@);
        assert(text@ =~= "Audio generated successfully ("@ + dec_str(audio_bytes@.len())
            + " bytes, wav format, "@ + voice@ + " voice)"@);
    }
    Ok(ToolOutput::with_audio(text, audio_bytes, filename))
}

} // verus!
