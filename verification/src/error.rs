//! Error taxonomy, with the technical description of each failure and the
//! short, user-safe message that may be sent back instead.

use vstd::prelude::*;

verus! {

use vstd::string::StringExecFns;

use crate::strutil::dec_str;
use crate::strutil::u64_to_string;

/// Everything that can go wrong while handling a message.  Failures coming
/// from outside services carry their description as plain text.
#[derive(Debug)]
pub enum BotError {
    Serenity(String),
    Config(String),
    EnvVar(String),
    OpenRouterApi { status: u16, message: String },
    OpenRouterResponse(String),
    Reqwest(String),
    Json(String),
    Parse(String),
    Base64Decode(String),
    Wav(String),
    DataUrl(String),
    DataUrlBase64(String),
    EventSource(String),
    ToolExecution(String),
    ToolLoopLimit,
    NotInServer,
    NotInVoiceChannel,
    MissingVoiceManager,
    VoiceJoin(String),
    AudioFileNotFound(String),
    MusicNotConfigured,
    S3(String),
    S3Sdk(String),
    S3PresignConfig(String),
    Io(String),
}

/// The technical description of an error, as the loop feeds it back to the
/// model.
pub open spec fn error_message_spec(e: BotError) -> Seq<char> {
    match e {
        BotError::Serenity(s) => "Serenity error: "@ + s@,
        BotError::Config(s) => "Configuration error: "@ + s@,
        BotError::EnvVar(s) => "Environment variable error: "@ + s@,
        BotError::OpenRouterApi { status, message } => "OpenRouter API error ("@ + dec_str(
            status as nat,
        ) + "): "@ + message@,
        BotError::OpenRouterResponse(s) => "OpenRouter response error: "@ + s@,
        BotError::Reqwest(s) => "HTTP request error: "@ + s@,
        BotError::Json(s) => "JSON error: "@ + s@,
        BotError::Parse(s) => "Parse error: "@ + s@,
        BotError::Base64Decode(s) => "Base64 decode error: "@ + s@,
        BotError::Wav(s) => "WAV encoding error: "@ + s@,
        BotError::DataUrl(s) => "Data URL error: "@ + s@,
        BotError::DataUrlBase64(s) => "Data URL base64 decode error: "@ + s@,
        BotError::EventSource(s) => "SSE stream error: "@ + s@,
        BotError::ToolExecution(s) => "Tool execution error: "@ + s@,
        BotError::ToolLoopLimit => "Tool loop limit exceeded"@,
        BotError::NotInServer => "Not in a server (DM context)"@,
        BotError::NotInVoiceChannel => "User not in voice channel"@,
        BotError::MissingVoiceManager => "Voice manager not available"@,
        BotError::VoiceJoin(s) => "Failed to join voice channel: "@ + s@,
        BotError::AudioFileNotFound(s) => "Audio file not found: "@ + s@,
        BotError::MusicNotConfigured => "Music storage not configured"@,
        BotError::S3(s) => "S3 error: "@ + s@,
        BotError::S3Sdk(s) => "S3 error: "@ + s@,
        BotError::S3PresignConfig(s) => "S3 presign config error: "@ + s@,
        BotError::Io(s) => "IO error: "@ + s@,
    }
}

/// The user-safe message for an error: a short, category-specific apology
/// that never leaks raw error text.
pub open spec fn user_message_spec(e: BotError) -> Seq<char> {
    match e {
        BotError::Serenity(_) =>
        "Sorry, I'm having trouble communicating with Discord right now. Please try again later."@,
        BotError::Config(_) | BotError::EnvVar(_) =>
        "Sorry, there's a configuration issue on my end. Please contact the bot administrator."@,
        BotError::OpenRouterApi { status, .. } => {
            if status == 401 || status == 403 {
                "Sorry, I'm having authentication issues with my AI service. Please contact the bot administrator."@
            } else if status == 429 {
                "Sorry, I've hit my rate limit. Please try again in a few moments."@
            } else if 500 <= status <= 599 {
                "Sorry, the AI service is experiencing issues right now. Please try again later."@
            } else if 400 <= status <= 499 {
                "Sorry, there was an issue with my request to the AI service. Please try again or contact the bot administrator."@
            } else {
                "Sorry, I'm having trouble connecting to my AI service. Please try again later."@
            }
        },
        BotError::OpenRouterResponse(_) =>
        "Sorry, I received an unexpected response from my AI service. Please try again."@,
        BotError::Reqwest(_) => "Sorry, I'm having network issues. Please try again in a moment."@,
        BotError::Json(_) | BotError::Parse(_) =>
        "Sorry, I encountered a data processing error. Please try again."@,
        BotError::ToolExecution(_) =>
        "Sorry, I encountered an error while trying to look up information. Please try again."@,
        BotError::ToolLoopLimit =>
        "Sorry, I got stuck in a loop. Please try rephrasing your request."@,
        BotError::Base64Decode(_) | BotError::DataUrl(_) | BotError::DataUrlBase64(_) =>
        "Sorry, I encountered an error processing image data. Please try again."@,
        BotError::Wav(_) => "Sorry, I encountered an error creating audio data. Please try again."@,
        BotError::EventSource(_) =>
        "Sorry, I encountered an error streaming audio data. Please try again."@,
        BotError::NotInServer => "Sorry, this command only works in a server, not in DMs."@,
        BotError::NotInVoiceChannel => "You need to be in a voice channel to use this command."@,
        BotError::MissingVoiceManager =>
        "Voice features are not available. Please try again later."@,
        BotError::VoiceJoin(_) =>
        "Failed to join the voice channel. Please check my permissions."@,
        BotError::AudioFileNotFound(name) => "Couldn't find a song matching \""@ + name@ + "\"."@,
        BotError::MusicNotConfigured => "Music playback is not configured on this bot."@,
        BotError::S3(_) | BotError::S3Sdk(_) | BotError::S3PresignConfig(_) =>
        "Sorry, I encountered a problem fetching music from storage."@,
        BotError::Io(_) => "An error occurred reading audio files."@,
    }
}

fn prefixed(prefix: &str, rest: &str) -> (r: String)
    ensures
        r@ == prefix@ + rest@,
{
    let mut s = String::from_str(prefix);
    s.append(rest);
    s
}

impl BotError {
    /// The technical description of the error.
    pub fn message(&self) -> (r: String)
        ensures
            r@ == error_message_spec(*self),
    {
        match self {
            BotError::Serenity(s) => prefixed("Serenity error: ", s.as_str()),
            BotError::Config(s) => prefixed("Configuration error: ", s.as_str()),
            BotError::EnvVar(s) => prefixed("Environment variable error: ", s.as_str()),
            BotError::OpenRouterApi { status, message } => {
                let mut s = String::from_str("OpenRouter API error (");
                s.append(u64_to_string(*status as u64).as_str());
                s.append("): ");
                s.append(message.as_str());
                proof {
                    assert(s@ =~= error_message_spec(*self));
                }
                s
            },
            BotError::OpenRouterResponse(s) => prefixed("OpenRouter response error: ", s.as_str()),
            BotError::Reqwest(s) => prefixed("HTTP request error: ", s.as_str()),
            BotError::Json(s) => prefixed("JSON error: ", s.as_str()),
            BotError::Parse(s) => prefixed("Parse error: ", s.as_str()),
            BotError::Base64Decode(s) => prefixed("Base64 decode error: ", s.as_str()),
            BotError::Wav(s) => prefixed("WAV encoding error: ", s.as_str()),
            BotError::DataUrl(s) => prefixed("Data URL error: ", s.as_str()),
            BotError::DataUrlBase64(s) => prefixed("Data URL base64 decode error: ", s.as_str()),
            BotError::EventSource(s) => prefixed("SSE stream error: ", s.as_str()),
            BotError::ToolExecution(s) => prefixed("Tool execution error: ", s.as_str()),
            BotError::ToolLoopLimit => String::from_str("Tool loop limit exceeded"),
            BotError::NotInServer => String::from_str("Not in a server (DM context)"),
            BotError::NotInVoiceChannel => String::from_str("User not in voice channel"),
            BotError::MissingVoiceManager => String::from_str("Voice manager not available"),
            BotError::VoiceJoin(s) => prefixed("Failed to join voice channel: ", s.as_str()),
            BotError::AudioFileNotFound(s) => prefixed("Audio file not found: ", s.as_str()),
            BotError::MusicNotConfigured => String::from_str("Music storage not configured"),
            BotError::S3(s) => prefixed("S3 error: ", s.as_str()),
            BotError::S3Sdk(s) => prefixed("S3 error: ", s.as_str()),
            BotError::S3PresignConfig(s) => prefixed("S3 presign config error: ", s.as_str()),
            BotError::Io(s) => prefixed("IO error: ", s.as_str()),
        }
    }

    /// Returns a user-friendly message suitable for showing in the chat.
    pub fn user_message(&self) -> (r: String)
        ensures
            r@ == user_message_spec(*self),
    {
        match self {
            BotError::Serenity(_) => String::from_str(
                "Sorry, I'm having trouble communicating with Discord right now. Please try again later.",
            ),
            BotError::Config(_) | BotError::EnvVar(_) => String::from_str(
                "Sorry, there's a configuration issue on my end. Please contact the bot administrator.",
            ),
            BotError::OpenRouterApi { status, .. } => {
                let st = *status;
                if st == 401 || st == 403 {
                    String::from_str(
                        "Sorry, I'm having authentication issues with my AI service. Please contact the bot administrator.",
                    )
                } else if st == 429 {
                    String::from_str(
                        "Sorry, I've hit my rate limit. Please try again in a few moments.",
                    )
                } else if 500 <= st && st <= 599 {
                    String::from_str(
                        "Sorry, the AI service is experiencing issues right now. Please try again later.",
                    )
                } else if 400 <= st && st <= 499 {
                    String::from_str(
                        "Sorry, there was an issue with my request to the AI service. Please try again or contact the bot administrator.",
                    )
                } else {
                    String::from_str(
                        "Sorry, I'm having trouble connecting to my AI service. Please try again later.",
                    )
                }
            },
            BotError::OpenRouterResponse(_) => String::from_str(
                "Sorry, I received an unexpected response from my AI service. Please try again.",
            ),
            BotError::Reqwest(_) => String::from_str(
                "Sorry, I'm having network issues. Please try again in a moment.",
            ),
            BotError::Json(_) | BotError::Parse(_) => String::from_str(
                "Sorry, I encountered a data processing error. Please try again.",
            ),
            BotError::ToolExecution(_) => String::from_str(
                "Sorry, I encountered an error while trying to look up information. Please try again.",
            ),
            BotError::ToolLoopLimit => String::from_str(
                "Sorry, I got stuck in a loop. Please try rephrasing your request.",
            ),
            BotError::Base64Decode(_) | BotError::DataUrl(_) | BotError::DataUrlBase64(_) => String::from_str(
                "Sorry, I encountered an error processing image data. Please try again.",
            ),
            BotError::Wav(_) => String::from_str(
                "Sorry, I encountered an error creating audio data. Please try again.",
            ),
            BotError::EventSource(_) => String::from_str(
                "Sorry, I encountered an error streaming audio data. Please try again.",
            ),
            BotError::NotInServer => String::from_str(
                "Sorry, this command only works in a server, not in DMs.",
            ),
            BotError::NotInVoiceChannel => String::from_str(
                "You need to be in a voice channel to use this command.",
            ),
            BotError::MissingVoiceManager => String::from_str(
                "Voice features are not available. Please try again later.",
            ),
            BotError::VoiceJoin(_) => String::from_str(
                "Failed to join the voice channel. Please check my permissions.",
            ),
            BotError::AudioFileNotFound(name) => {
                let mut s = String::from_str("Couldn't find a song matching \"");
                s.append(name.as_str());
                s.append("\".");
                proof {
                    assert(s@ =~= user_message_spec(*self));
                }
                s
            },
            BotError::MusicNotConfigured => String::from_str(
                "Music playback is not configured on this bot.",
            ),
            BotError::S3(_) | BotError::S3Sdk(_) | BotError::S3PresignConfig(_) => String::from_str(
                "Sorry, I encountered a problem fetching music from storage.",
            ),
            BotError::Io(_) => String::from_str("An error occurred reading audio files."),
        }
    }
}

} // verus!
