//! Platform-native tools for the completion API's tool calling: the closed
//! dispatch table, argument parsing and validation, and the pure parts of
//! each tool's work.

mod audio_gen;
mod definitions;
mod executor;
mod image_gen;
mod web_search;

pub use audio_gen::is_valid_voice;
pub use audio_gen::prepare_audio_request;
pub use audio_gen::tts_prompt;
pub use audio_gen::validate_voice;
pub use audio_gen::create_wav_from_pcm16;
pub use audio_gen::finish_audio_generation;
pub use audio_gen::wav_of;
pub use audio_gen::AUDIO_GEN_MODEL;
pub use audio_gen::TTS_SYSTEM_PROMPT;
pub use definitions::get_tool_definitions;
pub use executor::clamp_limit;
pub use executor::resolve_tool_name;
pub use executor::tool_kind_of;
pub use executor::user_info_request;
pub use executor::web_search_request;
pub use executor::AudioAttachment;
pub use executor::ImageAttachment;
pub use executor::ToolContext;
pub use executor::ToolExecutor;
pub use executor::ToolKind;
pub use executor::ToolOutput;
pub use executor::ToolRequest;
pub use image_gen::build_image_config;
pub use image_gen::build_message_content;
pub use image_gen::data_url_parts;
pub use image_gen::extract_image_from_response;
pub use image_gen::image_output_from_data_url;
pub use image_gen::parse_data_url;
pub use image_gen::ImageConfig;
pub use image_gen::ImageResponseMessage;
pub use image_gen::IMAGE_GEN_MODEL;
pub use web_search::online_model;
pub use web_search::WEB_SEARCH_MAX_TOKENS;
