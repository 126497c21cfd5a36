use leogpt::error::BotError;
use leogpt::tools::build_image_config;
use leogpt::tools::clamp_limit;
use leogpt::tools::extract_image_from_response;
use leogpt::tools::finish_audio_generation;
use leogpt::tools::get_tool_definitions;
use leogpt::tools::image_output_from_data_url;
use leogpt::tools::online_model;
use leogpt::tools::prepare_audio_request;
use leogpt::tools::resolve_tool_name;
use leogpt::tools::tts_prompt;
use leogpt::tools::user_info_request;
use leogpt::tools::validate_voice;
use leogpt::tools::web_search_request;
use leogpt::tools::ImageResponseMessage;
use leogpt::tools::ToolExecutor;
use leogpt::tools::ToolKind;
use leogpt::tools::ToolRequest;

#[test]
fn tool_names_form_a_closed_set() {
    assert_eq!(resolve_tool_name("web_search"), Some(ToolKind::WebSearch));
    assert_eq!(resolve_tool_name("generate_audio"), Some(ToolKind::GenerateAudio));
    assert_eq!(resolve_tool_name("frobnicate"), None);
}

#[test]
fn unknown_tool_is_refused_by_name() {
    match ToolExecutor::resolve("frobnicate", "{}", Some(1)) {
        Err(BotError::ToolExecution(s)) => assert_eq!(s, "Unknown tool: frobnicate"),
        _ => panic!("expected an unknown-tool error"),
    }
}

#[test]
fn malformed_arguments_fail_with_parse_error() {
    match ToolExecutor::resolve("web_search", "not json", Some(1)) {
        Err(BotError::Json(s)) => assert_eq!(s, "arguments must be a JSON object"),
        _ => panic!("expected a parse error"),
    }
    match ToolExecutor::resolve("web_search", "[1,2]", Some(1)) {
        Err(BotError::Json(s)) => assert_eq!(s, "arguments must be a JSON object"),
        _ => panic!("expected a parse error"),
    }
}

#[test]
fn ill_typed_fields_fail_with_parse_error() {
    match ToolExecutor::resolve("generate_image", "{\"prompt\":\"x\",\"aspect_ratio\":5}", Some(1)) {
        Err(BotError::Json(s)) => assert_eq!(s, "invalid field `aspect_ratio`"),
        _ => panic!("expected a parse error"),
    }
    match ToolExecutor::resolve("search_channel_history", "{\"limit\":\"many\"}", Some(1)) {
        Err(BotError::Json(s)) => assert_eq!(s, "invalid field `limit`"),
        _ => panic!("expected a parse error"),
    }
    match ToolExecutor::resolve("get_user_info", "{\"user_id\":5}", Some(1)) {
        Err(BotError::Json(s)) => assert_eq!(s, "invalid field `user_id`"),
        _ => panic!("expected a parse error"),
    }
    match ToolExecutor::resolve("generate_audio", "{\"text\":\"hi\",\"voice\":3}", Some(1)) {
        Err(BotError::Json(s)) => assert_eq!(s, "invalid field `voice`"),
        _ => panic!("expected a parse error"),
    }
}

#[test]
fn image_request_requires_prompt() {
    assert!(matches!(
        ToolExecutor::resolve("generate_image", "{}", Some(1)),
        Err(BotError::Json(_))
    ));
    match ToolExecutor::resolve("generate_image", "{\"prompt\":\"a dog\",\"size\":\"2K\"}", None) {
        Ok(ToolRequest::GenerateImage { prompt, size, .. }) => {
            assert_eq!(prompt, "a dog");
            assert_eq!(size.as_deref(), Some("2K"));
        },
        _ => panic!("expected an image request"),
    }
}

#[test]
fn search_limit_defaults_and_caps() {
    assert_eq!(clamp_limit(None), 20);
    assert_eq!(clamp_limit(Some(7)), 7);
    assert_eq!(clamp_limit(Some(250)), 100);
    match ToolExecutor::resolve("search_channel_history", "{\"limit\":500}", Some(1)) {
        Ok(ToolRequest::SearchChannelHistory { limit, .. }) => assert_eq!(limit, 100),
        _ => panic!("expected a search request"),
    }
}

#[test]
fn user_lookup_needs_server_and_identifier() {
    match user_info_request(None, None, Some(1)) {
        Err(BotError::ToolExecution(s)) => {
            assert_eq!(s, "Must provide either username or user_id")
        },
        _ => panic!("expected an error"),
    }
    match user_info_request(None, Some("leo".to_string()), None) {
        Err(BotError::ToolExecution(s)) => assert_eq!(s, "Not in a server (DM context)"),
        _ => panic!("expected an error"),
    }
    match user_info_request(Some("123".to_string()), None, Some(1)) {
        Ok(ToolRequest::GetUserInfo { user_id, .. }) => assert_eq!(user_id, Some(123)),
        _ => panic!("expected a lookup request"),
    }
    assert!(matches!(
        user_info_request(Some("12x".to_string()), None, Some(1)),
        Err(BotError::Parse(_))
    ));
}

#[test]
fn server_info_needs_a_server() {
    assert!(matches!(
        ToolExecutor::resolve("get_server_info", "{}", None),
        Err(BotError::NotInServer)
    ));
    assert!(matches!(
        ToolExecutor::resolve("get_server_info", "{}", Some(1)),
        Ok(ToolRequest::GetServerInfo)
    ));
}

#[test]
fn web_search_needs_a_query() {
    assert!(matches!(web_search_request(None), Err(BotError::Json(_))));
    match web_search_request(Some("rust news".to_string())) {
        Ok(ToolRequest::WebSearch { query }) => assert_eq!(query, "rust news"),
        _ => panic!("expected a search request"),
    }
}

#[test]
fn image_config_validates_and_canonicalizes() {
    assert!(matches!(build_image_config(None, None), Ok(None)));
    match build_image_config(Some("16:9".to_string()), Some("2k".to_string())) {
        Ok(Some(cfg)) => {
            assert_eq!(cfg.aspect_ratio.as_deref(), Some("16:9"));
            assert_eq!(cfg.image_size.as_deref(), Some("2K"));
        },
        _ => panic!("expected a config"),
    }
    match build_image_config(Some("7:5".to_string()), None) {
        Err(BotError::ToolExecution(s)) => assert_eq!(
            s,
            "Invalid aspect ratio '7:5'. Supported: 1:1, 16:9, 9:16, 2:3, 3:2, 3:4, 4:3, 4:5, 5:4, 21:9"
        ),
        _ => panic!("expected an error"),
    }
    match build_image_config(None, Some("8K".to_string())) {
        Err(BotError::ToolExecution(s)) => {
            assert_eq!(s, "Invalid image size '8K'. Supported: 1K, 2K, 4K")
        },
        _ => panic!("expected an error"),
    }
}

#[test]
fn voices_are_validated_case_insensitively() {
    assert!(validate_voice("Alloy"));
    assert!(validate_voice("SHIMMER"));
    assert!(!validate_voice("bob"));
}

#[test]
fn audio_request_checks_text_and_voice() {
    match prepare_audio_request("   ".to_string(), None) {
        Err(BotError::ToolExecution(s)) => assert_eq!(s, "Text cannot be empty."),
        _ => panic!("expected an error"),
    }
    match prepare_audio_request("hello".to_string(), None) {
        Ok((text, voice)) => {
            assert_eq!(text, "hello");
            assert_eq!(voice, "alloy");
        },
        _ => panic!("expected a request"),
    }
    match prepare_audio_request("hello".to_string(), Some("Nova".to_string())) {
        Ok((_, voice)) => assert_eq!(voice, "nova"),
        _ => panic!("expected a request"),
    }
    match prepare_audio_request("hello".to_string(), Some("bob".to_string())) {
        Err(BotError::ToolExecution(s)) => {
            assert_eq!(s, "Invalid voice 'bob'. Supported: alloy, echo, fable, onyx, nova, shimmer")
        },
        _ => panic!("expected an error"),
    }
}

#[test]
fn tts_prompt_frames_the_text() {
    assert_eq!(tts_prompt("good morning"), "Say exactly: \"good morning\"");
}

#[test]
fn online_suffix_is_added_once() {
    assert_eq!(online_model("some/model"), "some/model:online");
    assert_eq!(online_model("some/model:online"), "some/model:online");
}

#[test]
fn catalog_lists_six_tools() {
    let tools = get_tool_definitions();
    assert_eq!(tools.len(), 6);
    let names: Vec<&str> = tools.iter().map(|t| t.function.name.as_str()).collect();
    assert_eq!(
        names,
        vec![
            "search_channel_history",
            "get_user_info",
            "get_server_info",
            "web_search",
            "generate_image",
            "generate_audio"
        ]
    );
    assert!(tools.iter().all(|t| t.tool_type == "function"));
    // every schema literal parses: none fell back to the null placeholder
    for tool in &tools {
        let schema = serde_json::to_string(&tool.function.parameters).expect("serializes");
        assert_ne!(schema, "null");
        assert!(schema.starts_with("{"));
    }
}

#[test]
fn image_extraction_reports_each_failure() {
    match extract_image_from_response(&Vec::new()) {
        Err(BotError::OpenRouterResponse(s)) => assert_eq!(s, "No response from image model"),
        _ => panic!("expected an error"),
    }
    let text_only = vec![ImageResponseMessage {
        content: Some("I cannot draw that".to_string()),
        images: Vec::new(),
    }];
    match extract_image_from_response(&text_only) {
        Err(BotError::OpenRouterResponse(s)) => {
            assert_eq!(s, "Model returned text instead of image: I cannot draw that")
        },
        _ => panic!("expected an error"),
    }
    let silent = vec![ImageResponseMessage { content: None, images: Vec::new() }];
    match extract_image_from_response(&silent) {
        Err(BotError::OpenRouterResponse(s)) => assert_eq!(s, "No image generated"),
        _ => panic!("expected an error"),
    }
    let good = vec![ImageResponseMessage {
        content: None,
        images: vec!["data:image/png;base64,AQID".to_string()],
    }];
    match extract_image_from_response(&good) {
        Ok(url) => assert_eq!(url, "data:image/png;base64,AQID"),
        _ => panic!("expected a url"),
    }
}

#[test]
fn data_url_decoding_builds_the_attachment() {
    let out = image_output_from_data_url("data:image/jpeg;base64,AQID", "99").expect("decodes");
    let img = out.image.expect("image");
    assert_eq!(img.data, vec![1u8, 2, 3]);
    assert_eq!(img.filename, "generated_99.jpeg");
    assert_eq!(out.text, "Image generated successfully (3 bytes, jpeg format)");
    assert!(matches!(
        image_output_from_data_url("not a data url", "99"),
        Err(BotError::DataUrl(_))
    ));
}

#[test]
fn audio_generation_wraps_pcm_in_wav() {
    match finish_audio_generation("", "alloy", "5") {
        Err(BotError::OpenRouterResponse(s)) => assert_eq!(s, "No audio generated"),
        _ => panic!("expected an error"),
    }
    assert!(matches!(
        finish_audio_generation("!!!", "alloy", "5"),
        Err(BotError::Base64Decode(_))
    ));
    // four zero bytes of PCM: two 16-bit samples
    let out = finish_audio_generation("AAAAAA==", "alloy", "5").expect("encodes");
    let aud = out.audio.expect("audio");
    assert_eq!(aud.filename, "audio_5.wav");
    // a WAV container: RIFF header plus the four sample bytes
    assert_eq!(&aud.data[0..4], b"RIFF");
    assert_eq!(aud.data.len(), 44 + 4);
    assert_eq!(
        out.text,
        format!("Audio generated successfully ({} bytes, wav format, alloy voice)", 48)
    );
}

#[test]
fn loop_limit_has_a_user_safe_message() {
    assert_eq!(
        BotError::ToolLoopLimit.user_message(),
        "Sorry, I got stuck in a loop. Please try rephrasing your request."
    );
    assert_eq!(
        BotError::OpenRouterApi { status: 429, message: "slow down".to_string() }.user_message(),
        "Sorry, I've hit my rate limit. Please try again in a few moments."
    );
    assert_eq!(
        BotError::OpenRouterApi { status: 503, message: "x".to_string() }.user_message(),
        "Sorry, the AI service is experiencing issues right now. Please try again later."
    );
    assert_eq!(
        BotError::ToolLoopLimit.message(),
        "Tool loop limit exceeded"
    );
    assert_eq!(
        BotError::OpenRouterApi { status: 404, message: "gone".to_string() }.message(),
        "OpenRouter API error (404): gone"
    );
}
