use leogpt::media::has_supported_media;
use leogpt::media::is_supported_attachment;
use leogpt::media::message_to_content;
use leogpt::media::process_attachment;
use leogpt::media::AttachmentData;
use leogpt::media::AttachmentInfo;
use leogpt::openrouter::ContentPart;
use leogpt::openrouter::MessageContent;
use leogpt::types::AudioFormat;
use leogpt::types::MediaType;

fn info(url: &str, filename: &str, content_type: Option<&str>) -> AttachmentInfo {
    AttachmentInfo {
        url: url.to_string(),
        filename: filename.to_string(),
        content_type: content_type.map(|s| s.to_string()),
    }
}

#[test]
fn media_type_classification() {
    assert_eq!(MediaType::from_content_type("image/png"), Some(MediaType::Image));
    assert_eq!(MediaType::from_content_type("video/mp4"), Some(MediaType::Video));
    assert_eq!(MediaType::from_content_type("audio/mpeg"), Some(MediaType::Audio));
    assert_eq!(MediaType::from_content_type("application/pdf"), Some(MediaType::Pdf));
    assert_eq!(MediaType::from_content_type("text/html"), None);
    assert_eq!(MediaType::from_content_type("not a mime"), None);
}

#[test]
fn audio_format_from_mime() {
    assert_eq!(AudioFormat::from_mime_type("audio/wav").as_str(), "wav");
    assert_eq!(AudioFormat::from_mime_type("not a mime").as_str(), "wav");
}

#[test]
fn text_only_message_stays_text() {
    let content = message_to_content(&"just words".to_string(), &Vec::new());
    match content {
        MessageContent::Text(t) => assert_eq!(t, "just words"),
        MessageContent::MultiPart(_) => panic!("expected plain text"),
    }
}

#[test]
fn image_with_text_puts_text_first() {
    let atts = vec![AttachmentData {
        info: info("https://cdn.example/cat.png", "cat.png", Some("image/png")),
        audio: None,
    }];
    let content = message_to_content(&"hello".to_string(), &atts);
    match content {
        MessageContent::MultiPart(parts) => {
            assert_eq!(parts.len(), 2);
            assert!(matches!(&parts[0], ContentPart::Text { text } if text == "hello"));
            assert!(
                matches!(&parts[1], ContentPart::ImageUrl { image_url }
                    if image_url.url == "https://cdn.example/cat.png")
            );
        },
        MessageContent::Text(_) => panic!("expected multi-part content"),
    }
}

#[test]
fn unsupported_attachment_is_dropped() {
    let atts = vec![AttachmentData {
        info: info("https://cdn.example/data.zip", "data.zip", Some("application/zip")),
        audio: None,
    }];
    assert!(!is_supported_attachment(&atts[0].info));
    let content = message_to_content(&"see file".to_string(), &atts);
    assert!(matches!(content, MessageContent::Text(t) if t == "see file"));
}

#[test]
fn audio_fetch_failure_skips_attachment() {
    let atts = vec![AttachmentData {
        info: info("https://cdn.example/clip.wav", "clip.wav", Some("audio/wav")),
        audio: None,
    }];
    let content = message_to_content(&"listen".to_string(), &atts);
    match content {
        MessageContent::MultiPart(parts) => {
            assert_eq!(parts.len(), 1);
            assert!(matches!(&parts[0], ContentPart::Text { text } if text == "listen"));
        },
        MessageContent::Text(_) => panic!("expected multi-part content"),
    }
}

#[test]
fn audio_attachment_inlined_as_base64() {
    let att = AttachmentData {
        info: info("https://cdn.example/clip.wav", "clip.wav", Some("audio/wav")),
        audio: Some(vec![1u8, 2, 3]),
    };
    let part = process_attachment(&att).expect("expected a part");
    match part {
        ContentPart::InputAudio { input_audio } => {
            assert_eq!(input_audio.data, "AQID");
            assert_eq!(input_audio.format, "wav");
        },
        _ => panic!("expected inline audio"),
    }
}

#[test]
fn pdf_attachment_is_file_reference() {
    let att = AttachmentData {
        info: info("https://cdn.example/doc.pdf", "doc.pdf", Some("application/pdf")),
        audio: None,
    };
    let part = process_attachment(&att).expect("expected a part");
    match part {
        ContentPart::File { file } => {
            assert_eq!(file.filename, "doc.pdf");
            assert_eq!(file.file_data, "https://cdn.example/doc.pdf");
        },
        _ => panic!("expected file reference"),
    }
}

#[test]
fn supported_media_detection() {
    let infos = vec![
        info("u1", "a.txt", Some("text/plain")),
        info("u2", "b.png", Some("image/png")),
    ];
    assert!(has_supported_media(&infos));
    let none = vec![info("u1", "a.txt", Some("text/plain")), info("u3", "c.bin", None)];
    assert!(!has_supported_media(&none));
}
