use becbot::moderation::{
    format_channel_mention, format_user_mention, scan_image_words, scan_text, ImageScanOutcome,
    ModerationConfig, OcrWord, TextScanOutcome,
};

fn enabled_config() -> ModerationConfig {
    ModerationConfig { log_channel_id: Some(999), ocr_data_dir: Some(String::from("/usr/share/tessdata")) }
}

fn word(text: &str, x: i32, y: i32, w: u32, h: u32) -> OcrWord {
    OcrWord { text: String::from(text), x, y, w, h }
}

#[test]
fn clean_text_is_not_flagged() {
    let outcome = scan_text(&enabled_config(), 5, 42, "this is clean text");
    assert!(matches!(outcome, TextScanOutcome::Clean));
}

#[test]
fn disallowed_text_is_flagged_with_the_original_text() {
    let outcome = scan_text(&enabled_config(), 5, 42, "well fuck that plan");
    let TextScanOutcome::Flagged(report) = outcome else {
        panic!("a disallowed term must flag the message");
    };
    assert_eq!(report.title, "**Blacklisted word detected!**");
    assert_eq!(report.color, 0xff0000);
    assert_eq!(report.author_mention, "<@42>");
    assert_eq!(report.channel_mention, "<#5>");
    assert_eq!(report.message, "well fuck that plan");
}

#[test]
fn missing_log_channel_disables_the_pipeline() {
    let config = ModerationConfig { log_channel_id: None, ocr_data_dir: None };
    let outcome = scan_text(&config, 5, 42, "well fuck that plan");
    assert!(matches!(outcome, TextScanOutcome::Disabled));
}

#[test]
fn log_channel_messages_are_exempt() {
    let outcome = scan_text(&enabled_config(), 999, 42, "well fuck that plan");
    assert!(matches!(outcome, TextScanOutcome::Exempt));
}

#[test]
fn clean_image_words_stay_clean() {
    let words = vec![word("hello", 10, 10, 40, 12), word("world", 60, 10, 44, 12)];
    let outcome = scan_image_words(&words, 5, 42, "ann", "general");
    assert!(matches!(outcome, ImageScanOutcome::Clean));
}

#[test]
fn flagged_image_words_are_listed_and_highlighted() {
    let words = vec![
        word("hello", 10, 10, 40, 12),
        word("fuck", 60, 10, 44, 12),
        word("shit", 110, 30, 38, 12),
    ];
    let outcome = scan_image_words(&words, 5, 42, "ann", "general");
    let ImageScanOutcome::Flagged(report) = outcome else {
        panic!("disallowed words in an image must flag it");
    };
    assert_eq!(report.title, "**Possible blacklisted words in image detected!**");
    assert_eq!(report.color, 0xff0000);
    assert_eq!(report.author_mention, "<@42>");
    assert_eq!(report.channel_mention, "<#5>");
    assert_eq!(report.author_name, "ann");
    assert_eq!(report.channel_name, "general");
    assert_eq!(report.found_words, "fuck, shit");
    assert_eq!(report.highlights.len(), 2);
    assert_eq!(report.highlights[0].x, 57);
    assert_eq!(report.highlights[0].y, 7);
    assert_eq!(report.highlights[0].w, 50);
    assert_eq!(report.highlights[0].h, 18);
    assert_eq!(report.highlights[1].x, 107);
    assert_eq!(report.highlights[1].y, 27);
}

#[test]
fn mentions_render_by_identifier() {
    assert_eq!(format_user_mention(84774207140945920), "<@84774207140945920>");
    assert_eq!(format_channel_mention(0), "<#0>");
}
