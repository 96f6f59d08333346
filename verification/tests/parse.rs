use fountain_export::{
    create_english_config, parse_fountain_text, parse_fountain_text_with_stats, reply_text,
    serialized_or_empty, serialized_refusal, test_connection, ParseJob, ParseResult, ParseStep,
    PrintProfile, SimpleConf,
};

fn refused(step: ParseStep) -> ParseResult {
    match step {
        ParseStep::Done(result) => result,
        ParseStep::Parse(job) => panic!("not refused: {job:?}"),
    }
}

fn job_of(step: ParseStep) -> ParseJob {
    match step {
        ParseStep::Parse(job) => job,
        ParseStep::Done(result) => panic!("refused: {result:?}"),
    }
}

#[test]
fn connection_answers() {
    assert_eq!(test_connection(), "Rust bridge connection successful!");
}

#[test]
fn empty_text_fails_the_parse() {
    for text in ["", " ", "\n\n", "\t \u{3000}"] {
        for config in [None, Some(SimpleConf::default()), Some(create_english_config())] {
            let result = refused(parse_fountain_text(text.to_string(), config));
            assert!(!result.success);
            assert!(!result.message.is_empty());
            assert_eq!(result.message, "Fountain文本不能为空");
            assert_eq!(result.page_count, 0);
            assert_eq!(result.character_count, 0);
            assert_eq!(result.word_count, 0);
        }
    }
}

#[test]
fn empty_text_fails_the_statistics() {
    for text in ["", " ", "\n\n", "\t \u{3000}"] {
        let result = parse_fountain_text_with_stats(text.to_string(), None);
        assert!(!result.success);
        assert_eq!(result.message, "Fountain文本不能为空");
        assert_eq!(result.page_count, 0);
        assert_eq!(result.character_count, 0);
        assert_eq!(result.word_count, 0);
    }
}

#[test]
fn scene_heading_parses_with_default_config() {
    let job = job_of(parse_fountain_text("INT. ROOM - DAY".to_string(), None));
    assert_eq!(job.text, "INT. ROOM - DAY");
    assert!(!job.generate_html);
    assert_eq!(job.conf.print_profile, PrintProfile::ChineseA4);
    assert!(job.conf.print_title_page);
    assert!(job.conf.use_dual_dialogue);
    assert_eq!(job.conf.scenes_numbers, "both");
}

#[test]
fn parse_uses_the_given_config() {
    let job = job_of(parse_fountain_text("INT. ROOM - DAY".to_string(), Some(create_english_config())));
    assert_eq!(job.conf.print_profile, PrintProfile::EnglishLetter);
    assert!(job.conf.double_space_between_scenes);
}

#[test]
fn unknown_profile_does_not_fail_the_parse() {
    let mut config = SimpleConf::default();
    config.print_profile = "a3".to_string();
    let job = job_of(parse_fountain_text("INT. ROOM - DAY".to_string(), Some(config)));
    assert_eq!(job.conf.print_profile, PrintProfile::ChineseA4);
}

#[test]
fn scene_heading_statistics() {
    let result = parse_fountain_text_with_stats("INT. ROOM - DAY".to_string(), None);
    assert!(result.success);
    assert_eq!(result.message, "Fountain文本解析成功");
    assert_eq!(result.page_count, 1);
    assert_eq!(result.character_count, 15);
    assert_eq!(result.word_count, 4);
}

#[test]
fn statistics_count_bytes_and_words() {
    let result = parse_fountain_text_with_stats("  内景。 房间 - 日\n".to_string(), Some(create_english_config()));
    assert!(result.success);
    assert_eq!(result.page_count, 1);
    assert_eq!(result.character_count, 25);
    assert_eq!(result.word_count, 4);
}

#[test]
fn statistics_do_not_depend_on_the_config() {
    let mut odd = SimpleConf::default();
    odd.print_profile = "???".to_string();
    let text = "EXT. SEA - NIGHT\n\nWaves.\n";
    let plain = parse_fountain_text_with_stats(text.to_string(), None);
    let other = parse_fountain_text_with_stats(text.to_string(), Some(odd));
    assert_eq!(plain.success, other.success);
    assert_eq!(plain.message, other.message);
    assert_eq!(plain.page_count, other.page_count);
    assert_eq!(plain.character_count, other.character_count);
    assert_eq!(plain.word_count, other.word_count);
    assert_eq!(plain.character_count, 25);
    assert_eq!(plain.word_count, 5);
}

#[test]
fn serialized_text_is_handed_on() {
    let json = "{\"title_page\":[],\"tokens\":[{\"type\":\"scene_heading\",\"text\":\"INT. ROOM - DAY\"}]}";
    let out = serialized_or_empty(Some(json.to_string()));
    assert_eq!(out, json);
    assert!(!out.is_empty());
    let value: serde_json::Value = serde_json::from_str(&out).unwrap();
    assert_eq!(value["tokens"][0]["text"].as_str(), Some("INT. ROOM - DAY"));
}

#[test]
fn missing_serialization_is_the_empty_object() {
    let out = serialized_or_empty(None);
    assert_eq!(out, "{}");
    let value: serde_json::Value = serde_json::from_str(&out).unwrap();
    assert_eq!(value.as_object().map(|fields| fields.len()), Some(0));
}

#[test]
fn a_refused_parse_goes_to_the_host_with_its_message() {
    for text in ["", " ", "\n\t"] {
        let refusal = refused(parse_fountain_text(text.to_string(), None));
        let out = serialized_refusal(&refusal);
        assert_eq!(out, "{\"success\":false,\"message\":\"Fountain文本不能为空\"}");
        let value: serde_json::Value = serde_json::from_str(&out).unwrap();
        assert_eq!(value["success"].as_bool(), Some(false));
        assert_eq!(value["message"].as_str(), Some("Fountain文本不能为空"));
        assert_eq!(value.as_object().map(|fields| fields.len()), Some(2));
    }
}

#[test]
fn a_message_is_written_as_a_json_string() {
    let message = "say \"no\"\\ then\n\ttab \u{0001} 空 \u{1F600}";
    let refusal = ParseResult {
        success: false,
        message: message.to_string(),
        page_count: 0,
        character_count: 0,
        word_count: 0,
    };
    let out = serialized_refusal(&refusal);
    assert_eq!(
        out,
        "{\"success\":false,\"message\":\"say \\\"no\\\"\\\\ then\\n\\ttab \\u0001 空 \u{1F600}\"}"
    );
    let value: serde_json::Value = serde_json::from_str(&out).unwrap();
    assert_eq!(value["success"].as_bool(), Some(false));
    assert_eq!(value["message"].as_str(), Some(message));
}

fn escaped(c: char) -> String {
    match c {
        '"' => "\\\"".to_string(),
        '\\' => "\\\\".to_string(),
        '\u{08}' => "\\b".to_string(),
        '\t' => "\\t".to_string(),
        '\n' => "\\n".to_string(),
        '\u{0C}' => "\\f".to_string(),
        '\r' => "\\r".to_string(),
        c if (c as u32) < 0x20 => format!("\\u00{:02x}", c as u32),
        c => c.to_string(),
    }
}

#[test]
fn every_character_is_written_as_json_has_it() {
    let mut refusal = ParseResult {
        success: false,
        message: String::new(),
        page_count: 0,
        character_count: 0,
        word_count: 0,
    };
    for code in 0..=0x10FFFFu32 {
        if let Some(c) = char::from_u32(code) {
            refusal.message.clear();
            refusal.message.push('a');
            refusal.message.push(c);
            refusal.message.push('z');
            let expected = format!("{{\"success\":false,\"message\":\"a{}z\"}}", escaped(c));
            assert_eq!(serialized_refusal(&refusal), expected, "U+{code:04X}");
        }
    }
}

#[test]
fn control_characters_are_written_with_their_escapes() {
    let refusal = ParseResult {
        success: false,
        message: "\u{00}\u{07}\u{08}\u{09}\u{0A}\u{0B}\u{0C}\u{0D}\u{0E}\u{1A}\u{1F}\u{20}\u{7F}/".to_string(),
        page_count: 0,
        character_count: 0,
        word_count: 0,
    };
    assert_eq!(
        serialized_refusal(&refusal),
        "{\"success\":false,\"message\":\"\\u0000\\u0007\\b\\t\\n\\u000b\\f\\r\\u000e\\u001a\\u001f \u{7F}/\"}"
    );
}

#[test]
fn an_empty_message_is_written_as_an_empty_json_string() {
    let refusal = ParseResult {
        success: false,
        message: String::new(),
        page_count: 0,
        character_count: 0,
        word_count: 0,
    };
    assert_eq!(serialized_refusal(&refusal), "{\"success\":false,\"message\":\"\"}");
}

#[test]
fn reply_text_frames_flag_and_message() {
    assert_eq!(reply_text(false, Some("\"m\"".to_string())), "{\"success\":false,\"message\":\"m\"}");
    assert_eq!(reply_text(true, Some("\"\"".to_string())), "{\"success\":true,\"message\":\"\"}");
    assert_eq!(reply_text(false, None), "{}");
    assert_eq!(reply_text(true, None), "{}");
}

#[test]
fn parse_result_clone_keeps_every_field() {
    let result = parse_fountain_text_with_stats("a b c".to_string(), None);
    let copy = result.clone();
    assert_eq!(copy.success, result.success);
    assert_eq!(copy.message, result.message);
    assert_eq!(copy.page_count, result.page_count);
    assert_eq!(copy.character_count, result.character_count);
    assert_eq!(copy.word_count, result.word_count);
}
