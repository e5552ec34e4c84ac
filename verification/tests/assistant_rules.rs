use seasons::hue::color::parse_color_channels;
use seasons::hue::models::{AudioSyncColorPalette, AudioSyncSpeedMode, LightStateUpdate};
use seasons::ollama::models::{OllamaSettings, PlannedAction, PlannedResponse};
use seasons::ollama::retry::{
    is_informative_no_action_message, is_paraphrase_like, normalize_for_similarity,
    should_force_execution_retry,
};
use seasons::ollama::rules::{
    action_error, action_ok, action_partial, build_light_state_update, clamp_brightness_ceiling,
    clean_optional_string, normalize_hex_color, normalize_token, ollama_chat_endpoint,
    ollama_tags_endpoint, parse_audio_sync_color_palette, parse_audio_sync_speed_mode, pluralize,
    truncate_for_error, validate_ollama_settings,
};

fn settings(base_url: &str, model: &str) -> OllamaSettings {
    OllamaSettings {
        base_url: base_url.to_string(),
        model: model.to_string(),
        api_key: None,
        request_timeout_seconds: 30,
    }
}

#[test]
fn settings_need_a_base_url_and_a_model() {
    assert_eq!(validate_ollama_settings(&settings("http://x", "m")), Ok(()));
    assert_eq!(
        validate_ollama_settings(&settings("   ", "m")),
        Err("Ollama base URL is required.".to_string())
    );
    assert_eq!(
        validate_ollama_settings(&settings("http://x", " \t")),
        Err("Ollama model is required.".to_string())
    );
}

#[test]
fn optional_strings_are_trimmed_and_blank_ones_dropped() {
    assert_eq!(clean_optional_string(Some("  kitchen ".to_string())), Some("kitchen".to_string()));
    assert_eq!(clean_optional_string(Some("   ".to_string())), None);
    assert_eq!(clean_optional_string(None), None);
}

#[test]
fn tokens_keep_lowercase_alphanumerics_only() {
    assert_eq!(normalize_token(" Neon-Pulse! "), "neonpulse");
    assert_eq!(normalize_token("Fire & Ice 2"), "fireice2");
    assert_eq!(normalize_token(""), "");
}

#[test]
fn speed_modes_fall_back_only_on_blank_input() {
    assert_eq!(parse_audio_sync_speed_mode(Some(" SLOW "), AudioSyncSpeedMode::High), AudioSyncSpeedMode::Slow);
    assert_eq!(parse_audio_sync_speed_mode(Some("high"), AudioSyncSpeedMode::Slow), AudioSyncSpeedMode::High);
    assert_eq!(parse_audio_sync_speed_mode(Some("turbo"), AudioSyncSpeedMode::Slow), AudioSyncSpeedMode::Medium);
    assert_eq!(parse_audio_sync_speed_mode(Some("  "), AudioSyncSpeedMode::Slow), AudioSyncSpeedMode::Slow);
    assert_eq!(parse_audio_sync_speed_mode(None, AudioSyncSpeedMode::High), AudioSyncSpeedMode::High);
}

#[test]
fn palettes_accept_aliases_and_default_to_the_room() {
    let fallback = AudioSyncColorPalette::Mono;
    assert_eq!(parse_audio_sync_color_palette(Some("Neon Flux"), fallback), AudioSyncColorPalette::NeonPulse);
    assert_eq!(parse_audio_sync_color_palette(Some("fire-ice"), fallback), AudioSyncColorPalette::FireIce);
    assert_eq!(parse_audio_sync_color_palette(Some("Vocal"), fallback), AudioSyncColorPalette::VocalGlow);
    assert_eq!(parse_audio_sync_color_palette(Some("aurora"), fallback), AudioSyncColorPalette::Aurora);
    assert_eq!(parse_audio_sync_color_palette(Some("plaid"), fallback), AudioSyncColorPalette::CurrentRoom);
    assert_eq!(parse_audio_sync_color_palette(Some(""), fallback), AudioSyncColorPalette::Mono);
    assert_eq!(parse_audio_sync_color_palette(None, fallback), AudioSyncColorPalette::Mono);
}

#[test]
fn hex_colors_are_prefixed_and_lowercased() {
    assert_eq!(normalize_hex_color(Some(" FFAA00 ".to_string())), Some("#ffaa00".to_string()));
    assert_eq!(normalize_hex_color(Some("#0a0B0c".to_string())), Some("#0a0b0c".to_string()));
    assert_eq!(normalize_hex_color(Some("#12345".to_string())), None);
    assert_eq!(normalize_hex_color(Some("12345g".to_string())), None);
    assert_eq!(normalize_hex_color(Some("  ".to_string())), None);
    assert_eq!(normalize_hex_color(None), None);
}

#[test]
fn normalizing_a_hex_color_twice_changes_nothing() {
    let once = normalize_hex_color(Some("ABCDEF".to_string()));
    assert_eq!(normalize_hex_color(once.clone()), once);
}

#[test]
fn endpoints_append_the_api_path_once() {
    assert_eq!(ollama_chat_endpoint(" http://host:11434/ "), Ok("http://host:11434/api/chat".to_string()));
    assert_eq!(ollama_chat_endpoint("http://host/api//"), Ok("http://host/api/chat".to_string()));
    assert_eq!(ollama_tags_endpoint("http://host"), Ok("http://host/api/tags".to_string()));
    assert_eq!(ollama_tags_endpoint("http://host/api"), Ok("http://host/api/tags".to_string()));
    assert_eq!(ollama_chat_endpoint(" // "), Err("Ollama base URL is required.".to_string()));
    assert_eq!(ollama_tags_endpoint(""), Err("Ollama base URL is required.".to_string()));
}

#[test]
fn long_error_bodies_are_cut_after_four_hundred_bytes() {
    assert_eq!(truncate_for_error("  short body  "), "short body");
    let long = "x".repeat(450);
    let cut = truncate_for_error(&long);
    assert_eq!(cut, format!("{}…", "x".repeat(400)));
    let exact = "y".repeat(400);
    assert_eq!(truncate_for_error(&exact), exact);
}

#[test]
fn outcomes_carry_their_status() {
    let ok = action_ok("set_light_state", "1".to_string(), "done".to_string());
    assert_eq!(ok.status, "ok");
    assert_eq!(ok.action, "set_light_state");
    assert_eq!(ok.target, "1");
    assert_eq!(ok.detail, "done");
    assert_eq!(action_partial("a", String::new(), String::new()).status, "partial");
    assert_eq!(action_error("a", String::new(), String::new()).status, "error");
}

#[test]
fn plural_suffix_only_for_counts_other_than_one() {
    assert_eq!(pluralize(0), "s");
    assert_eq!(pluralize(1), "");
    assert_eq!(pluralize(2), "s");
}

#[test]
fn light_state_turns_on_when_a_color_field_is_set() {
    let state = build_light_state_update(None, Some(400), Some(300), Some(70_000), None).unwrap();
    assert_eq!(
        state,
        LightStateUpdate {
            on: Some(true),
            brightness: Some(254),
            saturation: Some(254),
            hue: Some(65_535),
            transition_time: None,
        }
    );
    let dim = build_light_state_update(Some(false), Some(0), None, None, Some(10)).unwrap();
    assert_eq!(dim.on, Some(false));
    assert_eq!(dim.brightness, Some(1));
    assert_eq!(dim.transition_time, Some(10));
}

#[test]
fn light_state_needs_at_least_one_field() {
    assert_eq!(
        build_light_state_update(None, None, None, None, None),
        Err("At least one light-state field is required.".to_string())
    );
    assert!(build_light_state_update(None, None, None, None, Some(2)).is_ok());
}

#[test]
fn brightness_ceiling_is_clamped() {
    assert_eq!(clamp_brightness_ceiling(Some(0)), Some(1));
    assert_eq!(clamp_brightness_ceiling(Some(120)), Some(120));
    assert_eq!(clamp_brightness_ceiling(Some(999)), Some(254));
    assert_eq!(clamp_brightness_ceiling(None), None);
}

#[test]
fn similarity_text_keeps_words_only() {
    assert_eq!(normalize_for_similarity("  Turn ON, the kitchen-lights!! "), "turn on the kitchen lights");
    assert_eq!(normalize_for_similarity("..."), "");
}

#[test]
fn paraphrases_are_detected_by_containment_or_overlap() {
    assert!(is_paraphrase_like("turn on the lights", "Turn on the lights."));
    assert!(is_paraphrase_like("lights", "I will turn on the lights"));
    assert!(!is_paraphrase_like("", "anything"));
    assert!(!is_paraphrase_like("dim the bedroom", "The weather is sunny today"));
    // 7 of 10 words shared is enough, 6 of 10 is not.
    assert!(is_paraphrase_like(
        "a b c d e f g h i j",
        "a b c d e f g x y z"
    ));
    assert!(!is_paraphrase_like(
        "a b c d e f g h i j",
        "a b c d e f w x y z"
    ));
}

#[test]
fn informative_messages_have_numbers_structure_or_length() {
    assert!(is_informative_no_action_message("There are 3 lights in the kitchen"));
    assert!(is_informative_no_action_message("Rooms found: kitchen and study"));
    assert!(is_informative_no_action_message("one two three four five six seven eight"));
    assert!(!is_informative_no_action_message("ok sure"));
    assert!(!is_informative_no_action_message("I can help you with that"));
}

#[test]
fn retry_is_forced_when_no_action_and_no_real_answer() {
    let empty = PlannedResponse { assistant_message: "  ".to_string(), actions: vec![] };
    assert!(should_force_execution_retry("turn on lights", &empty));
    let vague = PlannedResponse { assistant_message: "Sure thing".to_string(), actions: vec![] };
    assert!(should_force_execution_retry("turn on lights", &vague));
    let answer = PlannedResponse {
        assistant_message: "You have 4 lights: two in the kitchen, two in the hall".to_string(),
        actions: vec![],
    };
    assert!(!should_force_execution_retry("how many lights do I have", &answer));
    let acting = PlannedResponse {
        assistant_message: String::new(),
        actions: vec![PlannedAction::SetLightState {
            light_id: "1".to_string(),
            on: Some(true),
            brightness: None,
            saturation: None,
            hue: None,
            transition_time: None,
        }],
    };
    assert!(!should_force_execution_retry("turn on light 1", &acting));
}

#[test]
fn normalized_colour_reads_as_channels() {
    let normalized = normalize_hex_color(Some(" 8040FF ".to_string())).unwrap();
    assert_eq!(normalized, "#8040ff");
    assert_eq!(parse_color_channels(Some(normalized.as_str())), Some((128, 64, 255)));
}
