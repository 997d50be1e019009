use yeti::status::generation_status;
use yeti::status::ellipsize_path;
use yeti::config::Config;
use yeti::config::get_effective_api_key;

#[test]
fn generation_status_shows_spinner_and_elapsed_seconds() {
    assert_eq!(generation_status(0, ""), "tracking... \u{280b} 0s");
    // After 15 quiet seconds the waiting hint appears; 15000 / 200 = 75 and
    // 75 % 8 = 3 picks the fourth spinner glyph.
    assert_eq!(
        generation_status(15_000, ""),
        "tracking... \u{281e} 15s (waiting for provider response)"
    );
    assert_eq!(
        generation_status(1_000, "abc"),
        "tracking... \u{2826} 1s, 3 chars received"
    );
}

#[test]
fn ellipsize_keeps_short_paths_and_shortens_long_ones() {
    assert_eq!(ellipsize_path("src/main.rs", 20), "src/main.rs");
    assert_eq!(ellipsize_path("src/main.rs", 0), "src/main.rs");
    assert_eq!(ellipsize_path("abcdefghij", 5), "...ij");
    assert_eq!(ellipsize_path("abcdefghij", 3), "...");
    assert_eq!(ellipsize_path("abcdefghij", 2), "..");
}

#[test]
fn model_selection_falls_back_to_the_default() {
    let c = Config { api_key: None, model: None };
    assert_eq!(c.model(), "gpt-oss-120b");
    assert_eq!(Config::default_model(), "gpt-oss-120b");
    let c2 = Config { api_key: None, model: Some("llama-x".to_string()) };
    assert_eq!(c2.model(), "llama-x");
}

#[test]
fn environment_key_overrides_stored_key_unless_empty() {
    let stored = Config { api_key: Some("stored".to_string()), model: None };
    assert_eq!(
        get_effective_api_key(Some("env".to_string()), &stored).as_deref(),
        Some("env")
    );
    assert_eq!(
        get_effective_api_key(Some(String::new()), &stored).as_deref(),
        Some("stored")
    );
    assert_eq!(get_effective_api_key(None, &stored).as_deref(), Some("stored"));
    let none = Config { api_key: None, model: None };
    assert!(get_effective_api_key(None, &none).is_none());

    let updated = none.with_api_key("fresh".to_string());
    assert_eq!(updated.api_key.as_deref(), Some("fresh"));
}
