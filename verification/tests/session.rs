use yeti::session::process_stream_line;
use yeti::session::StreamStep;
use yeti::session::append_fragment;
use yeti::session::classify_transport_error;
use yeti::session::classify_validation_status;
use yeti::session::classify_readiness_status;
use yeti::session::classify_generation_status;
use yeti::session::generation_timed_out;
use yeti::session::generation_request_body;
use yeti::session::validation_request_body;
use yeti::session::readiness_request_body;
use yeti::session::escape_json;
use yeti::error::YetiError;
use yeti::prompt::SYSTEM_PROMPT;

#[test]
fn stream_line_with_content_yields_the_fragment() {
    let line = "data: {\"choices\":[{\"delta\":{\"content\":\"Hello\"}}]}";
    match process_stream_line(line) {
        StreamStep::Fragment(s) => assert_eq!(s, "Hello"),
        other => panic!("expected a fragment, got {other:?}"),
    }
}

#[test]
fn stream_terminator_ends_accumulation() {
    assert!(matches!(process_stream_line("data: [DONE]"), StreamStep::Done));
}

#[test]
fn non_data_and_malformed_lines_are_ignored() {
    assert!(matches!(process_stream_line(""), StreamStep::Ignore));
    assert!(matches!(process_stream_line("event: ping"), StreamStep::Ignore));
    assert!(matches!(process_stream_line("data: not json"), StreamStep::Ignore));
    assert!(matches!(process_stream_line("data: {\"choices\":[]}"), StreamStep::Ignore));
    assert!(matches!(
        process_stream_line("data: {\"choices\":[{\"delta\":{}}]}"),
        StreamStep::Ignore
    ));
}

#[test]
fn fragments_append_to_the_accumulated_text() {
    let mut acc = String::new();
    append_fragment(&mut acc, "fix: ");
    append_fragment(&mut acc, "thing");
    assert_eq!(acc, "fix: thing");
}

#[test]
fn transport_errors_are_classified_by_their_markers() {
    match classify_transport_error("http status 401 unauthorized") {
        YetiError::InvalidApiKey(m) => assert_eq!(m, "Authentication failed"),
        other => panic!("expected InvalidApiKey, got {other:?}"),
    }
    match classify_transport_error("got 429 back") {
        YetiError::ApiError { status, message } => {
            assert_eq!(status, 429);
            assert_eq!(message, "Rate limited. Please wait and try again.");
        }
        other => panic!("expected ApiError, got {other:?}"),
    }
    match classify_transport_error("connection refused") {
        YetiError::NetworkError(m) => assert_eq!(m, "connection refused"),
        other => panic!("expected NetworkError, got {other:?}"),
    }
}

#[test]
fn validation_statuses_map_to_the_error_taxonomy() {
    assert!(classify_validation_status(200).is_ok());
    assert!(classify_validation_status(299).is_ok());
    match classify_validation_status(401) {
        Err(YetiError::InvalidApiKey(m)) => assert_eq!(m, "Invalid API key"),
        other => panic!("expected InvalidApiKey, got {other:?}"),
    }
    match classify_validation_status(503) {
        Err(YetiError::ApiError { status, message }) => {
            assert_eq!(status, 503);
            assert_eq!(message, "API request failed");
        }
        other => panic!("expected ApiError, got {other:?}"),
    }
}

#[test]
fn readiness_and_generation_statuses_surface_distinct_failures() {
    assert!(classify_readiness_status(204).is_ok());
    match classify_readiness_status(500) {
        Err(YetiError::ApiError { status, message }) => {
            assert_eq!(status, 500);
            assert_eq!(message, "Provider readiness check failed");
        }
        other => panic!("expected ApiError, got {other:?}"),
    }
    match classify_generation_status(402, "quota exhausted".to_string()) {
        Err(YetiError::ApiError { status, message }) => {
            assert_eq!(status, 402);
            assert_eq!(message, "quota exhausted");
        }
        other => panic!("expected ApiError, got {other:?}"),
    }
    assert!(classify_generation_status(200, String::new()).is_ok());
}

#[test]
fn idle_and_overall_timeouts_trip_independently() {
    assert!(!generation_timed_out(0, 44_999, 0));
    assert!(generation_timed_out(0, 45_000, 0));
    assert!(!generation_timed_out(0, 45_000, 7));
    assert!(!generation_timed_out(0, 119_999, 7));
    assert!(generation_timed_out(0, 120_000, 7));
    assert!(!generation_timed_out(1_000, 45_500, 0));
    assert!(generation_timed_out(1_000, 46_000, 0));
}

#[test]
fn generation_request_body_is_the_exact_json_frame() {
    let body = generation_request_body("model-a", "say hi");
    let escaped_system = SYSTEM_PROMPT.replace('\\', "\\\\").replace('"', "\\\"").replace('\n', "\\n");
    let expected = format!(
        "{{\"model\":\"model-a\",\"messages\":[{{\"role\":\"system\",\"content\":\"{escaped_system}\"}},{{\"role\":\"user\",\"content\":\"say hi\"}}],\"temperature\":0.0,\"max_completion_tokens\":500,\"stream\":true}}"
    );
    assert_eq!(body, expected);
    // The frame is valid JSON and carries the fields the provider needs.
    let parsed: serde_json::Value = serde_json::from_str(&body).expect("valid JSON");
    assert_eq!(parsed.get("model").and_then(|v| v.as_str()), Some("model-a"));
    assert_eq!(parsed.get("stream").and_then(|v| v.as_bool()), Some(true));
    let msgs = parsed.get("messages").and_then(|v| v.as_array()).expect("messages");
    assert_eq!(msgs.len(), 2);
    assert_eq!(
        msgs[1].get("content").and_then(|v| v.as_str()),
        Some("say hi")
    );
    assert_eq!(
        msgs[0].get("content").and_then(|v| v.as_str()),
        Some(SYSTEM_PROMPT)
    );
}

#[test]
fn probe_request_bodies_are_fixed_frames() {
    assert_eq!(
        validation_request_body("gpt-oss-120b"),
        "{\"model\":\"gpt-oss-120b\",\"messages\":[{\"role\":\"user\",\"content\":\"Hi\"}],\"max_completion_tokens\":10,\"stream\":false}"
    );
    assert_eq!(
        readiness_request_body("m2"),
        "{\"model\":\"m2\",\"messages\":[{\"role\":\"user\",\"content\":\"ping\"}],\"max_completion_tokens\":4,\"stream\":false}"
    );
}

#[test]
fn json_escaping_covers_quotes_controls_and_backslashes() {
    assert_eq!(escape_json("plain"), "plain");
    assert_eq!(escape_json("a\"b"), "a\\\"b");
    assert_eq!(escape_json("a\\b"), "a\\\\b");
    assert_eq!(escape_json("a\nb\tc\rd"), "a\\nb\\tc\\rd");
    assert_eq!(escape_json("\u{0001}"), "\\u0001");
    assert_eq!(escape_json("\u{001f}"), "\\u001f");
}

#[test]
fn probe_failures_carry_their_stage_and_detail() {
    assert_eq!(
        yeti::session::prevalidation_failure("Network error: down"),
        "API key validation failed before generation: Network error: down"
    );
    assert_eq!(
        yeti::session::readiness_failure("API error (500): x"),
        "Provider readiness check failed: API error (500): x"
    );
}

#[test]
fn error_messages_render_each_variant() {
    assert_eq!(YetiError::NotAGitRepo.message(), "Not inside a git repository");
    assert_eq!(YetiError::NoChangesToCommit.message(), "No changes to commit");
    assert_eq!(
        YetiError::InvalidApiKey("nope".to_string()).message(),
        "Invalid API key: nope"
    );
    assert_eq!(
        YetiError::ApiError { status: 418, message: "teapot".to_string() }.message(),
        "API error (418): teapot"
    );
    assert_eq!(
        YetiError::NetworkError("down".to_string()).message(),
        "Network error: down"
    );
    assert_eq!(
        YetiError::CommitFailed("hook".to_string()).message(),
        "Git commit failed: hook"
    );
    assert_eq!(YetiError::IoError("disk".to_string()).message(), "IO error: disk");
}
