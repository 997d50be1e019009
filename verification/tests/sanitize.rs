use yeti::sanitize::parse_commit_message;
use yeti::sanitize::sanitize_message;

#[test]
fn parse_commit_message_strips_markdown_and_builds_body() {
    let raw = "```text\n# heading\nfix[CORE]: handle rename metadata\n\nAdd rename source path to prompt context.\n```";
    let (title, body) = parse_commit_message(raw);

    assert_eq!(title, "fix[CORE]: handle rename metadata");
    assert_eq!(
        body.as_deref(),
        Some("Add rename source path to prompt context.")
    );
}

#[test]
fn parse_commit_message_falls_back_when_content_is_empty() {
    let raw = "\u{0000}\u{0007}\n```";
    let (title, body) = parse_commit_message(raw);

    assert_eq!(title, "chore: update files");
    assert!(body.is_none());
}

#[test]
fn parse_commit_message_limits_title_and_body_lines() {
    let long_title = format!("feat[CORE]: {}", "x".repeat(120));
    let raw = format!(
        "{long_title}\n\nshort\nBody line one is long enough.\nBody line two is long enough.\nBody line three is long enough.\nBody line four is long enough."
    );

    let (title, body) = parse_commit_message(&raw);

    assert_eq!(title.chars().count(), 72);
    assert_eq!(
        body.as_deref(),
        Some(
            "Body line one is long enough.\nBody line two is long enough.\nBody line three is long enough."
        )
    );
}

#[test]
fn sanitize_of_only_control_characters_falls_back_without_body() {
    let raw = "\u{0001}\u{0002}\n\u{001f}\u{007f}\u{0085}\n";
    let (title, body) = sanitize_message(raw);
    assert_eq!(title, "chore: update files");
    assert!(body.is_none());

    let (title_empty, body_empty) = sanitize_message("");
    assert_eq!(title_empty, "chore: update files");
    assert!(body_empty.is_none());
}

#[test]
fn sanitize_title_never_exceeds_72_characters() {
    let raw = "y".repeat(5000);
    let (title, _) = sanitize_message(&raw);
    assert_eq!(title.chars().count(), 72);

    let (short_title, _) = sanitize_message("fix: ok");
    assert!(short_title.chars().count() <= 72);
    assert_eq!(short_title, "fix: ok");
}

#[test]
fn sanitize_body_drops_short_lines_and_keeps_at_most_three() {
    let raw = "title line\ntiny\nthis line is clearly long enough\nanother sufficiently long line\nthird sufficiently long line\nfourth sufficiently long line";
    let (title, body) = sanitize_message(raw);
    assert_eq!(title, "title line");
    let body = body.expect("body expected");
    let lines: Vec<&str> = body.lines().collect();
    assert_eq!(lines.len(), 3);
    for line in &lines {
        assert!(line.chars().count() > 10);
    }
    assert!(!body.contains("tiny"));
    assert!(!body.contains("fourth"));
}

#[test]
fn sanitize_body_is_none_when_no_line_is_long_enough() {
    let (title, body) = sanitize_message("fix: a\nshort\nalso short");
    assert_eq!(title, "fix: a");
    assert!(body.is_none());
}

#[test]
fn sanitize_trims_lines_and_drops_comments() {
    let raw = "   fix: trimmed title   \n# a comment line\n```rust\n   a body line that is long enough   ";
    let (title, body) = sanitize_message(raw);
    assert_eq!(title, "fix: trimmed title");
    assert_eq!(body.as_deref(), Some("a body line that is long enough"));
}
