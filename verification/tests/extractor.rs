use yeti::repo::assemble_staged_files;
use yeti::repo::build_staged_summary;
use yeti::repo::process_failure_message;
use yeti::repo::DeltaKind;
use yeti::repo::DeltaRecord;
use yeti::repo::LineRecord;
use yeti::prompt::FileStatus;
use yeti::error::YetiError;

fn delta(path: &str, kind: DeltaKind, old_path: Option<&str>) -> DeltaRecord {
    DeltaRecord {
        path: path.to_string(),
        kind,
        old_path: old_path.map(|s| s.to_string()),
    }
}

fn line(path: &str, origin: char, content: &str) -> LineRecord {
    LineRecord {
        path: path.to_string(),
        origin,
        content: content.to_string(),
    }
}

#[test]
fn assembly_counts_lines_and_collects_the_excerpt() {
    let deltas = vec![delta("src/file.txt", DeltaKind::Other, None)];
    let lines = vec![
        line("src/file.txt", '+', "one\n"),
        line("src/file.txt", '+', "two\n"),
        line("src/file.txt", '-', "gone\n"),
        line("src/file.txt", ' ', "ctx\n"),
    ];
    let files = assemble_staged_files(&deltas, &lines);
    assert_eq!(files.len(), 1);
    let f = &files[0];
    assert_eq!(f.path, "src/file.txt");
    assert_eq!(f.status, FileStatus::Modified);
    assert_eq!(f.additions, 2);
    assert_eq!(f.deletions, 1);
    assert_eq!(f.diff, "+one\n+two\n-gone\n ctx\n");
    assert!(f.old_path.is_none());
}

#[test]
fn assembly_keeps_rename_origin_only_for_renames() {
    let deltas = vec![
        delta("src/file_renamed.txt", DeltaKind::Renamed, Some("src/file.txt")),
        delta("src/other.txt", DeltaKind::Added, Some("ignored.txt")),
        delta("src/gone.txt", DeltaKind::Deleted, None),
    ];
    let files = assemble_staged_files(&deltas, &Vec::new());
    assert_eq!(files.len(), 3);
    assert_eq!(files[0].status, FileStatus::Renamed);
    assert_eq!(files[0].old_path.as_deref(), Some("src/file.txt"));
    assert_eq!(files[0].additions, 0);
    assert_eq!(files[0].deletions, 0);
    assert_eq!(files[0].diff, "");
    assert_eq!(files[1].status, FileStatus::Added);
    assert!(files[1].old_path.is_none());
    assert_eq!(files[2].status, FileStatus::Deleted);
}

#[test]
fn assembly_stops_extending_the_excerpt_at_the_cap() {
    let deltas = vec![delta("big.rs", DeltaKind::Other, None)];
    let huge = "x".repeat(3500);
    let lines = vec![
        line("big.rs", '+', &huge),
        line("big.rs", '+', "more\n"),
        line("big.rs", '-', "less\n"),
    ];
    let files = assemble_staged_files(&deltas, &lines);
    let f = &files[0];
    // The first line was appended while the excerpt was still under the cap;
    // after that the excerpt stops growing, but counting goes on.
    assert_eq!(f.diff.chars().count(), 3501);
    assert!(!f.diff.contains("more"));
    assert_eq!(f.additions, 2);
    assert_eq!(f.deletions, 1);
}

#[test]
fn lines_for_unknown_paths_change_nothing() {
    let deltas = vec![delta("a.rs", DeltaKind::Other, None)];
    let lines = vec![line("b.rs", '+', "stray\n")];
    let files = assemble_staged_files(&deltas, &lines);
    assert_eq!(files[0].additions, 0);
    assert_eq!(files[0].diff, "");
}

#[test]
fn summary_carries_branch_and_files_when_non_empty() {
    let deltas = vec![delta("a.rs", DeltaKind::Added, None)];
    let files = assemble_staged_files(&deltas, &Vec::new());
    let summary = build_staged_summary("feature/x".to_string(), files).expect("non-empty");
    assert_eq!(summary.branch, "feature/x");
    assert_eq!(summary.files.len(), 1);

    match build_staged_summary("feature/x".to_string(), Vec::new()) {
        Err(YetiError::NoChangesToCommit) => {}
        _ => panic!("expected NoChangesToCommit"),
    }
}

#[test]
fn process_failure_prefers_stderr_then_stdout_then_fallback() {
    assert_eq!(
        process_failure_message("bad".to_string(), "out".to_string(), "fallback"),
        "bad"
    );
    assert_eq!(
        process_failure_message(String::new(), "out".to_string(), "fallback"),
        "out"
    );
    assert_eq!(
        process_failure_message(String::new(), String::new(), "Git commit failed"),
        "Git commit failed"
    );
}
