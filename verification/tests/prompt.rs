use yeti::prompt::build_user_prompt;
use yeti::prompt::FileInfo;
use yeti::prompt::FileStatus;
use yeti::prompt::SYSTEM_PROMPT;

fn file(
    path: &str,
    status: FileStatus,
    additions: usize,
    deletions: usize,
    diff: &str,
    old_path: Option<&str>,
) -> FileInfo {
    FileInfo {
        path: path.to_string(),
        additions,
        deletions,
        diff: diff.to_string(),
        status,
        old_path: old_path.map(|s| s.to_string()),
    }
}

#[test]
fn user_prompt_includes_files_changed_section_with_status_and_rename() {
    let files = vec![
        file(
            "src/new.rs",
            FileStatus::Added,
            8,
            0,
            "+fn new() {}\n",
            None,
        ),
        file(
            "src/current.rs",
            FileStatus::Renamed,
            2,
            2,
            "-old\n+new\n",
            Some("src/old.rs"),
        ),
        file(
            "src/obsolete.rs",
            FileStatus::Deleted,
            0,
            3,
            "-gone\n",
            None,
        ),
    ];

    let prompt = build_user_prompt("feature/refactor", &files);

    assert!(prompt.contains("Files changed (3):"));
    assert!(prompt.contains("- src/new.rs (added: +8/-0)"));
    assert!(prompt.contains("- src/current.rs (from src/old.rs) (renamed: +2/-2)"));
    assert!(prompt.contains("- src/obsolete.rs (deleted: +0/-3)"));
}

#[test]
fn user_prompt_includes_change_tree_section() {
    let files = vec![
        file(
            "src/tui/app.rs",
            FileStatus::Modified,
            1,
            1,
            "-a\n+b\n",
            None,
        ),
        file("src/prompt.rs", FileStatus::Modified, 2, 0, "+c\n", None),
    ];

    let prompt = build_user_prompt("main", &files);

    assert!(prompt.contains("Change tree:"));
    assert!(prompt.contains("src/"));
    assert!(prompt.contains("  tui/"));
    assert!(prompt.contains("    - [M] app.rs"));
    assert!(prompt.contains("  - [M] prompt.rs"));
}

#[test]
fn user_prompt_includes_staged_patch_excerpts_and_truncates_long_diff() {
    let long_diff = format!("+{}\n", "x".repeat(2500));
    let files = vec![file(
        "src/huge.rs",
        FileStatus::Modified,
        120,
        4,
        &long_diff,
        None,
    )];

    let prompt = build_user_prompt("main", &files);

    assert!(prompt.contains("Staged patch excerpts:"));
    assert!(prompt.contains("--- src/huge.rs"));
    assert!(prompt.contains("...[truncated]"));
}

#[test]
fn user_prompt_is_byte_identical_across_calls() {
    let files = vec![
        file("src/a.rs", FileStatus::Added, 3, 0, "+a\n", None),
        file(
            "src/b.rs",
            FileStatus::Renamed,
            1,
            1,
            "-x\n+y\n",
            Some("src/old_b.rs"),
        ),
    ];
    let first = build_user_prompt("main", &files);
    let second = build_user_prompt("main", &files);
    assert_eq!(first, second);
    assert_eq!(first.as_bytes(), second.as_bytes());
}

#[test]
fn user_prompt_starts_with_branch_and_mentions_rename_origin_in_tree() {
    let files = vec![file(
        "docs/guide.md",
        FileStatus::Renamed,
        0,
        0,
        "",
        Some("docs/old-guide.md"),
    )];
    let prompt = build_user_prompt("topic", &files);
    assert!(prompt.starts_with("Branch: topic\n"));
    assert!(prompt.contains("- [R] guide.md <- docs/old-guide.md"));
    // A file without patch text contributes no excerpt section.
    assert!(!prompt.contains("Staged patch excerpts:"));
}

#[test]
fn user_prompt_caps_file_list_at_thirty_entries() {
    let mut files = Vec::new();
    for i in 0..33usize {
        files.push(file(
            &format!("src/f{i}.rs"),
            FileStatus::Modified,
            1,
            0,
            "+z\n",
            None,
        ));
    }
    let prompt = build_user_prompt("main", &files);
    assert!(prompt.contains("Files changed (33):"));
    assert!(prompt.contains("... and 3 more files"));
    assert!(prompt.contains("- src/f29.rs (modified: +1/-0)"));
    assert!(!prompt.contains("- src/f30.rs (modified: +1/-0)"));
}

#[test]
fn system_prompt_states_the_output_contract() {
    assert!(SYSTEM_PROMPT.contains("<type>[SCOPE]: <summary>"));
    assert!(SYSTEM_PROMPT.contains("feat, fix, refactor, docs, test, chore, perf, ci, build, style, or revert"));
    assert!(SYSTEM_PROMPT.starts_with("Output ONLY a commit message."));
}

#[test]
fn change_tree_sorts_paths_and_prints_each_directory_once() {
    let files = vec![
        file("src/z.rs", FileStatus::Modified, 1, 0, "+1\n", None),
        file("src/a.rs", FileStatus::Modified, 1, 0, "+2\n", None),
    ];
    let prompt = build_user_prompt("main", &files);
    let tree_start = prompt.find("Change tree:\n").expect("tree section");
    let tree = &prompt[tree_start..];
    let a_pos = tree.find("- [M] a.rs").expect("a.rs entry");
    let z_pos = tree.find("- [M] z.rs").expect("z.rs entry");
    assert!(a_pos < z_pos);
    assert_eq!(tree.matches("src/\n").count(), 1);
}
