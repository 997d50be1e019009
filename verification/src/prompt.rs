//! The prompt builder: renders the staged-change summary into the fixed
//! system prompt and a deterministic user prompt. The user prompt holds the
//! branch name, an enumerated file list capped at 30 entries, a directory
//! tree of the changed paths, and patch excerpts bounded by a per-file and a
//! total character budget. The output is a pure function of its inputs.

use vstd::prelude::*;
use crate::text::dec_seq;
use crate::text::usize_to_string;
use crate::text::join_with;
use crate::text::join_strings;
use crate::text::lex_lt;
use crate::text::str_lex_lt;
use crate::text::split_on;
use crate::text::split_str;
use crate::text::repeat_seq;
use crate::text::repeat_str;
use crate::text::str_eq_str;

verus! {

/// How a staged file changed.
#[derive(Debug, Clone, Copy, PartialEq, Eq, Structural)]
pub enum FileStatus {
    Added,
    Modified,
    Deleted,
    Renamed,
}

/// One staged file: its path, line counts, a capped patch excerpt, the kind
/// of change, and the pre-rename path when the change is a rename.
#[derive(Debug, Clone)]
pub struct FileInfo {
    pub path: String,
    pub additions: usize,
    pub deletions: usize,
    pub diff: String,
    pub status: FileStatus,
    pub old_path: Option<String>,
}

/// The mathematical value of a [`FileInfo`].
pub ghost struct FileInfoV {
    pub path: Seq<char>,
    pub additions: nat,
    pub deletions: nat,
    pub diff: Seq<char>,
    pub status: FileStatus,
    pub old_path: Option<Seq<char>>,
}

impl View for FileInfo {
    type V = FileInfoV;

    open spec fn view(&self) -> FileInfoV {
        FileInfoV {
            path: self.path@,
            additions: self.additions as nat,
            deletions: self.deletions as nat,
            diff: self.diff@,
            status: self.status,
            old_path: match self.old_path {
                Some(p) => Some(p@),
                None => None,
            },
        }
    }
}

impl DeepView for FileInfo {
    type V = FileInfoV;

    open spec fn deep_view(&self) -> FileInfoV {
        self.view()
    }
}

/// The change kind spelled out for the file list.
pub open spec fn status_word(st: FileStatus) -> Seq<char> {
    match st {
        FileStatus::Added => "added"@,
        FileStatus::Deleted => "deleted"@,
        FileStatus::Renamed => "renamed"@,
        FileStatus::Modified => "modified"@,
    }
}

fn status_word_str(st: FileStatus) -> (r: &'static str)
    ensures
        r@ == status_word(st),
{
    match st {
        FileStatus::Added => "added",
        FileStatus::Deleted => "deleted",
        FileStatus::Renamed => "renamed",
        FileStatus::Modified => "modified",
    }
}

/// The one-letter tag used in the change tree.
pub open spec fn status_tag(st: FileStatus) -> Seq<char> {
    match st {
        FileStatus::Added => "A"@,
        FileStatus::Deleted => "D"@,
        FileStatus::Renamed => "R"@,
        FileStatus::Modified => "M"@,
    }
}

fn status_tag_str(st: FileStatus) -> (r: &'static str)
    ensures
        r@ == status_tag(st),
{
    match st {
        FileStatus::Added => "A",
        FileStatus::Deleted => "D",
        FileStatus::Renamed => "R",
        FileStatus::Modified => "M",
    }
}

/// The rename origin note of a file-list entry.
pub open spec fn rename_suffix(f: FileInfoV) -> Seq<char> {
    match f.old_path {
        Some(o) => " (from "@ + o + ")"@,
        None => Seq::<char>::empty(),
    }
}

/// One entry of the enumerated file list.
pub open spec fn file_line_spec(f: FileInfoV) -> Seq<char> {
    "- "@ + f.path + rename_suffix(f) + " ("@ + status_word(f.status) + ": +"@ + dec_seq(
        f.additions,
    ) + "/-"@ + dec_seq(f.deletions) + ")"@
}

fn file_line(f: &FileInfo) -> (r: String)
    ensures
        r@ == file_line_spec(f@),
{
    let mut s = "- ".to_owned();
    s.append(f.path.as_str());
    match &f.old_path {
        Some(o) => {
            s.append(" (from ");
            s.append(o.as_str());
            s.append(")");
        },
        None => {},
    }
    s.append(" (");
    s.append(status_word_str(f.status));
    s.append(": +");
    let adds = usize_to_string(f.additions);
    s.append(adds.as_str());
    s.append("/-");
    let dels = usize_to_string(f.deletions);
    s.append(dels.as_str());
    s.append(")");
    proof {
        assert(s@ =~= file_line_spec(f@));
    }
    s
}

/// The files shown in the enumerated list: at most the first 30.
pub open spec fn listed_files(files: Seq<FileInfoV>) -> Seq<FileInfoV> {
    if files.len() <= 30 {
        files
    } else {
        files.take(30)
    }
}

/// The enumerated file list, one line per shown file.
pub open spec fn file_list_spec(files: Seq<FileInfoV>) -> Seq<char> {
    join_with(listed_files(files).map_values(|f: FileInfoV| file_line_spec(f)), "\n"@)
}

fn build_file_list(files: &Vec<FileInfo>) -> (r: String)
    ensures
        r@ == file_list_spec(files.deep_view()),
{
    let shown: usize = if files.len() > 30 {
        30
    } else {
        files.len()
    };
    let mut parts: Vec<String> = Vec::new();
    let mut i: usize = 0;
    while i < shown
        invariant
            0 <= i <= shown <= files.len(),
            shown == if files.deep_view().len() <= 30 {
                files.deep_view().len() as int
            } else {
                30int
            },
            parts.deep_view() == listed_files(files.deep_view()).map_values(
                |f: FileInfoV| file_line_spec(f),
            ).take(i as int),
        decreases shown - i,
    {
        let line = file_line(&files[i]);
        parts.push(line);
        proof {
            let mapped = listed_files(files.deep_view()).map_values(
                |f: FileInfoV| file_line_spec(f),
            );
            assert(listed_files(files.deep_view())[i as int] == files.deep_view()[i as int]);
            assert(mapped.take(i + 1) =~= mapped.take(i as int).push(mapped[i as int]));
            assert(parts.deep_view() =~= mapped.take(i + 1));
        }
        i += 1;
    }
    proof {
        let mapped = listed_files(files.deep_view()).map_values(
            |f: FileInfoV| file_line_spec(f),
        );
        assert(mapped.take(shown as int) =~= mapped);
    }
    join_strings(&parts, "\n")
}

/// Insertion of a file into a path-sorted run, after all entries whose path
/// is not greater.
pub open spec fn insert_sorted(f: FileInfoV, s: Seq<FileInfoV>) -> Seq<FileInfoV>
    decreases s.len(),
{
    if s.len() == 0 {
        seq![f]
    } else if lex_lt(f.path, s[0].path) {
        seq![f] + s
    } else {
        seq![s[0]] + insert_sorted(f, s.drop_first())
    }
}

/// The files in path order; entries with equal paths keep their input order.
pub open spec fn sort_by_path(s: Seq<FileInfoV>) -> Seq<FileInfoV>
    decreases s.len(),
{
    if s.len() == 0 {
        Seq::<FileInfoV>::empty()
    } else {
        insert_sorted(s.last(), sort_by_path(s.drop_last()))
    }
}

proof fn lemma_insert_sorted_at(f: FileInfoV, s: Seq<FileInfoV>, idx: int)
    requires
        0 <= idx <= s.len(),
        forall|k: int| 0 <= k < idx ==> !lex_lt(f.path, #[trigger] s[k].path),
        idx < s.len() ==> lex_lt(f.path, s[idx].path),
    ensures
        insert_sorted(f, s) == s.take(idx) + seq![f] + s.skip(idx),
    decreases idx,
{
    if idx == 0 {
        assert(insert_sorted(f, s) =~= s.take(0) + seq![f] + s.skip(0));
    } else {
        assert(!lex_lt(f.path, s[0].path));
        lemma_insert_sorted_at(f, s.drop_first(), idx - 1);
        assert(s.drop_first().take(idx - 1) =~= s.take(idx).drop_first());
        assert(s.drop_first().skip(idx - 1) =~= s.skip(idx));
        assert(seq![s[0]] + (s.drop_first().take(idx - 1) + seq![f] + s.drop_first().skip(
            idx - 1,
        )) =~= s.take(idx) + seq![f] + s.skip(idx));
    }
}

fn sorted_by_path(files: &Vec<FileInfo>) -> (r: Vec<FileInfo>)
    ensures
        r.deep_view() == sort_by_path(files.deep_view()),
{
    let mut r: Vec<FileInfo> = Vec::new();
    let mut i: usize = 0;
    proof {
        assert(files.deep_view().take(0) =~= Seq::<FileInfoV>::empty());
    }
    while i < files.len()
        invariant
            0 <= i <= files.len(),
            r.deep_view() == sort_by_path(files.deep_view().take(i as int)),
        decreases files.len() - i,
    {
        let f = &files[i];
        let mut idx: usize = 0;
        while idx < r.len() && !str_lex_lt(f.path.as_str(), r[idx].path.as_str())
            invariant
                0 <= idx <= r.len(),
                forall|k: int|
                    0 <= k < idx ==> !lex_lt(f@.path, #[trigger] r.deep_view()[k].path),
            decreases r.len() - idx,
        {
            idx += 1;
        }
        r.insert(idx, f.clone_info());
        proof {
            let fv = files.deep_view();
            let prev = sort_by_path(fv.take(i as int));
            lemma_insert_sorted_at(fv[i as int], prev, idx as int);
            assert(fv.take(i + 1).drop_last() =~= fv.take(i as int));
            assert(fv.take(i + 1).last() == fv[i as int]);
            assert(sort_by_path(fv.take(i + 1)) == insert_sorted(fv[i as int], prev));
            assert(r.deep_view() =~= prev.take(idx as int) + seq![fv[i as int]] + prev.skip(
                idx as int,
            ));
        }
        i += 1;
    }
    proof {
        let fv = files.deep_view();
        assert(fv.take(fv.len() as int) =~= fv);
    }
    r
}

impl FileInfo {
    /// A copy with the same value.
    pub fn clone_info(&self) -> (r: FileInfo)
        ensures
            r@ == self@,
    {
        FileInfo {
            path: self.path.clone(),
            additions: self.additions,
            deletions: self.deletions,
            diff: self.diff.clone(),
            status: self.status,
            old_path: match &self.old_path {
                Some(p) => Some(p.clone()),
                None => None,
            },
        }
    }
}

/// Whether a directory prefix was already printed.
pub open spec fn seen_contains(seen: Seq<Seq<char>>, x: Seq<char>) -> bool {
    exists|i: int| 0 <= i < seen.len() && seen[i] == x
}

fn seen_contains_exec(seen: &Vec<String>, x: &str) -> (r: bool)
    ensures
        r == seen_contains(seen.deep_view(), x@),
{
    let mut i: usize = 0;
    while i < seen.len()
        invariant
            0 <= i <= seen.len(),
            forall|k: int| 0 <= k < i ==> seen.deep_view()[k] != x@,
        decreases seen.len() - i,
    {
        if str_eq_str(seen[i].as_str(), x) {
            proof {
                assert(seen.deep_view()[i as int] == x@);
            }
            return true;
        }
        i += 1;
    }
    false
}

/// The indentation for one tree depth.
pub open spec fn indent_spec(d: nat) -> Seq<char> {
    repeat_seq("  "@, d)
}

/// The rename origin note of a tree entry.
pub open spec fn rename_note(f: FileInfoV) -> Seq<char> {
    match f.old_path {
        Some(o) => " <- "@ + o,
        None => Seq::<char>::empty(),
    }
}

/// The tree line for the file itself, under its directories.
pub open spec fn tree_entry_line(f: FileInfoV, parts: Seq<Seq<char>>) -> Seq<char> {
    indent_spec((parts.len() - 1) as nat) + "- ["@ + status_tag(f.status) + "] "@ + parts.last()
        + rename_note(f)
}

/// The directory lines a file contributes from depth `d` on, and the seen
/// set afterwards.
pub open spec fn dir_lines(parts: Seq<Seq<char>>, d: int, seen: Seq<Seq<char>>) -> (Seq<
    Seq<char>,
>, Seq<Seq<char>>)
    decreases parts.len() - d,
{
    if d < 0 || d + 1 >= parts.len() {
        (Seq::<Seq<char>>::empty(), seen)
    } else {
        let prefix = join_with(parts.take(d + 1), "/"@);
        if seen_contains(seen, prefix) {
            dir_lines(parts, d + 1, seen)
        } else {
            let rec = dir_lines(parts, d + 1, seen.push(prefix));
            (seq![indent_spec(d as nat) + parts[d] + "/"@] + rec.0, rec.1)
        }
    }
}

/// The lines one file contributes to the tree, and the seen set afterwards.
pub open spec fn tree_file_lines(f: FileInfoV, seen: Seq<Seq<char>>) -> (Seq<Seq<char>>, Seq<
    Seq<char>,
>) {
    let parts = split_on(f.path, '/');
    let rec = dir_lines(parts, 0, seen);
    (rec.0.push(tree_entry_line(f, parts)), rec.1)
}

/// The tree lines of the first `i` files, and the seen set afterwards.
pub open spec fn tree_state(files: Seq<FileInfoV>, i: int) -> (Seq<Seq<char>>, Seq<Seq<char>>)
    decreases i,
{
    if i <= 0 {
        (Seq::<Seq<char>>::empty(), Seq::<Seq<char>>::empty())
    } else {
        let prev = tree_state(files, i - 1);
        let cur = tree_file_lines(files[i - 1], prev.1);
        (prev.0 + cur.0, cur.1)
    }
}

/// The hierarchical tree rendering of the changed paths.
pub open spec fn change_tree_spec(files: Seq<FileInfoV>) -> Seq<char> {
    if files.len() == 0 {
        "(none)"@
    } else {
        join_with(tree_state(sort_by_path(files), sort_by_path(files).len() as int).0, "\n"@)
    }
}

/// Renders the changed paths as a directory tree with per-file status tags.
pub fn build_change_tree(files: &Vec<FileInfo>) -> (r: String)
    ensures
        r@ == change_tree_spec(files.deep_view()),
{
    if files.len() == 0 {
        return "(none)".to_owned();
    }
    let sorted = sorted_by_path(files);
    let ghost sv = sorted.deep_view();
    let mut lines: Vec<String> = Vec::new();
    let mut seen: Vec<String> = Vec::new();
    let mut i: usize = 0;
    proof {
        assert(lines.deep_view() =~= tree_state(sv, 0).0);
        assert(seen.deep_view() =~= tree_state(sv, 0).1);
    }
    while i < sorted.len()
        invariant
            0 <= i <= sorted.len(),
            sv == sorted.deep_view(),
            lines.deep_view() == tree_state(sv, i as int).0,
            seen.deep_view() == tree_state(sv, i as int).1,
        decreases sorted.len() - i,
    {
        let f = &sorted[i];
        let parts: Vec<String> = split_str(f.path.as_str(), '/');
        let ghost pv = parts.deep_view();
        let ghost seen0 = seen.deep_view();
        proof {
            crate::text::lemma_split_on_nonempty(f@.path, '/');
        }
        let mut flines: Vec<String> = Vec::new();
        let mut d: usize = 0;
        proof {
            assert(flines.deep_view() + dir_lines(pv, 0, seen0).0 =~= dir_lines(
                pv,
                0,
                seen0,
            ).0);
        }
        while d < parts.len() - 1
            invariant
                0 <= d <= parts.len(),
                pv == parts.deep_view(),
                pv.len() >= 1,
                dir_lines(pv, 0, seen0).0 == flines.deep_view() + dir_lines(
                    pv,
                    d as int,
                    seen.deep_view(),
                ).0,
                dir_lines(pv, 0, seen0).1 == dir_lines(pv, d as int, seen.deep_view()).1,
            decreases parts.len() - d,
        {
            let mut prefix = String::new();
            let mut pi: usize = 0;
            proof {
                assert(pv.take(0) =~= Seq::<Seq<char>>::empty());
            }
            while pi < d + 1
                invariant
                    0 <= pi <= d + 1,
                    d + 1 <= parts.len(),
                    pv == parts.deep_view(),
                    prefix@ == join_with(pv.take(pi as int), "/"@),
                decreases d + 1 - pi,
            {
                if pi > 0 {
                    prefix.append("/");
                }
                prefix.append(parts[pi].as_str());
                proof {
                    assert(pv.take(pi + 1) =~= pv.take(pi as int).push(pv[pi as int]));
                    crate::text::lemma_join_with_push(pv.take(pi as int), "/"@, pv[pi as int]);
                }
                pi += 1;
            }
            let ghost seen_before = seen.deep_view();
            let ghost flines_before = flines.deep_view();
            let is_new: bool = !seen_contains_exec(&seen, prefix.as_str());
            if is_new {
                let mut line = repeat_str("  ", d);
                line.append(parts[d].as_str());
                line.append("/");
                proof {
                    assert(line@ =~= indent_spec(d as nat) + pv[d as int] + "/"@);
                }
                flines.push(line);
                seen.push(prefix);
                proof {
                    assert(seen.deep_view() =~= seen_before.push(join_with(
                        pv.take(d + 1),
                        "/"@,
                    )));
                    let rec = dir_lines(pv, d + 1, seen.deep_view());
                    assert(dir_lines(pv, d as int, seen_before).0 == seq![
                        indent_spec(d as nat) + pv[d as int] + "/"@,
                    ] + rec.0);
                    assert(flines_before + (seq![indent_spec(d as nat) + pv[d as int] + "/"@]
                        + rec.0) =~= flines.deep_view() + rec.0);
                }
            }
            d += 1;
        }
        proof {
            assert(dir_lines(pv, d as int, seen.deep_view()).0
                =~= Seq::<Seq<char>>::empty());
            assert(flines.deep_view() + Seq::<Seq<char>>::empty() =~= flines.deep_view());
            assert(dir_lines(pv, 0, seen0).0 == flines.deep_view());
        }
        let mut entry = repeat_str("  ", parts.len() - 1);
        entry.append("- [");
        entry.append(status_tag_str(f.status));
        entry.append("] ");
        entry.append(parts[parts.len() - 1].as_str());
        match &f.old_path {
            Some(o) => {
                entry.append(" <- ");
                entry.append(o.as_str());
            },
            None => {},
        }
        proof {
            assert(pv.last() == pv[pv.len() - 1]);
            assert(entry@ =~= tree_entry_line(sv[i as int], pv));
        }
        flines.push(entry);
        proof {
            assert(flines.deep_view() == tree_file_lines(sv[i as int], seen0).0);
            assert(seen.deep_view() == tree_file_lines(sv[i as int], seen0).1);
        }
        let ghost lines_before = lines.deep_view();
        lines.append(&mut flines);
        proof {
            assert(lines.deep_view() =~= lines_before + tree_file_lines(
                sv[i as int],
                seen0,
            ).0);
            assert(tree_state(sv, i + 1).0 == tree_state(sv, i as int).0 + tree_file_lines(
                sv[i as int],
                tree_state(sv, i as int).1,
            ).0);
            assert(lines.deep_view() == tree_state(sv, i + 1).0);
            assert(seen.deep_view() == tree_state(sv, i + 1).1);
        }
        i += 1;
    }
    proof {
        lemma_sort_by_path_len(files.deep_view());
        assert(tree_state(sv, sv.len() as int).0 == lines.deep_view());
    }
    join_strings(&lines, "\n")
}

proof fn lemma_sort_by_path_len(s: Seq<FileInfoV>)
    ensures
        sort_by_path(s).len() == s.len(),
    decreases s.len(),
{
    if s.len() > 0 {
        lemma_sort_by_path_len(s.drop_last());
        lemma_insert_sorted_len(s.last(), sort_by_path(s.drop_last()));
    }
}

proof fn lemma_insert_sorted_len(f: FileInfoV, s: Seq<FileInfoV>)
    ensures
        insert_sorted(f, s).len() == s.len() + 1,
    decreases s.len(),
{
    if s.len() > 0 && !lex_lt(f.path, s[0].path) {
        lemma_insert_sorted_len(f, s.drop_first());
    }
}

/// The overflow note appended when more than 30 files changed.
pub open spec fn extra_spec(files: Seq<FileInfoV>) -> Seq<char> {
    if files.len() > 30 {
        "\n... and "@ + dec_seq((files.len() - 30) as nat) + " more files"@
    } else {
        Seq::<char>::empty()
    }
}

fn build_extra(files: &Vec<FileInfo>) -> (r: String)
    ensures
        r@ == extra_spec(files.deep_view()),
{
    if files.len() > 30 {
        let mut s = "\n... and ".to_owned();
        let n = usize_to_string(files.len() - 30);
        s.append(n.as_str());
        s.append(" more files");
        proof {
            assert(s@ =~= extra_spec(files.deep_view()));
        }
        s
    } else {
        String::new()
    }
}

/// The capped excerpt of one file's patch text.
pub open spec fn excerpt_body(diff: Seq<char>) -> Seq<char> {
    if diff.len() > 2200 {
        diff.take(2200) + "\n...[truncated]"@
    } else {
        diff
    }
}

/// The heading of one patch excerpt.
pub open spec fn excerpt_title(f: FileInfoV) -> Seq<char> {
    match f.old_path {
        Some(o) => "--- "@ + f.path + " (renamed from "@ + o + ")\n"@,
        None => "--- "@ + f.path + "\n"@,
    }
}

/// One patch excerpt: heading plus capped body.
pub open spec fn excerpt_entry(f: FileInfoV) -> Seq<char> {
    excerpt_title(f) + excerpt_body(f.diff)
}

/// The excerpts that fit the total budget of 14000 characters, given that
/// `used` characters are already spent: files without patch text are
/// skipped; the excerpt that overflows the budget is cut to the remainder
/// and ends the list.
pub open spec fn patches_rec(files: Seq<FileInfoV>, used: int) -> Seq<Seq<char>>
    decreases files.len(),
{
    if files.len() == 0 {
        Seq::<Seq<char>>::empty()
    } else if files[0].diff.len() == 0 {
        patches_rec(files.drop_first(), used)
    } else {
        let entry = excerpt_entry(files[0]);
        if used + entry.len() > 14000 {
            if 14000 - used <= 0 {
                Seq::<Seq<char>>::empty()
            } else {
                seq![entry.take(14000 - used) + "\n...[truncated]"@]
            }
        } else {
            seq![entry] + patches_rec(files.drop_first(), used + entry.len())
        }
    }
}

/// The patch-excerpt section of the user prompt, or nothing when no file has
/// patch text.
pub open spec fn patch_context_spec(files: Seq<FileInfoV>) -> Seq<char> {
    let ps = patches_rec(files, 0);
    if ps.len() == 0 {
        Seq::<char>::empty()
    } else {
        "\n\nStaged patch excerpts:\n"@ + join_with(ps, "\n\n"@)
    }
}

/// Renders the patch excerpts under the total character budget.
pub fn build_patch_context(files: &Vec<FileInfo>) -> (r: String)
    ensures
        r@ == patch_context_spec(files.deep_view()),
{
    let ghost fv = files.deep_view();
    let mut used: usize = 0;
    let mut patches: Vec<String> = Vec::new();
    let mut i: usize = 0;
    let mut stopped: bool = false;
    proof {
        assert(fv.skip(0) =~= fv);
        assert(patches.deep_view() + patches_rec(fv, 0) =~= patches_rec(fv, 0));
    }
    while i < files.len() && !stopped
        invariant
            0 <= i <= files.len(),
            fv == files.deep_view(),
            used <= 14000,
            !stopped ==> patches_rec(fv, 0) == patches.deep_view() + patches_rec(
                fv.skip(i as int),
                used as int,
            ),
            stopped ==> patches_rec(fv, 0) == patches.deep_view(),
        decreases files.len() - i,
    {
        let f = &files[i];
        proof {
            assert(fv.skip(i as int).drop_first() =~= fv.skip(i + 1));
            assert(fv.skip(i as int)[0] == fv[i as int]);
        }
        if f.diff.as_str().unicode_len() > 0 {
            let mut entry: String = match &f.old_path {
                Some(o) => {
                    let mut t = "--- ".to_owned();
                    t.append(f.path.as_str());
                    t.append(" (renamed from ");
                    t.append(o.as_str());
                    t.append(")\n");
                    t
                },
                None => {
                    let mut t = "--- ".to_owned();
                    t.append(f.path.as_str());
                    t.append("\n");
                    t
                },
            };
            proof {
                assert(entry@ =~= excerpt_title(fv[i as int]));
            }
            let dlen: usize = f.diff.as_str().unicode_len();
            if dlen > 2200 {
                entry.append(f.diff.as_str().substring_char(0, 2200));
                entry.append("\n...[truncated]");
            } else {
                entry.append(f.diff.as_str());
            }
            proof {
                assert(entry@ =~= excerpt_entry(fv[i as int]));
            }
            let entry_len: usize = entry.as_str().unicode_len();
            if entry_len > 14000 - used {
                let remaining: usize = 14000 - used;
                if remaining > 0 {
                    let mut cut = entry.as_str().substring_char(0, remaining).to_owned();
                    cut.append("\n...[truncated]");
                    proof {
                        assert(cut@ =~= excerpt_entry(fv[i as int]).take(
                            14000 - used as int,
                        ) + "\n...[truncated]"@);
                    }
                    patches.push(cut);
                    proof {
                        assert(patches_rec(fv.skip(i as int), used as int) =~= seq![cut@]);
                        assert(patches.deep_view() =~= patches_rec(fv, 0));
                    }
                } else {
                    proof {
                        assert(patches_rec(fv.skip(i as int), used as int)
                            =~= Seq::<Seq<char>>::empty());
                        assert(patches.deep_view() + Seq::<Seq<char>>::empty()
                            =~= patches.deep_view());
                    }
                }
                stopped = true;
            } else {
                let ghost patches_before = patches.deep_view();
                patches.push(entry);
                used = used + entry_len;
                proof {
                    assert(patches_before + (seq![excerpt_entry(fv[i as int])] + patches_rec(
                        fv.skip(i + 1),
                        used as int,
                    )) =~= patches.deep_view() + patches_rec(fv.skip(i + 1), used as int));
                }
            }
        }
        i += 1;
    }
    proof {
        if !stopped {
            assert(fv.skip(fv.len() as int) =~= Seq::<FileInfoV>::empty());
            assert(patches.deep_view() + Seq::<Seq<char>>::empty() =~= patches.deep_view());
        }
    }
    if patches.len() == 0 {
        String::new()
    } else {
        let mut r = "\n\nStaged patch excerpts:\n".to_owned();
        let joined = join_strings(&patches, "\n\n");
        r.append(joined.as_str());
        r
    }
}

/// The fixed instruction text sent as the system prompt.
pub const SYSTEM_PROMPT: &'static str = "Output ONLY a commit message. No markdown. No code blocks. No explanations. No preamble.

Generate a conventional commit message with this exact format:

<type>[SCOPE]: <summary>

<body paragraph>

Rules:
- type: feat, fix, refactor, docs, test, chore, perf, ci, build, style, or revert
- SCOPE: UPPERCASE module name from file paths (e.g., AUTH, API, DB, TUI, CORE)
- summary: imperative mood, max 50 chars, describe what changed (no period)
- body: single paragraph, explain WHAT and WHY, reference affected components

Examples:

feat[AUTH]: add OAuth2 login flow

Implement Google OAuth2 provider with JWT token generation and session management. Update auth middleware to validate tokens and handle refresh flows.

fix[API]: resolve null pointer in user handler

Add null check before accessing user preferences in profile endpoint. Prevents crash when user record exists but preferences not initialized.";

/// The whole user prompt as a function of the branch and the files.
pub open spec fn user_prompt_spec(branch: Seq<char>, files: Seq<FileInfoV>) -> Seq<char> {
    "Branch: "@ + branch + "\n\nFiles changed ("@ + dec_seq(files.len()) + "):\n"@
        + file_list_spec(files) + extra_spec(files) + "\n\nChange tree:\n"@ + change_tree_spec(
        files,
    )
        + "\n\nUse this staged diff context (including renames/moves) to generate the exact commit message.\n\nGenerate a commit message."@
        + patch_context_spec(files)
}

/// Renders the user prompt for one staged-change summary. The result is a
/// pure function of the branch name and the file list: identical inputs give
/// byte-identical output.
pub fn build_user_prompt(branch: &str, files: &Vec<FileInfo>) -> (r: String)
    ensures
        r@ == user_prompt_spec(branch@, files.deep_view()),
{
    let mut r = "Branch: ".to_owned();
    r.append(branch);
    r.append("\n\nFiles changed (");
    let n = usize_to_string(files.len());
    r.append(n.as_str());
    r.append("):\n");
    let list = build_file_list(files);
    r.append(list.as_str());
    let extra = build_extra(files);
    r.append(extra.as_str());
    r.append("\n\nChange tree:\n");
    let tree = build_change_tree(files);
    r.append(tree.as_str());
    r.append(
        "\n\nUse this staged diff context (including renames/moves) to generate the exact commit message.\n\nGenerate a commit message.",
    );
    let hint = build_patch_context(files);
    r.append(hint.as_str());
    proof {
        assert(r@ =~= user_prompt_spec(branch@, files.deep_view()));
    }
    r
}

} // verus!
