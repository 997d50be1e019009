//! The change-summary extractor logic: folds the plain per-file and per-line
//! records of a staged diff (index against last commit) into the structured
//! file list, and forms the staged-change snapshot. Reading the repository
//! itself is the embedding program's job; this module only computes, so the
//! summary is a function of the handed-in records alone.

use vstd::prelude::*;
use crate::error::YetiError;
use crate::prompt::FileInfo;
use crate::prompt::FileInfoV;
use crate::prompt::FileStatus;
use crate::text::str_eq_str;

verus! {

/// The raw change kind of one diff entry, as the repository backend reports
/// it.
#[derive(Debug, Clone, Copy, PartialEq, Eq, Structural)]
pub enum DeltaKind {
    Added,
    Deleted,
    Renamed,
    Other,
}

/// One per-file entry of the staged diff.
#[derive(Debug, Clone)]
pub struct DeltaRecord {
    pub path: String,
    pub kind: DeltaKind,
    pub old_path: Option<String>,
}

/// The mathematical value of a [`DeltaRecord`].
pub ghost struct DeltaRecordV {
    pub path: Seq<char>,
    pub kind: DeltaKind,
    pub old_path: Option<Seq<char>>,
}

impl View for DeltaRecord {
    type V = DeltaRecordV;

    open spec fn view(&self) -> DeltaRecordV {
        DeltaRecordV {
            path: self.path@,
            kind: self.kind,
            old_path: match self.old_path {
                Some(p) => Some(p@),
                None => None,
            },
        }
    }
}

impl DeepView for DeltaRecord {
    type V = DeltaRecordV;

    open spec fn deep_view(&self) -> DeltaRecordV {
        self.view()
    }
}

/// One patch line of the staged diff: the file it belongs to, its origin
/// marker and its text.
#[derive(Debug, Clone)]
pub struct LineRecord {
    pub path: String,
    pub origin: char,
    pub content: String,
}

/// The mathematical value of a [`LineRecord`].
pub ghost struct LineRecordV {
    pub path: Seq<char>,
    pub origin: char,
    pub content: Seq<char>,
}

impl View for LineRecord {
    type V = LineRecordV;

    open spec fn view(&self) -> LineRecordV {
        LineRecordV { path: self.path@, origin: self.origin, content: self.content@ }
    }
}

impl DeepView for LineRecord {
    type V = LineRecordV;

    open spec fn deep_view(&self) -> LineRecordV {
        self.view()
    }
}

/// The staged-change snapshot of one pipeline run.
#[derive(Debug, Clone)]
pub struct StagedSummary {
    pub branch: String,
    pub files: Vec<FileInfo>,
}

/// The mathematical value of a [`StagedSummary`].
pub ghost struct StagedSummaryV {
    pub branch: Seq<char>,
    pub files: Seq<FileInfoV>,
}

impl View for StagedSummary {
    type V = StagedSummaryV;

    open spec fn view(&self) -> StagedSummaryV {
        StagedSummaryV { branch: self.branch@, files: self.files.deep_view() }
    }
}

impl DeepView for StagedSummary {
    type V = StagedSummaryV;

    open spec fn deep_view(&self) -> StagedSummaryV {
        self.view()
    }
}

/// How a raw change kind is classified: anything that is not an addition, a
/// deletion or a rename counts as a modification.
pub open spec fn status_of_kind(k: DeltaKind) -> FileStatus {
    match k {
        DeltaKind::Added => FileStatus::Added,
        DeltaKind::Deleted => FileStatus::Deleted,
        DeltaKind::Renamed => FileStatus::Renamed,
        DeltaKind::Other => FileStatus::Modified,
    }
}

/// The file entry a delta record starts with: zero counts, empty excerpt,
/// and a pre-rename path exactly when the change is a rename.
pub open spec fn initial_file(d: DeltaRecordV) -> FileInfoV {
    FileInfoV {
        path: d.path,
        additions: 0,
        deletions: 0,
        diff: Seq::<char>::empty(),
        status: status_of_kind(d.kind),
        old_path: if d.kind is Renamed {
            d.old_path
        } else {
            None
        },
    }
}

/// The file entries before any patch line is applied.
pub open spec fn initial_files(ds: Seq<DeltaRecordV>) -> Seq<FileInfoV> {
    ds.map_values(|d: DeltaRecordV| initial_file(d))
}

/// The index of the last file entry with the given path, or -1.
pub open spec fn find_file(files: Seq<FileInfoV>, path: Seq<char>) -> int
    decreases files.len(),
{
    if files.len() == 0 {
        -1
    } else if files.last().path == path {
        files.len() - 1
    } else {
        find_file(files.drop_last(), path)
    }
}

/// One patch line folded into the file entries: it counts toward additions
/// or deletions by its origin marker, and its text is appended to the file's
/// excerpt while that excerpt is under 3000 characters. A line whose path
/// matches no entry changes nothing.
pub open spec fn apply_line(files: Seq<FileInfoV>, l: LineRecordV) -> Seq<FileInfoV> {
    let idx = find_file(files, l.path);
    if idx < 0 {
        files
    } else {
        let f = files[idx];
        let f1 = FileInfoV {
            additions: if l.origin == '+' {
                f.additions + 1
            } else {
                f.additions
            },
            deletions: if l.origin == '-' {
                f.deletions + 1
            } else {
                f.deletions
            },
            ..f
        };
        let f2 = FileInfoV {
            diff: if f1.diff.len() < 3000 {
                f1.diff.push(l.origin) + l.content
            } else {
                f1.diff
            },
            ..f1
        };
        files.update(idx, f2)
    }
}

/// All patch lines folded in, in order.
pub open spec fn apply_lines(files: Seq<FileInfoV>, ls: Seq<LineRecordV>) -> Seq<FileInfoV>
    decreases ls.len(),
{
    if ls.len() == 0 {
        files
    } else {
        apply_line(apply_lines(files, ls.drop_last()), ls.last())
    }
}

/// The assembled file list of a staged diff.
pub open spec fn assemble_spec(ds: Seq<DeltaRecordV>, ls: Seq<LineRecordV>) -> Seq<FileInfoV> {
    apply_lines(initial_files(ds), ls)
}

/// Folds the per-file and per-line records of a staged diff into the
/// structured file list.
pub fn assemble_staged_files(deltas: &Vec<DeltaRecord>, lines: &Vec<LineRecord>) -> (files: Vec<
    FileInfo,
>)
    ensures
        files.deep_view() == assemble_spec(deltas.deep_view(), lines.deep_view()),
{
    let ghost dv = deltas.deep_view();
    let ghost lv = lines.deep_view();
    let mut files: Vec<FileInfo> = Vec::new();
    let mut i: usize = 0;
    proof {
        assert(files.deep_view() =~= initial_files(dv.take(0)));
    }
    while i < deltas.len()
        invariant
            0 <= i <= deltas.len(),
            dv == deltas.deep_view(),
            files.deep_view() == initial_files(dv.take(i as int)),
        decreases deltas.len() - i,
    {
        let d = &deltas[i];
        let status = match d.kind {
            DeltaKind::Added => FileStatus::Added,
            DeltaKind::Deleted => FileStatus::Deleted,
            DeltaKind::Renamed => FileStatus::Renamed,
            DeltaKind::Other => FileStatus::Modified,
        };
        let old_path: Option<String> = match d.kind {
            DeltaKind::Renamed => match &d.old_path {
                Some(p) => Some(p.clone()),
                None => None,
            },
            _ => None,
        };
        files.push(
            FileInfo {
                path: d.path.clone(),
                additions: 0,
                deletions: 0,
                diff: String::new(),
                status,
                old_path,
            },
        );
        proof {
            assert(initial_files(dv.take(i + 1)) =~= initial_files(dv.take(i as int)).push(
                initial_file(dv[i as int]),
            ));
            assert(files.deep_view() =~= initial_files(dv.take(i + 1)));
        }
        i += 1;
    }
    proof {
        assert(dv.take(dv.len() as int) =~= dv);
    }

    let mut j: usize = 0;
    while j < lines.len()
        invariant
            0 <= j <= lines.len(),
            lv == lines.deep_view(),
            files.deep_view() == apply_lines(initial_files(deltas.deep_view()), lv.take(
                j as int,
            )),
            forall|m: int|
                0 <= m < files.deep_view().len() ==> (#[trigger] files.deep_view()[m]).additions
                    <= j && files.deep_view()[m].deletions <= j,
        decreases lines.len() - j,
    {
        let ghost before = files.deep_view();
        proof {
            assert(lv.take(j + 1).drop_last() =~= lv.take(j as int));
            assert(lv.take(j + 1).last() == lv[j as int]);
            assert(before.take(before.len() as int) =~= before);
        }

        let mut k: usize = files.len();
        let mut found: bool = false;
        let mut idx: usize = 0;
        while k > 0 && !found
            invariant
                0 <= k <= files.len(),
                0 <= j < lines.len(),
                lv == lines.deep_view(),
                before == files.deep_view(),
                !found ==> find_file(before, lv[j as int].path) == find_file(
                    before.take(k as int),
                    lv[j as int].path,
                ),
                found ==> 0 <= idx < files.len() && find_file(before, lv[j as int].path)
                    == idx as int,
            decreases k + (if found {
                0int
            } else {
                1int
            }),
        {
            proof {
                assert(before[k - 1] == files[k - 1]@);
                assert(lv[j as int].path == lines[j as int]@.path);
            }
            if str_eq_str(files[k - 1].path.as_str(), lines[j].path.as_str()) {
                idx = k - 1;
                found = true;
                proof {
                    assert(before.take(k as int).last() == before[k - 1]);
                    assert(before.take(k as int).last().path == lv[j as int].path);
                    assert(find_file(before.take(k as int), lv[j as int].path) == k - 1);
                }
            } else {
                proof {
                    assert(before.take(k as int).last() == before[k - 1]);
                    assert(before.take(k as int).last().path != lv[j as int].path);
                    assert(before.take(k as int).drop_last() =~= before.take(k - 1));
                }
                k -= 1;
            }
        }
        if !found {
            proof {
                assert(before.take(0) =~= Seq::<FileInfoV>::empty());
                assert(find_file(before, lv[j as int].path) == -1);
                assert(apply_line(before, lv[j as int]) == before);
            }
        } else {
            proof {
                assert(before[idx as int] == files[idx as int]@);
                assert(before[idx as int].additions <= j && before[idx as int].deletions <= j);
            }
            let f = &files[idx];
            let l_origin: char = lines[j].origin;
            let new_additions: usize = if l_origin == '+' {
                f.additions + 1
            } else {
                f.additions
            };
            let new_deletions: usize = if l_origin == '-' {
                f.deletions + 1
            } else {
                f.deletions
            };
            let new_diff: String = if f.diff.as_str().unicode_len() < 3000 {
                let mut nd = f.diff.clone();
                nd.push(l_origin);
                nd.append(lines[j].content.as_str());
                nd
            } else {
                f.diff.clone()
            };
            let updated = FileInfo {
                path: f.path.clone(),
                additions: new_additions,
                deletions: new_deletions,
                diff: new_diff,
                status: f.status,
                old_path: match &f.old_path {
                    Some(p) => Some(p.clone()),
                    None => None,
                },
            };
            files[idx] = updated;
            proof {
                assert(files.deep_view() =~= apply_line(before, lv[j as int]));
            }
        }
        j += 1;
    }
    proof {
        assert(lv.take(lv.len() as int) =~= lv);
    }
    files
}

/// Forms the staged-change snapshot: a non-empty file list with the branch
/// name, or the no-changes error when nothing is staged.
pub fn build_staged_summary(branch: String, files: Vec<FileInfo>) -> (r: Result<
    StagedSummary,
    YetiError,
>)
    ensures
        files@.len() == 0 <==> (r is Err),
        r is Err ==> r->Err_0 is NoChangesToCommit,
        r is Ok ==> r->Ok_0@.branch == branch@ && r->Ok_0@.files == files.deep_view(),
{
    if files.len() == 0 {
        Err(YetiError::NoChangesToCommit)
    } else {
        Ok(StagedSummary { branch, files })
    }
}

/// The failure text of a repository operation run outside: the error stream
/// when it said anything, else the output stream, else the fixed fallback.
pub open spec fn process_failure_spec(
    stderr_text: Seq<char>,
    stdout_text: Seq<char>,
    fallback: Seq<char>,
) -> Seq<char> {
    if stderr_text.len() > 0 {
        stderr_text
    } else if stdout_text.len() > 0 {
        stdout_text
    } else {
        fallback
    }
}

/// Picks the failure text of a repository operation from its two output
/// streams.
pub fn process_failure_message(stderr_text: String, stdout_text: String, fallback: &str) -> (r:
    String)
    ensures
        r@ == process_failure_spec(stderr_text@, stdout_text@, fallback@),
{
    if stderr_text.as_str().unicode_len() > 0 {
        stderr_text
    } else if stdout_text.as_str().unicode_len() > 0 {
        stdout_text
    } else {
        fallback.to_owned()
    }
}

} // verus!
