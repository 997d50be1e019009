//! The message sanitizer: turns raw provider output into a commit title and
//! an optional short body. Control characters are stripped, markdown fences
//! and comment lines are dropped, the title is capped at 72 characters, and
//! the body keeps at most three lines, each longer than ten characters. When
//! nothing usable remains a fixed fallback title is returned; this component
//! never fails.

use vstd::prelude::*;
use crate::text::is_ctrl_char;
use crate::text::check_ctrl_char;
use crate::text::trim_spec;
use crate::text::split_on;
use crate::text::split_str;
use crate::text::str_trim;
use crate::text::str_has_prefix;
use crate::text::has_prefix;
use crate::text::join_with;
use crate::text::join_strings;

verus! {

/// Whether a character survives the control-character strip: everything that
/// is not a control character, plus the newline.
pub open spec fn keep_in_clean(c: char) -> bool {
    !is_ctrl_char(c) || c == '\n'
}

/// The input with control characters other than newline removed.
pub open spec fn cleaned_spec(s: Seq<char>) -> Seq<char>
    decreases s.len(),
{
    if s.len() == 0 {
        Seq::<char>::empty()
    } else if keep_in_clean(s.last()) {
        cleaned_spec(s.drop_last()).push(s.last())
    } else {
        cleaned_spec(s.drop_last())
    }
}

/// Whether a trimmed line is kept: non-empty, no comment marker, no code
/// fence.
pub open spec fn is_kept_line(l: Seq<char>) -> bool {
    l.len() > 0 && l[0] != '#' && !has_prefix(l, "```"@)
}

/// Each line trimmed of surrounding white space.
pub open spec fn trim_all(ls: Seq<Seq<char>>) -> Seq<Seq<char>> {
    ls.map_values(|l: Seq<char>| trim_spec(l))
}

/// The lines that pass the keep filter, in order.
pub open spec fn filter_kept(ls: Seq<Seq<char>>) -> Seq<Seq<char>>
    decreases ls.len(),
{
    if ls.len() == 0 {
        Seq::<Seq<char>>::empty()
    } else {
        let rest = filter_kept(ls.drop_last());
        if is_kept_line(ls.last()) {
            rest.push(ls.last())
        } else {
            rest
        }
    }
}

/// The trimmed, filtered lines of the cleaned input.
pub open spec fn kept_lines_spec(s: Seq<char>) -> Seq<Seq<char>> {
    filter_kept(trim_all(split_on(cleaned_spec(s), '\n')))
}

/// The lines longer than ten characters, in order.
pub open spec fn filter_long(ls: Seq<Seq<char>>) -> Seq<Seq<char>>
    decreases ls.len(),
{
    if ls.len() == 0 {
        Seq::<Seq<char>>::empty()
    } else {
        let rest = filter_long(ls.drop_last());
        if ls.last().len() > 10 {
            rest.push(ls.last())
        } else {
            rest
        }
    }
}

/// The fixed title used when no usable line remains.
pub open spec fn fallback_title_spec() -> Seq<char> {
    "chore: update files"@
}

/// The commit title derived from the raw provider output: the first kept
/// line, capped at 72 characters, or the fallback.
pub open spec fn title_spec(s: Seq<char>) -> Seq<char> {
    let kept = kept_lines_spec(s);
    if kept.len() == 0 {
        fallback_title_spec()
    } else if kept[0].len() <= 72 {
        kept[0]
    } else {
        kept[0].take(72)
    }
}

/// The body lines: of the kept lines after the first, those longer than ten
/// characters, at most three.
pub open spec fn body_lines_spec(s: Seq<char>) -> Seq<Seq<char>> {
    let kept = kept_lines_spec(s);
    if kept.len() == 0 {
        Seq::<Seq<char>>::empty()
    } else {
        let cands = filter_long(kept.drop_first());
        if cands.len() <= 3 {
            cands
        } else {
            cands.take(3)
        }
    }
}

/// The commit body: the body lines joined with newlines, or nothing.
pub open spec fn body_spec(s: Seq<char>) -> Option<Seq<char>> {
    if body_lines_spec(s).len() == 0 {
        None
    } else {
        Some(join_with(body_lines_spec(s), "\n"@))
    }
}

/// Derives a commit title and optional body from raw provider output.
pub fn sanitize_message(raw: &str) -> (r: (String, Option<String>))
    ensures
        r.0@ == title_spec(raw@),
        r.1.deep_view() == body_spec(raw@),
        r.0@.len() <= 72,
{
    let rawlen: usize = raw.unicode_len();
    let mut cleaned = String::new();
    let mut i: usize = 0;
    proof {
        assert(cleaned@ =~= cleaned_spec(raw@.take(0)));
    }
    while i < rawlen
        invariant
            0 <= i <= rawlen,
            rawlen == raw@.len(),
            cleaned@ == cleaned_spec(raw@.take(i as int)),
        decreases rawlen - i,
    {
        let c = raw.get_char(i);
        proof {
            assert(raw@.take(i + 1).drop_last() =~= raw@.take(i as int));
            assert(raw@.take(i + 1).last() == raw@[i as int]);
        }
        if !check_ctrl_char(c) || c == '\n' {
            cleaned.push(c);
        }
        i += 1;
    }
    proof {
        assert(raw@.take(rawlen as int) =~= raw@);
    }

    let lines: Vec<String> = split_str(cleaned.as_str(), '\n');
    let mut kept: Vec<String> = Vec::new();
    let mut j: usize = 0;
    proof {
        assert(trim_all(lines.deep_view().take(0)) =~= Seq::<Seq<char>>::empty());
        assert(kept.deep_view() =~= filter_kept(trim_all(lines.deep_view().take(0))));
    }
    while j < lines.len()
        invariant
            0 <= j <= lines.len(),
            kept.deep_view() == filter_kept(trim_all(lines.deep_view().take(j as int))),
        decreases lines.len() - j,
    {
        let t = str_trim(lines[j].as_str());
        let tlen: usize = t.unicode_len();
        let keep_it: bool = tlen > 0 && t.get_char(0) != '#' && !str_has_prefix(t, "```");
        proof {
            let lv = lines.deep_view();
            assert(trim_all(lv.take(j + 1)) =~= trim_all(lv.take(j as int)).push(
                trim_spec(lv[j as int]),
            ));
            assert(trim_all(lv.take(j + 1)).drop_last() =~= trim_all(lv.take(j as int)));
            assert(lv[j as int] == lines[j as int]@);
            assert(keep_it == is_kept_line(t@));
        }
        if keep_it {
            kept.push(t.to_owned());
            proof {
                assert(kept.deep_view() =~= filter_kept(
                    trim_all(lines.deep_view().take(j + 1)),
                ));
            }
        }
        j += 1;
    }
    proof {
        let lv = lines.deep_view();
        assert(lv.take(lv.len() as int) =~= lv);
        assert(kept.deep_view() == kept_lines_spec(raw@));
    }

    if kept.len() == 0 {
        let title = "chore: update files".to_owned();
        proof {
            reveal_strlit("chore: update files");
            assert(title@.len() <= 72);
        }
        return (title, None);
    }

    let first: &String = &kept[0];
    let firstlen: usize = first.as_str().unicode_len();
    let title: String = if firstlen > 72 {
        first.as_str().substring_char(0, 72).to_owned()
    } else {
        first.clone()
    };

    let mut body_lines: Vec<String> = Vec::new();
    let mut k: usize = 1;
    proof {
        let kv = kept.deep_view();
        assert(kv.drop_first().take(0) =~= Seq::<Seq<char>>::empty());
        assert(body_lines.deep_view() =~= filter_long(kv.drop_first().take(0)));
    }
    while k < kept.len()
        invariant
            1 <= k <= kept.len(),
            body_lines.deep_view() == filter_long(kept.deep_view().drop_first().take(k - 1)),
        decreases kept.len() - k,
    {
        let cand: &String = &kept[k];
        let clen: usize = cand.as_str().unicode_len();
        proof {
            let rest = kept.deep_view().drop_first();
            assert(rest.take(k as int) =~= rest.take(k - 1).push(rest[k - 1]));
            assert(rest.take(k as int).drop_last() =~= rest.take(k - 1));
            assert(rest[k - 1] == kept[k as int]@);
        }
        if clen > 10 {
            body_lines.push(cand.clone());
            proof {
                assert(body_lines.deep_view() =~= filter_long(
                    kept.deep_view().drop_first().take(k as int),
                ));
            }
        }
        k += 1;
    }
    proof {
        let rest = kept.deep_view().drop_first();
        assert(rest.take(rest.len() as int) =~= rest);
    }
    if body_lines.len() > 3 {
        body_lines.truncate(3);
        proof {
            assert(body_lines.deep_view() =~= body_lines_spec(raw@));
        }
    }
    proof {
        assert(body_lines.deep_view() =~= body_lines_spec(raw@));
    }

    let body: Option<String> = if body_lines.len() == 0 {
        None
    } else {
        Some(join_strings(&body_lines, "\n"))
    };
    (title, body)
}

/// Parses raw provider output into a commit title and optional body.
pub fn parse_commit_message(raw: &str) -> (r: (String, Option<String>))
    ensures
        r.0@ == title_spec(raw@),
        r.1.deep_view() == body_spec(raw@),
        r.0@.len() <= 72,
{
    sanitize_message(raw)
}

/// Every character the clean step keeps from an all-control input is a
/// newline.
proof fn lemma_cleaned_of_controls(s: Seq<char>)
    requires
        forall|i: int| 0 <= i < s.len() ==> is_ctrl_char(s[i]),
    ensures
        forall|i: int| 0 <= i < cleaned_spec(s).len() ==> cleaned_spec(s)[i] == '\n',
    decreases s.len(),
{
    if s.len() > 0 {
        assert(forall|i: int| 0 <= i < s.drop_last().len() ==> is_ctrl_char(s.drop_last()[i]));
        lemma_cleaned_of_controls(s.drop_last());
        assert(is_ctrl_char(s.last()));
        let c = cleaned_spec(s);
        let p = cleaned_spec(s.drop_last());
        assert forall|i: int| 0 <= i < c.len() implies c[i] == '\n' by {
            if keep_in_clean(s.last()) {
                if i < p.len() {
                    assert(c[i] == p[i]);
                } else {
                    assert(c[i] == s.last());
                    assert(s.last() == '\n');
                }
            } else {
                assert(c[i] == p[i]);
            }
        }
    }
}

/// Splitting a sequence of separators yields only empty parts.
proof fn lemma_split_all_sep(s: Seq<char>, sep: char)
    requires
        forall|i: int| 0 <= i < s.len() ==> s[i] == sep,
    ensures
        forall|i: int| 0 <= i < split_on(s, sep).len() ==> split_on(s, sep)[i].len() == 0,
    decreases s.len(),
{
    if s.len() > 0 {
        assert(forall|i: int| 0 <= i < s.drop_last().len() ==> s.drop_last()[i] == sep);
        lemma_split_all_sep(s.drop_last(), sep);
        assert(s.last() == sep);
        let r = split_on(s, sep);
        let p = split_on(s.drop_last(), sep);
        assert(r == p.push(Seq::<char>::empty()));
        assert forall|i: int| 0 <= i < r.len() implies r[i].len() == 0 by {
            if i < p.len() {
                assert(r[i] == p[i]);
            } else {
                assert(r[i] == Seq::<char>::empty());
            }
        }
    }
}

/// Filtering lines that are all empty after trimming keeps nothing.
proof fn lemma_filter_kept_all_empty(ls: Seq<Seq<char>>)
    requires
        forall|i: int| 0 <= i < ls.len() ==> ls[i].len() == 0,
    ensures
        filter_kept(trim_all(ls)) == Seq::<Seq<char>>::empty(),
    decreases ls.len(),
{
    if ls.len() > 0 {
        assert(forall|i: int| 0 <= i < ls.drop_last().len() ==> ls.drop_last()[i].len() == 0);
        lemma_filter_kept_all_empty(ls.drop_last());
        assert(trim_all(ls).drop_last() =~= trim_all(ls.drop_last()));
        assert(trim_all(ls).last() == trim_spec(ls.last()));
        assert(ls.last() =~= Seq::<char>::empty());
        assert(trim_spec(ls.last()).len() == 0);
        assert(!is_kept_line(trim_all(ls).last()));
    }
}

/// An input that is empty or holds only control characters falls back to the
/// fixed title, with no body.
pub proof fn lemma_sanitize_control_only_falls_back(raw: Seq<char>)
    requires
        forall|i: int| 0 <= i < raw.len() ==> is_ctrl_char(raw[i]),
    ensures
        title_spec(raw) == fallback_title_spec(),
        body_spec(raw) is None,
{
    lemma_cleaned_of_controls(raw);
    lemma_split_all_sep(cleaned_spec(raw), '\n');
    lemma_filter_kept_all_empty(split_on(cleaned_spec(raw), '\n'));
}

/// The derived title never exceeds 72 characters, whatever the input.
pub proof fn lemma_title_at_most_72(raw: Seq<char>)
    ensures
        title_spec(raw).len() <= 72,
{
    reveal_strlit("chore: update files");
}

/// Every line the long filter keeps is longer than ten characters.
proof fn lemma_filter_long_all_long(ls: Seq<Seq<char>>)
    ensures
        forall|i: int|
            0 <= i < filter_long(ls).len() ==> #[trigger] filter_long(ls)[i].len() > 10,
    decreases ls.len(),
{
    if ls.len() > 0 {
        lemma_filter_long_all_long(ls.drop_last());
        let r = filter_long(ls);
        let p = filter_long(ls.drop_last());
        assert forall|i: int| 0 <= i < r.len() implies r[i].len() > 10 by {
            if ls.last().len() > 10 {
                if i < p.len() {
                    assert(r[i] == p[i]);
                } else {
                    assert(r[i] == ls.last());
                }
            } else {
                assert(r[i] == p[i]);
            }
        }
    }
}

/// The body never has more than three lines, and each of them is longer than
/// ten characters as it stood before joining.
pub proof fn lemma_body_lines_bounded(raw: Seq<char>)
    ensures
        body_lines_spec(raw).len() <= 3,
        forall|i: int|
            0 <= i < body_lines_spec(raw).len() ==> #[trigger] body_lines_spec(raw)[i].len()
                > 10,
        body_spec(raw) is Some ==> body_lines_spec(raw).len() >= 1,
{
    let kept = kept_lines_spec(raw);
    if kept.len() > 0 {
        lemma_filter_long_all_long(kept.drop_first());
    }
}

} // verus!
