//! Shared text primitives: decimal rendering of integers, joining and
//! splitting of character sequences, trimming, prefix tests and substring
//! search. Everything here is stated over `Seq<char>` views.

use vstd::prelude::*;

verus! {

/// Relies on `String::push` from std: appends the given character to the end
/// of the string.
pub assume_specification[ String::push ](s: &mut String, ch: char)
    ensures
        final(s)@ == old(s)@.push(ch),
;

/// The character for one decimal digit.
pub open spec fn dec_digit(d: nat) -> char {
    if d == 0 {
        '0'
    } else if d == 1 {
        '1'
    } else if d == 2 {
        '2'
    } else if d == 3 {
        '3'
    } else if d == 4 {
        '4'
    } else if d == 5 {
        '5'
    } else if d == 6 {
        '6'
    } else if d == 7 {
        '7'
    } else if d == 8 {
        '8'
    } else {
        '9'
    }
}

/// The usual decimal rendering of a natural number, without leading zeros
/// (except for the number zero itself).
pub open spec fn dec_seq(n: nat) -> Seq<char>
    decreases n,
{
    if n < 10 {
        seq![dec_digit(n)]
    } else {
        dec_seq(n / 10).push(dec_digit(n % 10))
    }
}

fn digit_str(d: usize) -> (s: &'static str)
    requires
        d < 10,
    ensures
        s@ =~= seq![dec_digit(d as nat)],
{
    proof {
        reveal_strlit("0");
        reveal_strlit("1");
        reveal_strlit("2");
        reveal_strlit("3");
        reveal_strlit("4");
        reveal_strlit("5");
        reveal_strlit("6");
        reveal_strlit("7");
        reveal_strlit("8");
        reveal_strlit("9");
    }
    if d == 0 {
        "0"
    } else if d == 1 {
        "1"
    } else if d == 2 {
        "2"
    } else if d == 3 {
        "3"
    } else if d == 4 {
        "4"
    } else if d == 5 {
        "5"
    } else if d == 6 {
        "6"
    } else if d == 7 {
        "7"
    } else if d == 8 {
        "8"
    } else {
        "9"
    }
}

/// Renders a machine integer in decimal.
pub fn usize_to_string(n: usize) -> (s: String)
    ensures
        s@ == dec_seq(n as nat),
    decreases n,
{
    if n < 10 {
        digit_str(n).to_owned()
    } else {
        let mut s = usize_to_string(n / 10);
        s.append(digit_str(n % 10));
        proof {
            assert(s@ =~= dec_seq(n as nat));
        }
        s
    }
}

/// Whether a character is a control character (the Unicode `Cc` category).
pub open spec fn is_ctrl_char(c: char) -> bool {
    (c as u32) < 0x20 || (0x7f <= (c as u32) && (c as u32) <= 0x9f)
}

/// Runtime test for [`is_ctrl_char`].
pub fn check_ctrl_char(c: char) -> (r: bool)
    ensures
        r == is_ctrl_char(c),
{
    let u: u32 = c as u32;
    u < 0x20 || (0x7f <= u && u <= 0x9f)
}

/// Whether a character has the Unicode `White_Space` property.
pub open spec fn is_space_char(c: char) -> bool {
    let u = c as u32;
    u == 0x20 || (0x9 <= u && u <= 0xd) || u == 0x85 || u == 0xa0 || u == 0x1680 || (0x2000 <= u
        && u <= 0x200a) || u == 0x2028 || u == 0x2029 || u == 0x202f || u == 0x205f || u == 0x3000
}

/// Runtime test for [`is_space_char`].
pub fn check_space_char(c: char) -> (r: bool)
    ensures
        r == is_space_char(c),
{
    let u: u32 = c as u32;
    u == 0x20 || (0x9 <= u && u <= 0xd) || u == 0x85 || u == 0xa0 || u == 0x1680 || (0x2000 <= u
        && u <= 0x200a) || u == 0x2028 || u == 0x2029 || u == 0x202f || u == 0x205f || u == 0x3000
}

/// Whether `p` is a prefix of `s`.
pub open spec fn has_prefix(s: Seq<char>, p: Seq<char>) -> bool {
    p.len() <= s.len() && s.take(p.len() as int) == p
}

/// Runtime prefix test.
pub fn str_has_prefix(s: &str, p: &str) -> (r: bool)
    ensures
        r == has_prefix(s@, p@),
{
    let slen: usize = s.unicode_len();
    let plen: usize = p.unicode_len();
    if plen > slen {
        assert(!has_prefix(s@, p@));
        return false;
    }
    let mut i: usize = 0;
    while i < plen
        invariant
            0 <= i <= plen <= slen,
            slen == s@.len(),
            plen == p@.len(),
            forall|k: int| 0 <= k < i ==> s@[k] == p@[k],
        decreases plen - i,
    {
        if s.get_char(i) != p.get_char(i) {
            assert(s@.take(plen as int)[i as int] != p@[i as int]);
            return false;
        }
        i += 1;
    }
    proof {
        assert(s@.take(plen as int) =~= p@);
    }
    true
}

/// Runtime equality of two string slices, by view.
pub fn str_eq_str(a: &str, b: &str) -> (r: bool)
    ensures
        r == (a@ == b@),
{
    let alen: usize = a.unicode_len();
    let blen: usize = b.unicode_len();
    if alen != blen {
        return false;
    }
    let mut i: usize = 0;
    while i < alen
        invariant
            0 <= i <= alen,
            alen == a@.len(),
            alen == b@.len(),
            forall|k: int| 0 <= k < i ==> a@[k] == b@[k],
        decreases alen - i,
    {
        if a.get_char(i) != b.get_char(i) {
            return false;
        }
        i += 1;
    }
    proof {
        assert(a@ =~= b@);
    }
    true
}

/// Whether `sub` occurs contiguously somewhere in `s`.
pub open spec fn contains_seq(s: Seq<char>, sub: Seq<char>) -> bool {
    exists|i: int|
        0 <= i && i + sub.len() <= s.len() && #[trigger] s.subrange(i, i + sub.len() as int)
            == sub
}

/// Runtime substring search.
pub fn str_contains(s: &str, sub: &str) -> (r: bool)
    ensures
        r == contains_seq(s@, sub@),
{
    let slen: usize = s.unicode_len();
    let sublen: usize = sub.unicode_len();
    if sublen > slen {
        return false;
    }
    if sublen == 0 {
        proof {
            assert(s@.subrange(0, 0 + sub@.len() as int) =~= sub@);
        }
        return true;
    }
    let mut start: usize = 0;
    while start <= slen - sublen
        invariant
            0 <= start <= slen - sublen + 1,
            1 <= sublen <= slen,
            slen == s@.len(),
            sublen == sub@.len(),
            forall|j: int|
                0 <= j < start ==> #[trigger] s@.subrange(j, j + sub@.len() as int) != sub@,
        decreases slen - start,
    {
        let mut i: usize = 0;
        let mut all_match: bool = true;
        while i < sublen
            invariant
                0 <= i <= sublen,
                0 <= start <= slen - sublen,
                slen == s@.len(),
                sublen == sub@.len(),
                all_match ==> forall|k: int| 0 <= k < i ==> s@[start + k] == sub@[k],
            (!all_match) ==> s@.subrange(start as int, start + sub@.len() as int) != sub@,
            decreases sublen - i,
        {
            if s.get_char(start + i) != sub.get_char(i) {
                if all_match {
                    proof {
                        assert(s@.subrange(start as int, start + sub@.len() as int)[i as int]
                            != sub@[i as int]);
                    }
                }
                all_match = false;
            }
            i += 1;
        }
        if all_match {
            proof {
                assert(s@.subrange(start as int, start + sub@.len() as int) =~= sub@);
            }
            return true;
        }
        start += 1;
    }
    proof {
        assert(forall|j: int|
            0 <= j && j + sub@.len() <= s@.len() ==> #[trigger] s@.subrange(
                j,
                j + sub@.len() as int,
            ) != sub@);
    }
    false
}

/// Splits a character sequence at every occurrence of `sep`. The result
/// always has at least one element; an empty input yields one empty part.
pub open spec fn split_on(s: Seq<char>, sep: char) -> Seq<Seq<char>>
    decreases s.len(),
{
    if s.len() == 0 {
        seq![Seq::<char>::empty()]
    } else if s.last() == sep {
        split_on(s.drop_last(), sep).push(Seq::<char>::empty())
    } else {
        let r = split_on(s.drop_last(), sep);
        r.update(r.len() - 1, r.last().push(s.last()))
    }
}

pub proof fn lemma_split_on_nonempty(s: Seq<char>, sep: char)
    ensures
        split_on(s, sep).len() >= 1,
    decreases s.len(),
{
    if s.len() > 0 {
        lemma_split_on_nonempty(s.drop_last(), sep);
    }
}

proof fn lemma_split_on_step(s: Seq<char>, sep: char, c: char)
    ensures
        c == sep ==> split_on(s.push(c), sep) == split_on(s, sep).push(Seq::<char>::empty()),
        c != sep ==> split_on(s.push(c), sep) == split_on(s, sep).update(
            split_on(s, sep).len() - 1,
            split_on(s, sep).last().push(c),
        ),
{
    assert(s.push(c).drop_last() =~= s);
    assert(s.push(c).last() == c);
    lemma_split_on_nonempty(s, sep);
}

/// Splits a string at every occurrence of `sep`.
pub fn split_str(s: &str, sep: char) -> (parts: Vec<String>)
    ensures
        parts.deep_view() == split_on(s@, sep),
{
    let len: usize = s.unicode_len();
    let mut parts: Vec<String> = Vec::new();
    let mut cur: String = String::new();
    let mut i: usize = 0;
    proof {
        assert(s@.take(0) =~= Seq::<char>::empty());
        assert(parts.deep_view().push(cur@) =~= split_on(s@.take(0), sep));
    }
    while i < len
        invariant
            0 <= i <= len,
            len == s@.len(),
            parts.deep_view().push(cur@) == split_on(s@.take(i as int), sep),
        decreases len - i,
    {
        let ghost prefix = s@.take(i as int);
        let c = s.get_char(i);
        proof {
            assert(s@.take(i + 1) =~= prefix.push(s@[i as int]));
            lemma_split_on_step(prefix, sep, s@[i as int]);
            lemma_split_on_nonempty(prefix, sep);
        }
        if c == sep {
            parts.push(cur);
            cur = String::new();
            proof {
                assert(parts.deep_view().push(cur@) =~= split_on(s@.take(i + 1), sep));
            }
        } else {
            cur.push(c);
            proof {
                assert(parts.deep_view().push(cur@) =~= split_on(s@.take(i + 1), sep));
            }
        }
        i += 1;
    }
    parts.push(cur);
    proof {
        assert(s@.take(len as int) =~= s@);
        assert(parts.deep_view() =~= split_on(s@, sep));
    }
    parts
}

/// The sequence without its leading white space.
pub open spec fn trim_start_spec(s: Seq<char>) -> Seq<char>
    decreases s.len(),
{
    if s.len() > 0 && is_space_char(s[0]) {
        trim_start_spec(s.drop_first())
    } else {
        s
    }
}

/// The sequence without its trailing white space.
pub open spec fn trim_end_spec(s: Seq<char>) -> Seq<char>
    decreases s.len(),
{
    if s.len() > 0 && is_space_char(s.last()) {
        trim_end_spec(s.drop_last())
    } else {
        s
    }
}

/// The sequence without leading and trailing white space.
pub open spec fn trim_spec(s: Seq<char>) -> Seq<char> {
    trim_end_spec(trim_start_spec(s))
}

proof fn lemma_trim_start_skip(s: Seq<char>, a: int)
    requires
        0 <= a <= s.len(),
        forall|k: int| 0 <= k < a ==> is_space_char(s[k]),
        a < s.len() ==> !is_space_char(s[a]),
    ensures
        trim_start_spec(s) == s.skip(a),
    decreases a,
{
    if a == 0 {
        assert(s.skip(0) =~= s);
    } else {
        assert(is_space_char(s[0]));
        lemma_trim_start_skip(s.drop_first(), a - 1);
        assert(s.drop_first().skip(a - 1) =~= s.skip(a));
    }
}

proof fn lemma_trim_end_take(s: Seq<char>, b: int)
    requires
        0 <= b <= s.len(),
        forall|k: int| b <= k < s.len() ==> is_space_char(s[k]),
        b > 0 ==> !is_space_char(s[b - 1]),
    ensures
        trim_end_spec(s) == s.take(b),
    decreases s.len(),
{
    if b == s.len() {
        if s.len() > 0 {
            assert(!is_space_char(s.last()));
        }
        assert(s.take(b) =~= s);
    } else {
        assert(is_space_char(s.last()));
        lemma_trim_end_take(s.drop_last(), b);
        assert(s.drop_last().take(b) =~= s.take(b));
    }
}

/// Removes leading and trailing white space from a string slice.
pub fn str_trim<'a>(s: &'a str) -> (r: &'a str)
    ensures
        r@ == trim_spec(s@),
{
    let len: usize = s.unicode_len();
    let mut a: usize = 0;
    while a < len && check_space_char(s.get_char(a))
        invariant
            0 <= a <= len,
            len == s@.len(),
            forall|k: int| 0 <= k < a ==> is_space_char(s@[k]),
        decreases len - a,
    {
        a += 1;
    }
    let mut b: usize = len;
    while b > a && check_space_char(s.get_char(b - 1))
        invariant
            a <= b <= len,
            len == s@.len(),
            forall|k: int| b <= k < len ==> is_space_char(s@[k]),
        decreases b,
    {
        b -= 1;
    }
    proof {
        lemma_trim_start_skip(s@, a as int);
        let t = s@.skip(a as int);
        assert(forall|k: int|
            b - a <= k < t.len() ==> is_space_char(#[trigger] t[k])) by {
            assert(forall|k: int|
                b - a <= k < t.len() ==> #[trigger] t[k] == s@[k + a]);
        }
        if b > a {
            assert(t[b - a - 1] == s@[b - 1]);
        }
        lemma_trim_end_take(t, b - a);
        assert(t.take(b - a) =~= s@.subrange(a as int, b as int));
    }
    s.substring_char(a, b)
}

/// Concatenation of the parts with `sep` between consecutive parts.
pub open spec fn join_with(parts: Seq<Seq<char>>, sep: Seq<char>) -> Seq<char>
    decreases parts.len(),
{
    if parts.len() == 0 {
        Seq::<char>::empty()
    } else if parts.len() == 1 {
        parts[0]
    } else {
        parts[0] + sep + join_with(parts.drop_first(), sep)
    }
}

pub proof fn lemma_join_with_push(parts: Seq<Seq<char>>, sep: Seq<char>, x: Seq<char>)
    ensures
        parts.len() == 0 ==> join_with(parts.push(x), sep) == x,
        parts.len() > 0 ==> join_with(parts.push(x), sep) == join_with(parts, sep) + sep + x,
    decreases parts.len(),
{
    if parts.len() == 0 {
        assert(join_with(parts.push(x), sep) == parts.push(x)[0]);
    } else if parts.len() == 1 {
        assert(parts.push(x).drop_first() =~= seq![x]);
        assert(join_with(seq![x], sep) == seq![x][0]);
        assert(seq![x][0] == x);
        assert(parts.push(x)[0] == parts[0]);
        assert(join_with(parts.push(x), sep) == parts.push(x)[0] + sep + join_with(
            parts.push(x).drop_first(),
            sep,
        ));
        assert(join_with(parts.push(x), sep) == parts[0] + sep + x);
        assert(parts[0] + sep + x =~= join_with(parts, sep) + sep + x);
    } else {
        lemma_join_with_push(parts.drop_first(), sep, x);
        assert(parts.push(x).drop_first() =~= parts.drop_first().push(x));
        assert(join_with(parts.push(x), sep) == parts[0] + sep + join_with(
            parts.drop_first().push(x),
            sep,
        ));
        assert(parts[0] + sep + (join_with(parts.drop_first(), sep) + sep + x) =~= (parts[0] + sep
            + join_with(parts.drop_first(), sep)) + sep + x);
    }
}

/// Joins the parts with `sep` between consecutive parts.
pub fn join_strings(parts: &Vec<String>, sep: &str) -> (r: String)
    ensures
        r@ == join_with(parts.deep_view(), sep@),
{
    let mut r = String::new();
    let mut i: usize = 0;
    proof {
        assert(parts.deep_view().take(0) =~= Seq::<Seq<char>>::empty());
    }
    while i < parts.len()
        invariant
            0 <= i <= parts.len(),
            r@ == join_with(parts.deep_view().take(i as int), sep@),
        decreases parts.len() - i,
    {
        if i > 0 {
            r.append(sep);
        }
        r.append(parts[i].as_str());
        proof {
            let pv = parts.deep_view();
            assert(pv.take(i + 1) =~= pv.take(i as int).push(pv[i as int]));
            lemma_join_with_push(pv.take(i as int), sep@, pv[i as int]);
            assert(pv[i as int] == parts[i as int]@);
        }
        i += 1;
    }
    proof {
        assert(parts.deep_view().take(parts.deep_view().len() as int) =~= parts.deep_view());
    }
    r
}

/// Strict lexicographic order on character sequences, by code point.
pub open spec fn lex_lt(a: Seq<char>, b: Seq<char>) -> bool
    decreases a.len(),
{
    if b.len() == 0 {
        false
    } else if a.len() == 0 {
        true
    } else if (a[0] as u32) < (b[0] as u32) {
        true
    } else if (a[0] as u32) > (b[0] as u32) {
        false
    } else {
        lex_lt(a.drop_first(), b.drop_first())
    }
}

proof fn lemma_lex_lt_skip(a: Seq<char>, b: Seq<char>, i: int)
    requires
        0 <= i <= a.len(),
        i <= b.len(),
        forall|k: int| 0 <= k < i ==> a[k] == b[k],
    ensures
        lex_lt(a, b) == lex_lt(a.skip(i), b.skip(i)),
    decreases i,
{
    if i > 0 {
        assert(a[0] == b[0]);
        if a.len() > 0 && b.len() > 0 {
            lemma_lex_lt_skip(a.drop_first(), b.drop_first(), i - 1);
            assert(a.drop_first().skip(i - 1) =~= a.skip(i));
            assert(b.drop_first().skip(i - 1) =~= b.skip(i));
        }
    } else {
        assert(a.skip(0) =~= a);
        assert(b.skip(0) =~= b);
    }
}

/// Runtime test for [`lex_lt`].
pub fn str_lex_lt(a: &str, b: &str) -> (r: bool)
    ensures
        r == lex_lt(a@, b@),
{
    let alen: usize = a.unicode_len();
    let blen: usize = b.unicode_len();
    let mut i: usize = 0;
    while i < alen && i < blen
        invariant
            0 <= i <= alen,
            i <= blen,
            alen == a@.len(),
            blen == b@.len(),
            forall|k: int| 0 <= k < i ==> a@[k] == b@[k],
        decreases alen - i,
    {
        let ca: u32 = a.get_char(i) as u32;
        let cb: u32 = b.get_char(i) as u32;
        if ca < cb {
            proof {
                lemma_lex_lt_skip(a@, b@, i as int);
            }
            return true;
        }
        if ca > cb {
            proof {
                lemma_lex_lt_skip(a@, b@, i as int);
            }
            return false;
        }
        i += 1;
    }
    proof {
        lemma_lex_lt_skip(a@, b@, i as int);
    }
    alen < blen
}

/// `s` concatenated with itself `n` times.
pub open spec fn repeat_seq(s: Seq<char>, n: nat) -> Seq<char>
    decreases n,
{
    if n == 0 {
        Seq::<char>::empty()
    } else {
        repeat_seq(s, (n - 1) as nat) + s
    }
}

/// Builds the `n`-fold repetition of `s`.
pub fn repeat_str(s: &str, n: usize) -> (r: String)
    ensures
        r@ == repeat_seq(s@, n as nat),
{
    let mut r = String::new();
    let mut i: usize = 0;
    proof {
        assert(r@ =~= repeat_seq(s@, 0));
    }
    while i < n
        invariant
            0 <= i <= n,
            r@ == repeat_seq(s@, i as nat),
        decreases n - i,
    {
        r.append(s);
        i += 1;
    }
    r
}

/// Renders a 64-bit integer in decimal.
pub fn u64_to_string(n: u64) -> (s: String)
    ensures
        s@ == dec_seq(n as nat),
    decreases n,
{
    if n < 10 {
        digit_str(n as usize).to_owned()
    } else {
        let mut s = u64_to_string(n / 10);
        s.append(digit_str((n % 10) as usize));
        proof {
            assert(s@ =~= dec_seq(n as nat));
        }
        s
    }
}

} // verus!
