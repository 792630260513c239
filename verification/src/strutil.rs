//! Verified string helpers: ASCII case folding, substring search, prefix and
//! suffix tests, and small building blocks for the parsers and planners.
//!
//! Every exec function is specified against a spec-level view of the string
//! (`Seq<char>`), so the parsing and classification contracts elsewhere can
//! speak precisely about what a piece of text contains.

use vstd::prelude::*;

verus! {

/// ASCII lower-casing of a single character; everything outside `A..=Z`
/// is left unchanged.
pub open spec fn lower_char(c: char) -> char {
    if 65 <= c as u32 && c as u32 <= 90 {
        ((c as u32 + 32) as u8) as char
    } else {
        c
    }
}

/// ASCII lower-casing of a whole character sequence.
pub open spec fn lower_seq(s: Seq<char>) -> Seq<char> {
    Seq::new(s.len(), |i: int| lower_char(s[i]))
}

/// Case folding applied, or not, to one character.
pub open spec fn fold_char(c: char, fold: bool) -> char {
    if fold {
        lower_char(c)
    } else {
        c
    }
}

/// Case folding applied, or not, to a sequence.
pub open spec fn fold_seq(s: Seq<char>, fold: bool) -> Seq<char> {
    if fold {
        lower_seq(s)
    } else {
        s
    }
}

/// `pat` occurs in `text` at position `i`.
pub open spec fn matches_at(text: Seq<char>, pat: Seq<char>, i: int) -> bool {
    0 <= i && i + pat.len() <= text.len() && text.subrange(i, i + pat.len()) == pat
}

/// `pat` occurs somewhere in `text`.
pub open spec fn contains_seq(text: Seq<char>, pat: Seq<char>) -> bool {
    exists|i: int| matches_at(text, pat, i)
}

/// `pat` occurs somewhere in `text`, compared without ASCII case.
pub open spec fn contains_ic_seq(text: Seq<char>, pat: Seq<char>) -> bool {
    contains_seq(lower_seq(text), lower_seq(pat))
}

/// `pre` is a prefix of `s`.
pub open spec fn starts_with_seq(s: Seq<char>, pre: Seq<char>) -> bool {
    matches_at(s, pre, 0)
}

/// `suf` is a suffix of `s`, compared without ASCII case.
pub open spec fn ends_with_ic_seq(s: Seq<char>, suf: Seq<char>) -> bool {
    matches_at(lower_seq(s), lower_seq(suf), s.len() - suf.len())
}

/// `a` and `b` are equal up to ASCII case.
pub open spec fn eq_ic_seq(a: Seq<char>, b: Seq<char>) -> bool {
    lower_seq(a) == lower_seq(b)
}

/// ASCII lower-casing of a single character.
#[verifier::when_used_as_spec(lower_char)]
pub fn to_lower_char(c: char) -> (r: char)
    ensures
        r == lower_char(c),
{
    let u = c as u32;
    if 65 <= u && u <= 90 {
        ((u + 32) as u8) as char
    } else {
        c
    }
}

/// Compares `text[i..i + pat.len()]` with `pat`, case-folded when `fold` is set.
fn check_match(text: &str, pat: &str, i: usize, fold: bool) -> (b: bool)
    requires
        i + pat@.len() <= text@.len(),
    ensures
        b == matches_at(fold_seq(text@, fold), fold_seq(pat@, fold), i as int),
{
    let m = pat.unicode_len();
    let n = text.unicode_len();
    let ghost ft = fold_seq(text@, fold);
    let ghost fp = fold_seq(pat@, fold);
    assert(ft.len() == text@.len() && fp.len() == pat@.len());
    let mut j: usize = 0;
    while j < m
        invariant
            j <= m,
            m == pat@.len(),
            n == text@.len(),
            i + m <= n,
            ft == fold_seq(text@, fold),
            fp == fold_seq(pat@, fold),
            ft.len() == n && fp.len() == m,
            forall|k: int| 0 <= k < j ==> ft[i + k] == fp[k],
        decreases m - j,
    {
        let tc = to_lower_if(text.get_char(i + j), fold);
        let pc = to_lower_if(pat.get_char(j), fold);
        if tc != pc {
            proof {
                assert(ft[i + j] != fp[j as int]);
                if matches_at(ft, fp, i as int) {
                    assert(ft.subrange(i as int, i + fp.len())[j as int] == fp[j as int]);
                }
            }
            return false;
        }
        j += 1;
    }
    proof {
        assert(ft.subrange(i as int, i + fp.len()) =~= fp);
    }
    true
}

/// Case folding applied, or not, to one character.
fn to_lower_if(c: char, fold: bool) -> (r: char)
    ensures
        r == fold_char(c, fold),
{
    if fold {
        to_lower_char(c)
    } else {
        c
    }
}

/// Substring search, optionally case-folded.
fn contains_impl(text: &str, pat: &str, fold: bool) -> (b: bool)
    ensures
        b == contains_seq(fold_seq(text@, fold), fold_seq(pat@, fold)),
{
    let n = text.unicode_len();
    let m = pat.unicode_len();
    let ghost ft = fold_seq(text@, fold);
    let ghost fp = fold_seq(pat@, fold);
    assert(ft.len() == text@.len() && fp.len() == pat@.len());
    if m > n {
        proof {
            if contains_seq(ft, fp) {
                let k = choose|k: int| matches_at(ft, fp, k);
            }
        }
        return false;
    }
    let mut i: usize = 0;
    loop
        invariant
            n == text@.len(),
            m == pat@.len(),
            m <= n,
            i <= n - m,
            ft == fold_seq(text@, fold),
            fp == fold_seq(pat@, fold),
            ft.len() == n && fp.len() == m,
            forall|k: int| 0 <= k < i ==> !matches_at(ft, fp, k),
        ensures
            forall|k: int| 0 <= k <= n - m ==> !matches_at(ft, fp, k),
        decreases n - m - i,
    {
        if check_match(text, pat, i, fold) {
            return true;
        }
        if i == n - m {
            break;
        }
        i += 1;
    }
    proof {
        if contains_seq(ft, fp) {
            let k = choose|k: int| matches_at(ft, fp, k);
            assert(!matches_at(ft, fp, k));
        }
    }
    false
}

/// Whether `pat` occurs in `text` (case-sensitive).
pub fn str_contains(text: &str, pat: &str) -> (b: bool)
    ensures
        b == contains_seq(text@, pat@),
{
    contains_impl(text, pat, false)
}

/// Whether `pat` occurs in `text`, ignoring ASCII case.
pub fn str_contains_ic(text: &str, pat: &str) -> (b: bool)
    ensures
        b == contains_ic_seq(text@, pat@),
{
    contains_impl(text, pat, true)
}

/// Whether `s` begins with `pre` (case-sensitive).
pub fn str_starts_with(s: &str, pre: &str) -> (b: bool)
    ensures
        b == starts_with_seq(s@, pre@),
{
    let n = s.unicode_len();
    let m = pre.unicode_len();
    if m > n {
        return false;
    }
    let r = check_match(s, pre, 0, false);
    proof {
        assert(fold_seq(s@, false) == s@);
        assert(fold_seq(pre@, false) == pre@);
    }
    r
}

/// `suf` is a suffix of `s`.
pub open spec fn ends_with_seq(s: Seq<char>, suf: Seq<char>) -> bool {
    matches_at(s, suf, s.len() - suf.len())
}

/// Whether `s` ends with `suf` (case-sensitive).
pub fn str_ends_with(s: &str, suf: &str) -> (b: bool)
    ensures
        b == ends_with_seq(s@, suf@),
{
    let n = s.unicode_len();
    let m = suf.unicode_len();
    if m > n {
        return false;
    }
    check_match(s, suf, n - m, false)
}

/// Whether `a` and `b` are the same string.
pub fn str_eq(a: &str, b: &str) -> (r: bool)
    ensures
        r == (a@ == b@),
{
    let n = a.unicode_len();
    let m = b.unicode_len();
    if n != m {
        return false;
    }
    let r = check_match(a, b, 0, false);
    proof {
        if r {
            assert(a@.subrange(0, b@.len() as int) =~= a@);
        } else {
            if a@ == b@ {
                assert(a@.subrange(0, b@.len() as int) =~= b@);
            }
        }
    }
    r
}

/// Whether `s` ends with `suf`, ignoring ASCII case.
pub fn str_ends_with_ic(s: &str, suf: &str) -> (b: bool)
    ensures
        b == ends_with_ic_seq(s@, suf@),
{
    let n = s.unicode_len();
    let m = suf.unicode_len();
    if m > n {
        return false;
    }
    check_match(s, suf, n - m, true)
}

/// Whether `a` equals `b`, ignoring ASCII case.
pub fn str_eq_ic(a: &str, b: &str) -> (r: bool)
    ensures
        r == eq_ic_seq(a@, b@),
{
    let n = a.unicode_len();
    let m = b.unicode_len();
    if n != m {
        proof {
            assert(lower_seq(a@).len() != lower_seq(b@).len());
        }
        return false;
    }
    let r = check_match(a, b, 0, true);
    proof {
        if r {
            assert(lower_seq(a@).subrange(0, lower_seq(b@).len() as int) =~= lower_seq(a@));
        } else {
            if eq_ic_seq(a@, b@) {
                assert(lower_seq(a@).subrange(0, lower_seq(b@).len() as int) =~= lower_seq(b@));
            }
        }
    }
    r
}

/// Whether the character `c` occurs in `s`.
pub fn str_contains_char(s: &str, c: char) -> (b: bool)
    ensures
        b == s@.contains(c),
{
    let n = s.unicode_len();
    let mut i: usize = 0;
    while i < n
        invariant
            i <= n,
            n == s@.len(),
            forall|k: int| 0 <= k < i ==> s@[k] != c,
        decreases n - i,
    {
        if s.get_char(i) == c {
            assert(s@[i as int] == c);
            return true;
        }
        i += 1;
    }
    proof {
        if s@.contains(c) {
            let k = choose|k: int| 0 <= k < s@.len() && s@[k] == c;
        }
    }
    false
}

/// First occurrence of `c` in `s` at or after `from`, if any.
pub fn find_char_from(s: &str, c: char, from: usize) -> (r: Option<usize>)
    requires
        from <= s@.len(),
    ensures
        match r {
            Some(i) => from <= i < s@.len() && s@[i as int] == c && forall|k: int|
                from <= k < i ==> s@[k] != c,
            None => forall|k: int| from <= k < s@.len() ==> s@[k] != c,
        },
{
    let n = s.unicode_len();
    let mut i: usize = from;
    while i < n
        invariant
            from <= i <= n,
            n == s@.len(),
            forall|k: int| from <= k < i ==> s@[k] != c,
        decreases n - i,
    {
        if s.get_char(i) == c {
            return Some(i);
        }
        i += 1;
    }
    None
}

/// The concatenation of two strings.
pub fn concat2(a: &str, b: &str) -> (r: String)
    ensures
        r@ == a@ + b@,
{
    let mut r = a.to_owned();
    r.append(b);
    r
}

/// The concatenation of three strings.
pub fn concat3(a: &str, b: &str, c: &str) -> (r: String)
    ensures
        r@ == a@ + b@ + c@,
{
    let mut r = a.to_owned();
    r.append(b);
    r.append(c);
    r
}

/// ASCII whitespace, as the configuration parsers understand it.
pub open spec fn is_ascii_space(c: char) -> bool {
    c == ' ' || c == '\t' || c == '\r' || c == '\n'
}

/// ASCII whitespace test on one character.
#[verifier::when_used_as_spec(is_ascii_space)]
pub fn is_space_char(c: char) -> (b: bool)
    ensures
        b == is_ascii_space(c),
{
    c == ' ' || c == '\t' || c == '\r' || c == '\n'
}

/// `s` with ASCII whitespace removed from both ends.
pub open spec fn trimmed(s: Seq<char>) -> Seq<char>
    decreases s.len(),
{
    if s.len() > 0 && is_ascii_space(s[0]) {
        trimmed(s.drop_first())
    } else if s.len() > 0 && is_ascii_space(s.last()) {
        trimmed(s.drop_last())
    } else {
        s
    }
}

/// Removes ASCII whitespace from both ends of `s`.
pub fn trim_ascii(s: &str) -> (r: &str)
    ensures
        r@ == trimmed(s@),
{
    let n = s.unicode_len();
    proof {
        assert(s@.subrange(0, n as int) =~= s@);
    }
    let mut a: usize = 0;
    loop
        invariant
            a <= n,
            n == s@.len(),
            trimmed(s@) == trimmed(s@.subrange(a as int, n as int)),
        ensures
            a <= n,
            n == s@.len(),
            trimmed(s@) == trimmed(s@.subrange(a as int, n as int)),
            a == n || !is_ascii_space(s@[a as int]),
        decreases n - a,
    {
        if a == n {
            break;
        }
        let c = s.get_char(a);
        if !is_space_char(c) {
            break;
        }
        proof {
            let sub = s@.subrange(a as int, n as int);
            assert(sub.drop_first() =~= s@.subrange(a + 1, n as int));
        }
        a += 1;
    }
    let mut b: usize = n;
    loop
        invariant
            a <= b <= n,
            n == s@.len(),
            trimmed(s@) == trimmed(s@.subrange(a as int, b as int)),
            a == n || !is_ascii_space(s@[a as int]),
        ensures
            a <= b <= n,
            trimmed(s@) == trimmed(s@.subrange(a as int, b as int)),
            a == b || (!is_ascii_space(s@[a as int]) && !is_ascii_space(s@[b - 1])),
        decreases b - a,
    {
        if b == a {
            break;
        }
        let c = s.get_char(b - 1);
        if !is_space_char(c) {
            break;
        }
        proof {
            let sub = s@.subrange(a as int, b as int);
            assert(sub.drop_last() =~= s@.subrange(a as int, b - 1));
        }
        b -= 1;
    }
    proof {
        let sub = s@.subrange(a as int, b as int);
        if sub.len() > 0 {
            assert(sub[0] == s@[a as int]);
            assert(sub.last() == s@[b - 1]);
        }
    }
    s.substring_char(a, b)
}

/// `s` with every copy of the character `c` removed from both ends.
pub open spec fn trimmed_matches(s: Seq<char>, c: char) -> Seq<char>
    decreases s.len(),
{
    if s.len() > 0 && s[0] == c {
        trimmed_matches(s.drop_first(), c)
    } else if s.len() > 0 && s.last() == c {
        trimmed_matches(s.drop_last(), c)
    } else {
        s
    }
}

/// Removes every copy of `c` from both ends of `s`.
pub fn trim_matches_char(s: &str, c: char) -> (r: &str)
    ensures
        r@ == trimmed_matches(s@, c),
{
    let n = s.unicode_len();
    proof {
        assert(s@.subrange(0, n as int) =~= s@);
    }
    let mut a: usize = 0;
    loop
        invariant
            a <= n,
            n == s@.len(),
            trimmed_matches(s@, c) == trimmed_matches(s@.subrange(a as int, n as int), c),
        ensures
            a <= n,
            n == s@.len(),
            trimmed_matches(s@, c) == trimmed_matches(s@.subrange(a as int, n as int), c),
            a == n || s@[a as int] != c,
        decreases n - a,
    {
        if a == n {
            break;
        }
        if s.get_char(a) != c {
            break;
        }
        proof {
            let sub = s@.subrange(a as int, n as int);
            assert(sub.drop_first() =~= s@.subrange(a + 1, n as int));
        }
        a += 1;
    }
    let mut b: usize = n;
    loop
        invariant
            a <= b <= n,
            n == s@.len(),
            trimmed_matches(s@, c) == trimmed_matches(s@.subrange(a as int, b as int), c),
            a == n || s@[a as int] != c,
        ensures
            a <= b <= n,
            trimmed_matches(s@, c) == trimmed_matches(s@.subrange(a as int, b as int), c),
            a == b || (s@[a as int] != c && s@[b - 1] != c),
        decreases b - a,
    {
        if b == a {
            break;
        }
        if s.get_char(b - 1) != c {
            break;
        }
        proof {
            let sub = s@.subrange(a as int, b as int);
            assert(sub.drop_last() =~= s@.subrange(a as int, b - 1));
        }
        b -= 1;
    }
    proof {
        let sub = s@.subrange(a as int, b as int);
        if sub.len() > 0 {
            assert(sub[0] == s@[a as int]);
            assert(sub.last() == s@[b - 1]);
        }
    }
    s.substring_char(a, b)
}

/// The pieces of `s` between occurrences of `sep`: always one more piece than
/// there are separators, so an empty input yields one empty piece.
pub open spec fn split_seq(s: Seq<char>, sep: char) -> Seq<Seq<char>>
    decreases s.len(),
{
    if s.len() == 0 {
        seq![Seq::<char>::empty()]
    } else if s[0] == sep {
        seq![Seq::<char>::empty()] + split_seq(s.drop_first(), sep)
    } else {
        let rest = split_seq(s.drop_first(), sep);
        seq![seq![s[0]] + rest[0]] + rest.drop_first()
    }
}

/// A split never yields an empty piece list.
pub proof fn lemma_split_len_pos(s: Seq<char>, sep: char)
    ensures
        split_seq(s, sep).len() >= 1,
    decreases s.len(),
{
    if s.len() > 0 {
        lemma_split_len_pos(s.drop_first(), sep);
    }
}

/// Peeling the first separator off a split: the first piece is everything
/// before it, the remaining pieces are the split of everything after it.
proof fn lemma_split_step(s: Seq<char>, sep: char, j: int)
    requires
        0 <= j < s.len(),
        s[j] == sep,
        forall|k: int| 0 <= k < j ==> s[k] != sep,
    ensures
        split_seq(s, sep) == seq![s.subrange(0, j)] + split_seq(s.subrange(j + 1, s.len() as int), sep),
    decreases j,
{
    if j == 0 {
        assert(s.subrange(0, 0) =~= Seq::<char>::empty());
        assert(s.drop_first() =~= s.subrange(1, s.len() as int));
        assert(split_seq(s, sep) =~~= seq![s.subrange(0, 0)] + split_seq(
            s.subrange(1, s.len() as int),
            sep,
        ));
    } else {
        let t = s.drop_first();
        lemma_split_step(t, sep, j - 1);
        lemma_split_len_pos(t.subrange(j, t.len() as int), sep);
        assert(t.subrange(0, j - 1) =~= s.subrange(1, j));
        assert(t.subrange(j, t.len() as int) =~= s.subrange(j + 1, s.len() as int));
        let rest = split_seq(t, sep);
        assert(rest[0] == s.subrange(1, j));
        assert(seq![s[0]] + s.subrange(1, j) =~= s.subrange(0, j));
        assert(rest.drop_first() =~= split_seq(s.subrange(j + 1, s.len() as int), sep));
        assert(split_seq(s, sep) =~~= seq![s.subrange(0, j)] + split_seq(
            s.subrange(j + 1, s.len() as int),
            sep,
        ));
    }
}

/// A piece without separators splits into just itself.
proof fn lemma_split_nosep(s: Seq<char>, sep: char)
    requires
        forall|k: int| 0 <= k < s.len() ==> s[k] != sep,
    ensures
        split_seq(s, sep) == seq![s],
    decreases s.len(),
{
    if s.len() == 0 {
        assert(seq![Seq::<char>::empty()] =~~= seq![s]);
    } else {
        let t = s.drop_first();
        lemma_split_nosep(t, sep);
        assert(seq![s[0]] + t =~= s);
        assert(split_seq(s, sep) =~~= seq![s]);
    }
}

/// The view of an optionally present owned string.
pub open spec fn opt_view(o: Option<String>) -> Option<Seq<char>> {
    match o {
        Some(s) => Some(s@),
        None => None,
    }
}

/// The views of a sequence of owned strings.
pub open spec fn seq_views(v: Seq<String>) -> Seq<Seq<char>> {
    v.map_values(|x: String| x@)
}

/// Splits `s` at every occurrence of `sep`.
pub fn split_char(s: &str, sep: char) -> (r: Vec<String>)
    ensures
        seq_views(r@) == split_seq(s@, sep),
{
    let n = s.unicode_len();
    let mut r: Vec<String> = Vec::new();
    proof {
        assert(s@.subrange(0, n as int) =~= s@);
        assert(seq_views(r@) + split_seq(s@, sep) =~= split_seq(s@, sep));
    }
    let mut start: usize = 0;
    let mut i: usize = 0;
    while i < n
        invariant
            start <= i <= n,
            n == s@.len(),
            split_seq(s@, sep) == seq_views(r@) + split_seq(
                s@.subrange(start as int, n as int),
                sep,
            ),
            forall|k: int| start <= k < i ==> s@[k] != sep,
        decreases n - i,
    {
        let c = s.get_char(i);
        if c == sep {
            let piece = s.substring_char(start, i).to_owned();
            proof {
                let suffix = s@.subrange(start as int, n as int);
                lemma_split_step(suffix, sep, i - start);
                assert(suffix.subrange(0, i - start) =~= s@.subrange(start as int, i as int));
                assert(suffix.subrange(i - start + 1, suffix.len() as int) =~= s@.subrange(
                    i + 1,
                    n as int,
                ));
                assert(seq_views(r@.push(piece)) =~= seq_views(r@).push(piece@));
                assert(seq_views(r@.push(piece)) + split_seq(s@.subrange(i + 1, n as int), sep)
                    =~= seq_views(r@) + split_seq(s@.subrange(start as int, n as int), sep));
            }
            r.push(piece);
            start = i + 1;
        }
        i += 1;
    }
    let last = s.substring_char(start, n).to_owned();
    proof {
        lemma_split_nosep(s@.subrange(start as int, n as int), sep);
        assert(seq_views(r@.push(last)) =~= seq_views(r@).push(last@));
        assert(seq_views(r@.push(last)) =~= seq_views(r@) + split_seq(
            s@.subrange(start as int, n as int),
            sep,
        ));
    }
    r.push(last);
    r
}

/// Whether one of the owned strings in `v` reads `s`.
pub fn contains_str(v: &Vec<String>, s: &str) -> (r: bool)
    ensures
        r == seq_views(v@).contains(s@),
{
    let n = v.len();
    let mut i: usize = 0;
    while i < n
        invariant
            i <= n,
            n == v@.len(),
            forall|k: int| 0 <= k < i ==> seq_views(v@)[k] != s@,
        decreases n - i,
    {
        if str_eq(v[i].as_str(), s) {
            assert(seq_views(v@)[i as int] == s@);
            return true;
        }
        i += 1;
    }
    proof {
        if seq_views(v@).contains(s@) {
            let k = choose|k: int| 0 <= k < seq_views(v@).len() && seq_views(v@)[k] == s@;
        }
    }
    false
}

/// A Windows-style path separator between the two parts.
pub open spec fn joined_path(a: Seq<char>, b: Seq<char>) -> Seq<char> {
    a + "\\"@ + b
}

/// Joins a directory and a child name with a Windows path separator.
pub fn join_path(a: &str, b: &str) -> (r: String)
    ensures
        r@ == joined_path(a@, b@),
{
    concat3(a, "\\", b)
}

} // verus!
