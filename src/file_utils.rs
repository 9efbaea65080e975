use vstd::prelude::*;
use crate::errors::AppError;
use vstd::std_specs::iter::IteratorSpec;

verus! {

/// Unicode `White_Space`: the characters that separate words in a task text
/// and that trimming removes.
pub open spec fn is_ws(c: char) -> bool {
    let v = c as u32;
    (0x9 <= v && v <= 0xd) || v == 0x20 || v == 0x85 || v == 0xa0 || v == 0x1680
        || (0x2000 <= v && v <= 0x200a) || v == 0x2028 || v == 0x2029 || v == 0x202f
        || v == 0x205f || v == 0x3000
}

/// Whether `c` is a white-space character.
pub fn is_whitespace(c: char) -> (r: bool)
    ensures
        r == is_ws(c),
{
    let v = c as u32;
    (0x9 <= v && v <= 0xd) || v == 0x20 || v == 0x85 || v == 0xa0 || v == 0x1680
        || (0x2000 <= v && v <= 0x200a) || v == 0x2028 || v == 0x2029 || v == 0x202f
        || v == 0x205f || v == 0x3000
}

/// The characters of `s`, one by one.
pub fn chars_of(s: &str) -> (v: Vec<char>)
    ensures
        v@ == s@,
{
    broadcast use vstd::string::group_string_axioms;

    let mut it = s.chars();
    let mut v: Vec<char> = Vec::new();
    loop
        invariant
            it.obeys_prophetic_iter_laws(),
            it.decrease() is Some,
            v@ + it.remaining() == s@,
        ensures
            v@ == s@,
        decreases it.decrease()->0,
    {
        match it.next() {
            Some(c) => {
                v.push(c);
            },
            None => {
                assert(v@ =~= s@);
                break;
            },
        }
    }
    v
}

/// `s` without its leading white space.
pub open spec fn trim_start(s: Seq<char>) -> Seq<char>
    decreases s.len(),
{
    if s.len() > 0 && is_ws(s[0]) {
        trim_start(s.drop_first())
    } else {
        s
    }
}

/// `s` without its trailing white space.
pub open spec fn trim_end(s: Seq<char>) -> Seq<char>
    decreases s.len(),
{
    if s.len() > 0 && is_ws(s.last()) {
        trim_end(s.drop_last())
    } else {
        s
    }
}

/// `s` without leading and trailing white space.
pub open spec fn trim(s: Seq<char>) -> Seq<char> {
    trim_end(trim_start(s))
}

/// `s` without leading and trailing white space.
pub fn trim_str(s: &str) -> (r: String)
    ensures
        r@ == trim(s@),
{
    let v = chars_of(s);
    let n = v.len();
    let mut a: usize = 0;
    assert(s@.subrange(0, n as int) =~= s@);
    while a < n && is_whitespace(v[a])
        invariant
            v@ == s@,
            n == v@.len(),
            a <= n,
            trim_start(s@.subrange(a as int, n as int)) == trim_start(s@),
        decreases n - a,
    {
        assert(s@.subrange(a as int, n as int).drop_first() =~= s@.subrange(a + 1, n as int));
        a = a + 1;
    }
    assert(trim_start(s@.subrange(a as int, n as int)) == s@.subrange(a as int, n as int));
    let mut b: usize = n;
    while b > a && is_whitespace(v[b - 1])
        invariant
            v@ == s@,
            n == v@.len(),
            a <= b <= n,
            trim_end(s@.subrange(a as int, b as int)) == trim(s@),
        decreases b - a,
    {
        assert(s@.subrange(a as int, b as int).drop_last() =~= s@.subrange(a as int, b - 1));
        b = b - 1;
    }
    String::from_str(s.substring_char(a, b))
}

/// Whether an `@`-token starts at `i`: an `@` directly followed by a
/// character that is not white space.
pub open spec fn token_starts_at(s: Seq<char>, i: int) -> bool {
    0 <= i && i + 1 < s.len() && s[i] == '@' && !is_ws(s[i + 1])
}

/// Where the run of non-white-space characters that begins at `j` ends.
pub open spec fn word_end(s: Seq<char>, j: int) -> int
    decreases s.len() - j,
{
    if j < 0 || j >= s.len() || is_ws(s[j]) {
        j
    } else {
        word_end(s, j + 1)
    }
}

/// A word ends at white space or at the end of the text.
pub proof fn lemma_word_end(s: Seq<char>, j: int)
    requires
        0 <= j <= s.len(),
    ensures
        j <= word_end(s, j) <= s.len(),
        forall|k: int| j <= k < word_end(s, j) ==> !is_ws(#[trigger] s[k]),
        word_end(s, j) < s.len() ==> is_ws(s[word_end(s, j)]),
    decreases s.len() - j,
{
    if j < s.len() && !is_ws(s[j]) {
        lemma_word_end(s, j + 1);
    }
}

/// The text from `i` on with every `@`-token removed.
pub open spec fn strip_from(s: Seq<char>, i: int) -> Seq<char>
    decreases s.len() - i,
    via strip_from_decreases
{
    if i < 0 || i >= s.len() {
        Seq::empty()
    } else if token_starts_at(s, i) {
        strip_from(s, word_end(s, i + 1))
    } else {
        seq![s[i]] + strip_from(s, i + 1)
    }
}

#[via_fn]
proof fn strip_from_decreases(s: Seq<char>, i: int) {
    if 0 <= i < s.len() && token_starts_at(s, i) {
        lemma_word_end(s, i + 1);
    }
}

/// The `@`-tokens from `i` on, in order, each without its `@`.
pub open spec fn paths_from(s: Seq<char>, i: int) -> Seq<Seq<char>>
    decreases s.len() - i,
    via paths_from_decreases
{
    if i < 0 || i >= s.len() {
        Seq::empty()
    } else if token_starts_at(s, i) {
        seq![s.subrange(i + 1, word_end(s, i + 1))] + paths_from(s, word_end(s, i + 1))
    } else {
        paths_from(s, i + 1)
    }
}

#[via_fn]
proof fn paths_from_decreases(s: Seq<char>, i: int) {
    if 0 <= i < s.len() && token_starts_at(s, i) {
        lemma_word_end(s, i + 1);
    }
}

/// The task text proper: every `@`-token removed, then trimmed.
pub open spec fn clean_task(s: Seq<char>) -> Seq<char> {
    trim(strip_from(s, 0))
}

/// The paths that a task text references, in order of occurrence.
pub open spec fn task_paths(s: Seq<char>) -> Seq<Seq<char>> {
    paths_from(s, 0)
}

/// The views of a sequence of strings.
pub open spec fn views(v: Seq<String>) -> Seq<Seq<char>> {
    v.map_values(|p: String| p@)
}

/// Splits a task text into its clean text and the paths it references with
/// `@<path>`.
pub fn extract_files(task: &str) -> (r: (String, Vec<String>))
    ensures
        r.0@ == clean_task(task@),
        views(r.1@) == task_paths(task@),
{
    let v = chars_of(task);
    let n = v.len();
    let mut stripped = String::new();
    let mut inputs: Vec<String> = Vec::new();
    let mut seg: usize = 0;
    let mut i: usize = 0;
    assert(task@.subrange(0, 0) =~= Seq::<char>::empty());
    assert(views(inputs@) + paths_from(task@, 0) =~= paths_from(task@, 0));
    while i < n
        invariant
            v@ == task@,
            n == v@.len(),
            seg <= i <= n,
            stripped@ + task@.subrange(seg as int, i as int) + strip_from(task@, i as int)
                == strip_from(task@, 0),
            views(inputs@) + paths_from(task@, i as int) == paths_from(task@, 0),
        decreases n - i,
    {
        if v[i] == '@' && i + 1 < n && !is_whitespace(v[i + 1]) {
            let mut j: usize = i + 1;
            while j < n && !is_whitespace(v[j])
                invariant
                    v@ == task@,
                    n == v@.len(),
                    i + 1 <= j <= n,
                    word_end(task@, j as int) == word_end(task@, i + 1),
                decreases n - j,
            {
                j = j + 1;
            }
            assert(word_end(task@, j as int) == j);
            let ghost before = stripped@;
            stripped.append(task.substring_char(seg, i));
            let p = String::from_str(task.substring_char(i + 1, j));
            let ghost old_inputs = inputs@;
            inputs.push(p);
            proof {
                assert(task@.subrange(j as int, j as int) =~= Seq::<char>::empty());
                assert(before + task@.subrange(seg as int, i as int) + task@.subrange(
                    j as int,
                    j as int,
                ) =~= stripped@);
                assert(views(inputs@) =~= views(old_inputs) + seq![p@]);
                assert(views(inputs@) + paths_from(task@, j as int) =~= views(old_inputs)
                    + paths_from(task@, i as int));
            }
            seg = j;
            i = j;
        } else {
            proof {
                assert(task@.subrange(seg as int, i as int) + seq![task@[i as int]]
                    =~= task@.subrange(seg as int, i + 1));
                assert(stripped@ + task@.subrange(seg as int, i + 1) + strip_from(task@, i + 1)
                    =~= stripped@ + task@.subrange(seg as int, i as int) + strip_from(
                    task@,
                    i as int,
                ));
            }
            i = i + 1;
        }
    }
    stripped.append(task.substring_char(seg, n));
    assert(stripped@ =~= strip_from(task@, 0));
    assert(views(inputs@) =~= paths_from(task@, 0));
    (trim_str(stripped.as_str()), inputs)
}

proof fn lemma_no_tokens_from(s: Seq<char>, i: int)
    requires
        0 <= i <= s.len(),
        forall|j: int| !#[trigger] token_starts_at(s, j),
    ensures
        strip_from(s, i) == s.subrange(i, s.len() as int),
        paths_from(s, i) == Seq::<Seq<char>>::empty(),
    decreases s.len() - i,
{
    if i < s.len() {
        assert(!token_starts_at(s, i));
        lemma_no_tokens_from(s, i + 1);
        assert(seq![s[i]] + s.subrange(i + 1, s.len() as int) =~= s.subrange(i, s.len() as int));
    } else {
        assert(s.subrange(i, i) =~= Seq::<char>::empty());
    }
}

/// A text without `@`-tokens is kept whole: its clean text is the text
/// trimmed, and it references no path.
pub proof fn lemma_no_tokens(s: Seq<char>)
    requires
        forall|j: int| !#[trigger] token_starts_at(s, j),
    ensures
        clean_task(s) == trim(s),
        task_paths(s) == Seq::<Seq<char>>::empty(),
{
    lemma_no_tokens_from(s, 0);
    assert(s.subrange(0, s.len() as int) =~= s);
}

proof fn lemma_word_end_shift(x: Seq<char>, y: Seq<char>, j: int)
    requires
        0 <= j <= y.len(),
    ensures
        word_end(x + y, x.len() + j) == x.len() + word_end(y, j),
    decreases y.len() - j,
{
    if j < y.len() && !is_ws(y[j]) {
        lemma_word_end_shift(x, y, j + 1);
    }
}

/// Scanning the end of a text does not depend on what stands before it.
proof fn lemma_shift(x: Seq<char>, y: Seq<char>, i: int)
    requires
        0 <= i <= y.len(),
    ensures
        strip_from(x + y, x.len() + i) == strip_from(y, i),
        paths_from(x + y, x.len() + i) == paths_from(y, i),
    decreases y.len() - i,
{
    let s = x + y;
    if i < y.len() {
        if token_starts_at(y, i) {
            assert(token_starts_at(s, x.len() + i));
            lemma_word_end(y, i + 1);
            lemma_word_end_shift(x, y, i + 1);
            lemma_shift(x, y, word_end(y, i + 1));
            assert(s.subrange(x.len() + i + 1, x.len() + word_end(y, i + 1)) =~= y.subrange(
                i + 1,
                word_end(y, i + 1),
            ));
        } else {
            assert(!token_starts_at(s, x.len() + i));
            lemma_shift(x, y, i + 1);
        }
    }
}

proof fn lemma_lead(s: Seq<char>, m: int, i: int)
    requires
        0 <= i <= m <= s.len(),
        forall|j: int| 0 <= j < m ==> !#[trigger] token_starts_at(s, j),
    ensures
        strip_from(s, i) == s.subrange(i, m) + strip_from(s, m),
        paths_from(s, i) == paths_from(s, m),
    decreases m - i,
{
    if i < m {
        assert(!token_starts_at(s, i));
        lemma_lead(s, m, i + 1);
        assert(seq![s[i]] + s.subrange(i + 1, m) =~= s.subrange(i, m));
    } else {
        assert(s.subrange(i, i) =~= Seq::<char>::empty());
    }
}

proof fn lemma_word_to_end(s: Seq<char>, start: int, end: int, j: int)
    requires
        0 <= start <= j <= end <= s.len(),
        forall|k: int| start <= k < end ==> !is_ws(#[trigger] s[k]),
        end == s.len() || is_ws(s[end]),
    ensures
        word_end(s, j) == end,
    decreases end - j,
{
    if j < end {
        lemma_word_to_end(s, start, end, j + 1);
    }
}

/// An `@`-token leaves no trace in the text, whatever it holds, and becomes
/// the next referenced path: after a lead `a` in which no token starts, the
/// token `@p`, and a rest `b` that begins at a word boundary, the stripped
/// text is `a` followed by the stripped rest, and the paths are `p` followed
/// by those of the rest.
pub proof fn lemma_token_removed(a: Seq<char>, p: Seq<char>, b: Seq<char>)
    requires
        forall|j: int| 0 <= j < a.len() ==> !#[trigger] token_starts_at(a + seq!['@'] + p + b, j),
        p.len() > 0,
        forall|k: int| 0 <= k < p.len() ==> !is_ws(#[trigger] p[k]),
        b.len() == 0 || is_ws(b[0]),
    ensures
        strip_from(a + seq!['@'] + p + b, 0) == a + strip_from(b, 0),
        paths_from(a + seq!['@'] + p + b, 0) == seq![p] + paths_from(b, 0),
{
    let x = a + seq!['@'] + p;
    let s = x + b;
    let m = a.len() as int;
    let end = x.len() as int;
    lemma_lead(s, m, 0);
    assert(s.subrange(0, m) =~= a);
    assert(token_starts_at(s, m));
    assert forall|k: int| m + 1 <= k < end implies !is_ws(#[trigger] s[k]) by {
        assert(s[k] == p[k - m - 1]);
    }
    lemma_word_to_end(s, m + 1, end, m + 1);
    assert(s.subrange(m + 1, end) =~= p);
    lemma_shift(x, b, 0);
}

/// A task text laid out as a lead, then for each pair `(p, g)` the token
/// `@p` followed by the gap `g`.
pub open spec fn assemble(lead: Seq<char>, toks: Seq<(Seq<char>, Seq<char>)>) -> Seq<char>
    decreases toks.len(),
{
    if toks.len() == 0 {
        lead
    } else {
        lead + seq!['@'] + toks[0].0 + assemble(toks[0].1, toks.drop_first())
    }
}

/// The gaps of a layout, one after the other.
pub open spec fn gaps_text(toks: Seq<(Seq<char>, Seq<char>)>) -> Seq<char>
    decreases toks.len(),
{
    if toks.len() == 0 {
        Seq::empty()
    } else {
        toks[0].1 + gaps_text(toks.drop_first())
    }
}

/// The token contents of a layout, in order.
pub open spec fn token_contents(toks: Seq<(Seq<char>, Seq<char>)>) -> Seq<Seq<char>> {
    toks.map_values(|t: (Seq<char>, Seq<char>)| t.0)
}

/// Whether a layout places exactly its tokens: no token starts in the lead
/// or in a gap, each token content is a non-empty run of non-white-space
/// characters, and each gap but the last begins with white space (the last
/// is empty or begins with it).
pub open spec fn tokens_well_placed(lead: Seq<char>, toks: Seq<(Seq<char>, Seq<char>)>) -> bool
    decreases toks.len(),
{
    if toks.len() == 0 {
        forall|j: int| !#[trigger] token_starts_at(lead, j)
    } else {
        &&& forall|j: int| !#[trigger] token_starts_at(lead + seq!['@'], j)
        &&& toks[0].0.len() > 0
        &&& forall|k: int| 0 <= k < toks[0].0.len() ==> !is_ws(#[trigger] toks[0].0[k])
        &&& if toks[0].1.len() == 0 {
            toks.len() == 1
        } else {
            is_ws(toks[0].1[0])
        }
        &&& tokens_well_placed(toks[0].1, toks.drop_first())
    }
}

/// Every `@`-token leaves the text and joins the paths in order: a task text
/// laid out with its tokens strips to its lead and gaps, and references
/// exactly the token contents.
pub proof fn lemma_tokens_removed(lead: Seq<char>, toks: Seq<(Seq<char>, Seq<char>)>)
    requires
        tokens_well_placed(lead, toks),
    ensures
        strip_from(assemble(lead, toks), 0) == lead + gaps_text(toks),
        paths_from(assemble(lead, toks), 0) == token_contents(toks),
    decreases toks.len(),
{
    if toks.len() == 0 {
        lemma_no_tokens_from(lead, 0);
        assert(lead.subrange(0, lead.len() as int) =~= lead);
        assert(lead + gaps_text(toks) =~= lead);
        assert(token_contents(toks) =~= Seq::<Seq<char>>::empty());
    } else {
        let p = toks[0].0;
        let g = toks[0].1;
        let rest = toks.drop_first();
        let b = assemble(g, rest);
        let s = lead + seq!['@'] + p + b;
        assert forall|j: int| 0 <= j < lead.len() implies !#[trigger] token_starts_at(s, j) by {
            assert(!token_starts_at(lead + seq!['@'], j));
            assert(s[j] == (lead + seq!['@'])[j]);
            assert(s[j + 1] == (lead + seq!['@'])[j + 1]);
        }
        if g.len() > 0 {
            assert(b[0] == g[0]);
        } else {
            assert(b =~= g);
        }
        lemma_token_removed(lead, p, b);
        lemma_tokens_removed(g, rest);
        assert(lead + (g + gaps_text(rest)) =~= lead + gaps_text(toks));
        assert(token_contents(toks) =~= seq![p] + token_contents(rest));
    }
}

/// Layouts that differ only in what their tokens hold have the same gaps.
proof fn lemma_same_gaps(t1: Seq<(Seq<char>, Seq<char>)>, t2: Seq<(Seq<char>, Seq<char>)>)
    requires
        t1.len() == t2.len(),
        forall|k: int| 0 <= k < t1.len() ==> #[trigger] t1[k].1 == t2[k].1,
    ensures
        gaps_text(t1) == gaps_text(t2),
    decreases t1.len(),
{
    if t1.len() > 0 {
        assert(t1[0].1 == t2[0].1);
        assert forall|k: int| 0 <= k < t1.len() - 1 implies #[trigger] t1.drop_first()[k].1
            == t2.drop_first()[k].1 by {
            assert(t1[k + 1].1 == t2[k + 1].1);
        }
        lemma_same_gaps(t1.drop_first(), t2.drop_first());
    }
}

/// The clean text does not depend on what the tokens hold: two task texts
/// with the same lead and gaps and the same number of tokens, in the same
/// places, have the same clean text.
pub proof fn lemma_clean_text_ignores_token_content(
    lead: Seq<char>,
    t1: Seq<(Seq<char>, Seq<char>)>,
    t2: Seq<(Seq<char>, Seq<char>)>,
)
    requires
        tokens_well_placed(lead, t1),
        tokens_well_placed(lead, t2),
        t1.len() == t2.len(),
        forall|k: int| 0 <= k < t1.len() ==> #[trigger] t1[k].1 == t2[k].1,
    ensures
        clean_task(assemble(lead, t1)) == clean_task(assemble(lead, t2)),
{
    lemma_tokens_removed(lead, t1);
    lemma_tokens_removed(lead, t2);
    lemma_same_gaps(t1, t2);
}

/// Whether a parent-directory segment `..` stands at `i`: between two
/// separators, or at the start or the end of the path.
pub open spec fn parent_segment_at(p: Seq<char>, i: int) -> bool {
    0 <= i && i + 2 <= p.len() && p[i] == '.' && p[i + 1] == '.' && (i == 0 || p[i - 1] == '/')
        && (i + 2 == p.len() || p[i + 2] == '/')
}

/// Whether one of the path's segments is `..`.
pub open spec fn has_parent_segment(p: Seq<char>) -> bool {
    exists|i: int| parent_segment_at(p, i)
}

/// Rejects a path that could climb out of the working tree; whether the
/// path exists plays no part.
pub fn sanitize_path(path: &str) -> (r: Result<(), AppError>)
    ensures
        has_parent_segment(path@) ==> (r matches Err(AppError::PathError(q)) && q@ == path@),
        !has_parent_segment(path@) ==> r is Ok,
{
    let v = chars_of(path);
    let n = v.len();
    let mut i: usize = 0;
    while i < n
        invariant
            v@ == path@,
            n == v@.len(),
            i <= n,
            forall|k: int| 0 <= k < i ==> !parent_segment_at(path@, k),
        decreases n - i,
    {
        if v[i] == '.' && i + 1 < n && v[i + 1] == '.' && (i == 0 || v[i - 1] == '/') && (i + 2
            == n || v[i + 2] == '/') {
            assert(parent_segment_at(path@, i as int));
            return Err(AppError::PathError(String::from_str(path)));
        }
        i = i + 1;
    }
    assert forall|k: int| !parent_segment_at(path@, k) by {
        if 0 <= k < n {
        }
    }
    Ok(())
}

/// The first path whose flag says it does not exist.
pub open spec fn first_missing_path(paths: Seq<Seq<char>>, exists: Seq<bool>) -> Option<Seq<char>>
    decreases exists.len(),
{
    if exists.len() == 0 || paths.len() == 0 {
        None
    } else if !exists[0] {
        Some(paths[0])
    } else {
        first_missing_path(paths.drop_first(), exists.drop_first())
    }
}

/// Checks that every path exists; `exists[k]` tells whether `paths[k]` does.
/// Fails with the first path that does not.
pub fn validate_files(paths: &[String], exists: &[bool]) -> (r: Result<(), AppError>)
    requires
        paths@.len() == exists@.len(),
    ensures
        match first_missing_path(views(paths@), exists@) {
            None => r is Ok,
            Some(p) => r matches Err(AppError::NotFound(q)) && q@ == p,
        },
{
    let n = paths.len();
    let ghost ps = views(paths@);
    let mut i: usize = 0;
    assert(ps.skip(0) =~= ps);
    assert(exists@.skip(0) =~= exists@);
    while i < n
        invariant
            n == paths@.len(),
            n == exists@.len(),
            ps == views(paths@),
            i <= n,
            first_missing_path(ps.skip(i as int), exists@.skip(i as int)) == first_missing_path(
                ps,
                exists@,
            ),
        decreases n - i,
    {
        assert(ps.skip(i as int).drop_first() =~= ps.skip(i + 1));
        assert(exists@.skip(i as int).drop_first() =~= exists@.skip(i + 1));
        if !exists[i] {
            return Err(AppError::NotFound(paths[i].clone()));
        }
        i = i + 1;
    }
    Ok(())
}

/// One missing path makes the whole batch fail, whatever the other paths are.
pub proof fn lemma_missing_path_fails(paths: Seq<Seq<char>>, exists: Seq<bool>, i: int)
    requires
        paths.len() == exists.len(),
        0 <= i < exists.len(),
        !exists[i],
    ensures
        first_missing_path(paths, exists) is Some,
    decreases exists.len(),
{
    if exists[0] {
        lemma_missing_path_fails(paths.drop_first(), exists.drop_first(), i - 1);
    }
}

/// The first path that holds a parent-directory segment.
pub open spec fn first_unsafe_path(paths: Seq<Seq<char>>) -> Option<Seq<char>>
    decreases paths.len(),
{
    if paths.len() == 0 {
        None
    } else if has_parent_segment(paths[0]) {
        Some(paths[0])
    } else {
        first_unsafe_path(paths.drop_first())
    }
}

/// One path with a parent-directory segment makes the whole batch fail the
/// guard, whatever the other paths are and whether or not any exists.
pub proof fn lemma_unsafe_path_fails(paths: Seq<Seq<char>>, i: int)
    requires
        0 <= i < paths.len(),
        has_parent_segment(paths[i]),
    ensures
        first_unsafe_path(paths) is Some,
    decreases paths.len(),
{
    if !has_parent_segment(paths[0]) {
        lemma_unsafe_path_fails(paths.drop_first(), i - 1);
    }
}

/// Checks a batch of referenced paths before any is read: every path is
/// guarded first, then every path must exist (`exists[k]` tells whether
/// `paths[k]` does).
pub fn check_paths(paths: &[String], exists: &[bool]) -> (r: Result<(), AppError>)
    requires
        paths@.len() == exists@.len(),
    ensures
        match first_unsafe_path(views(paths@)) {
            Some(p) => r matches Err(AppError::PathError(q)) && q@ == p,
            None => match first_missing_path(views(paths@), exists@) {
                None => r is Ok,
                Some(p) => r matches Err(AppError::NotFound(q)) && q@ == p,
            },
        },
{
    let n = paths.len();
    let ghost ps = views(paths@);
    let mut i: usize = 0;
    assert(ps.skip(0) =~= ps);
    while i < n
        invariant
            n == paths@.len(),
            ps == views(paths@),
            i <= n,
            first_unsafe_path(ps.skip(i as int)) == first_unsafe_path(ps),
        decreases n - i,
    {
        assert(ps.skip(i as int).drop_first() =~= ps.skip(i + 1));
        match sanitize_path(paths[i].as_str()) {
            Err(e) => {
                return Err(e);
            },
            Ok(()) => {},
        }
        i = i + 1;
    }
    validate_files(paths, exists)
}

/// The text that stands for one file in the combined input: a header line
/// naming the path, then the content.
pub open spec fn file_block(path: Seq<char>, content: Seq<char>) -> Seq<char> {
    "\n\n----- File: "@ + path + " -----\n"@ + content + "\n"@
}

/// The combined input of a list of (path, content) pairs, in order.
pub open spec fn blocks(files: Seq<(String, String)>) -> Seq<char>
    decreases files.len(),
{
    if files.len() == 0 {
        Seq::empty()
    } else {
        blocks(files.drop_last()) + file_block(files.last().0@, files.last().1@)
    }
}

/// Concatenates the contents of the files read, each under a header that
/// names its path.
pub fn combine_inputs(files: &[(String, String)]) -> (r: String)
    ensures
        r@ == blocks(files@),
{
    let mut combined = String::new();
    let mut i: usize = 0;
    assert(files@.subrange(0, 0) =~= Seq::<(String, String)>::empty());
    while i < files.len()
        invariant
            i <= files@.len(),
            combined@ == blocks(files@.subrange(0, i as int)),
        decreases files@.len() - i,
    {
        assert(files@.subrange(0, i + 1).drop_last() =~= files@.subrange(0, i as int));
        combined.append("\n\n----- File: ");
        combined.append(files[i].0.as_str());
        combined.append(" -----\n");
        combined.append(files[i].1.as_str());
        combined.append("\n");
        i = i + 1;
    }
    assert(files@.subrange(0, files@.len() as int) =~= files@);
    combined
}

/// Every file read appears in the combined input, under its header.
pub proof fn lemma_every_file_present(files: Seq<(String, String)>, k: int)
    requires
        0 <= k < files.len(),
    ensures
        exists|i: int|
            0 <= i && i + file_block(files[k].0@, files[k].1@).len() <= blocks(files).len()
                && #[trigger] blocks(files).subrange(i, i + file_block(files[k].0@, files[k].1@).len())
                == file_block(files[k].0@, files[k].1@),
    decreases files.len(),
{
    let b = file_block(files[k].0@, files[k].1@);
    let all = blocks(files);
    let front = blocks(files.drop_last());
    if k == files.len() - 1 {
        assert(all.subrange(front.len() as int, (front.len() + b.len()) as int) =~= b);
    } else {
        lemma_every_file_present(files.drop_last(), k);
        let i = choose|i: int|
            0 <= i && i + b.len() <= front.len() && #[trigger] front.subrange(i, i + b.len()) == b;
        assert(all.subrange(i, i + b.len()) =~= front.subrange(i, i + b.len()));
    }
}

/// The prompt of the planning request: the clean task, then the combined
/// input after a blank line where there is any.
pub fn plan_prompt(clean_task: &str, contents: &str) -> (r: String)
    ensures
        contents@.len() == 0 ==> r@ == clean_task@,
        contents@.len() > 0 ==> r@ == clean_task@ + "\n\n"@ + contents@,
{
    if contents.is_empty() {
        String::from_str(clean_task)
    } else {
        let mut r = String::from_str(clean_task);
        r.append("\n\n");
        r.append(contents);
        r
    }
}

} // verus!
