use vstd::prelude::*;
use crate::errors::ValidationError;
use crate::file_utils::{chars_of, views};
use crate::gemini_client::{findings_of, strings_of};
use crate::json::{Json, field};

verus! {

/// The kinds of code analysis whose findings are reported.
pub enum AnalysisKind {
    Bugs,
    Performance,
}

/// The decimal digit for `d < 10`.
pub open spec fn digit_char(d: nat) -> char {
    "0123456789"@[d as int]
}

/// The decimal numeral of `n`.
pub open spec fn decimal(n: nat) -> Seq<char>
    decreases n,
{
    if n < 10 {
        seq![digit_char(n)]
    } else {
        decimal(n / 10) + seq![digit_char(n % 10)]
    }
}

/// The decimal numeral of `n`.
pub fn decimal_str(n: usize) -> (r: String)
    ensures
        r@ == decimal(n as nat),
    decreases n,
{
    proof {
        reveal_strlit("0123456789");
    }
    let d = n % 10;
    let digit = "0123456789".substring_char(d, d + 1);
    assert(digit@ =~= seq![digit_char(d as nat)]);
    if n < 10 {
        String::from_str(digit)
    } else {
        let mut r = decimal_str(n / 10);
        r.append(digit);
        r
    }
}

/// The line that reports finding `k` (counted from 0).
pub open spec fn finding_line(k: nat, finding: Seq<char>) -> Seq<char> {
    decimal(k + 1) + ". "@ + finding + "\n"@
}

/// The numbered lines of a list of findings, counted from 1.
pub open spec fn numbered(fs: Seq<Seq<char>>) -> Seq<char>
    decreases fs.len(),
{
    if fs.len() == 0 {
        Seq::empty()
    } else {
        numbered(fs.drop_last()) + finding_line((fs.len() - 1) as nat, fs.last())
    }
}

/// The line printed when an analysis finds nothing.
pub open spec fn empty_message(kind: AnalysisKind) -> Seq<char> {
    match kind {
        AnalysisKind::Bugs => "Bug Analysis Report: No bugs found!"@,
        AnalysisKind::Performance => "No improvements found!"@,
    }
}

/// The heading above a list of findings.
pub open spec fn heading(kind: AnalysisKind) -> Seq<char> {
    match kind {
        AnalysisKind::Bugs => "Bug Analysis Report:"@,
        AnalysisKind::Performance => "Performance Improvements:"@,
    }
}

/// The console text of an analysis report.
pub open spec fn report_text(kind: AnalysisKind, fs: Seq<Seq<char>>) -> Seq<char> {
    if fs.len() == 0 {
        empty_message(kind) + "\n\n"@
    } else {
        heading(kind) + "\n\n"@ + numbered(fs) + "\n"@
    }
}

/// Renders the findings of an analysis for the console: a message when there
/// are none, else a heading and one numbered line per finding, in order.
pub fn render_report(kind: AnalysisKind, findings: &[String]) -> (r: String)
    ensures
        r@ == report_text(kind, views(findings@)),
{
    let ghost fs = views(findings@);
    if findings.len() == 0 {
        let mut r = match kind {
            AnalysisKind::Bugs => String::from_str("Bug Analysis Report: No bugs found!"),
            AnalysisKind::Performance => String::from_str("No improvements found!"),
        };
        r.append("\n\n");
        return r;
    }
    let mut r = match kind {
        AnalysisKind::Bugs => String::from_str("Bug Analysis Report:"),
        AnalysisKind::Performance => String::from_str("Performance Improvements:"),
    };
    r.append("\n\n");
    let ghost head = r@;
    let mut i: usize = 0;
    assert(fs.subrange(0, 0) =~= Seq::<Seq<char>>::empty());
    while i < findings.len()
        invariant
            fs == views(findings@),
            i <= findings@.len(),
            r@ == head + numbered(fs.subrange(0, i as int)),
        decreases findings@.len() - i,
    {
        assert(fs.subrange(0, i + 1).drop_last() =~= fs.subrange(0, i as int));
        let num = decimal_str(i + 1);
        r.append(num.as_str());
        r.append(". ");
        r.append(findings[i].as_str());
        r.append("\n");
        i = i + 1;
    }
    assert(fs.subrange(0, findings@.len() as int) =~= fs);
    r.append("\n");
    r
}

/// Whether `needle` occurs in `haystack`.
pub open spec fn contains(haystack: Seq<char>, needle: Seq<char>) -> bool {
    exists|i: int|
        0 <= i && i + needle.len() <= haystack.len() && #[trigger] haystack.subrange(
            i,
            i + needle.len(),
        ) == needle
}

/// Whether `needle` occurs in `haystack`.
pub fn contains_str(haystack: &str, needle: &str) -> (r: bool)
    ensures
        r == contains(haystack@, needle@),
{
    let h = chars_of(haystack);
    let n = chars_of(needle);
    let hl = h.len();
    let nl = n.len();
    if nl > hl {
        return false;
    }
    let mut i: usize = 0;
    while i <= hl - nl
        invariant
            h@ == haystack@,
            n@ == needle@,
            hl == h@.len(),
            nl == n@.len(),
            nl <= hl,
            i <= hl - nl + 1,
            forall|k: int| 0 <= k < i ==> #[trigger] haystack@.subrange(k, k + nl) != needle@,
        decreases hl - nl + 1 - i,
    {
        let mut j: usize = 0;
        while j < nl && h[i + j] == n[j]
            invariant
                h@ == haystack@,
                n@ == needle@,
                hl == h@.len(),
                nl == n@.len(),
                i + nl <= hl,
                j <= nl,
                forall|t: int| 0 <= t < j ==> h@[i + t] == n@[t],
            decreases nl - j,
        {
            j = j + 1;
        }
        if j == nl {
            assert(haystack@.subrange(i as int, i + nl) =~= needle@);
            return true;
        }
        assert(haystack@.subrange(i as int, i + nl)[j as int] != needle@[j as int]);
        i = i + 1;
    }
    false
}

/// The header of the objectives section of a plan.
pub const OBJECTIVES: &'static str = "## Objectives";

/// The header of the implementation steps section of a plan.
pub const IMPLEMENTATION_STEPS: &'static str = "## Implementation Steps";

/// The header of the file manifest section of a plan.
pub const FILE_MANIFEST: &'static str = "## File Manifest";

/// The section headers that `plan` lacks, in their required order.
pub open spec fn missing_sections(plan: Seq<char>) -> Seq<Seq<char>> {
    (if contains(plan, OBJECTIVES@) {
        Seq::empty()
    } else {
        seq![OBJECTIVES@]
    }) + (if contains(plan, IMPLEMENTATION_STEPS@) {
        Seq::empty()
    } else {
        seq![IMPLEMENTATION_STEPS@]
    }) + (if contains(plan, FILE_MANIFEST@) {
        Seq::empty()
    } else {
        seq![FILE_MANIFEST@]
    })
}

/// Checks that a generated plan holds the three required section headers;
/// fails naming exactly those that are missing.
pub fn validate_generated_plan(plan: &str) -> (r: Result<(), ValidationError>)
    ensures
        missing_sections(plan@).len() == 0 ==> r is Ok,
        missing_sections(plan@).len() > 0 ==> (r matches Err(ValidationError::MissingSections(m))
            && views(m@) == missing_sections(plan@)),
{
    let mut missing: Vec<String> = Vec::new();
    if !contains_str(plan, OBJECTIVES) {
        missing.push(String::from_str(OBJECTIVES));
    }
    if !contains_str(plan, IMPLEMENTATION_STEPS) {
        missing.push(String::from_str(IMPLEMENTATION_STEPS));
    }
    if !contains_str(plan, FILE_MANIFEST) {
        missing.push(String::from_str(FILE_MANIFEST));
    }
    assert(views(missing@) =~= missing_sections(plan@));
    if missing.len() > 0 {
        Err(ValidationError::MissingSections(missing))
    } else {
        Ok(())
    }
}

/// The texts of values that are all strings.
pub open spec fn texts(items: Seq<Json>) -> Seq<Seq<char>> {
    items.map_values(|j: Json| j->Str_0@)
}

proof fn lemma_strings_all(items: Seq<Json>)
    requires
        forall|k: int| 0 <= k < items.len() ==> (#[trigger] items[k]) is Str,
    ensures
        strings_of(items) == Some(texts(items)),
    decreases items.len(),
{
    if items.len() > 0 {
        lemma_strings_all(items.drop_last());
        assert(texts(items) =~= texts(items.drop_last()).push(items.last()->Str_0@));
    }
}

/// Findings make the round trip unchanged: when the answer's `list` member is
/// an array of strings, extraction yields exactly those strings in their
/// order, and the report gives finding `k` the `k + 1`-th numbered line.
pub proof fn lemma_findings_round_trip(kind: AnalysisKind, inner: Json, items: Vec<Json>)
    requires
        field(inner, "list"@) == Some(Json::Array(items)),
        forall|k: int| 0 <= k < items@.len() ==> (#[trigger] items@[k]) is Str,
    ensures
        findings_of(inner) == Some(texts(items@)),
        items@.len() > 0 ==> report_text(kind, texts(items@)) == heading(kind) + "\n\n"@
            + numbered(texts(items@)) + "\n"@,
        forall|k: int|
            0 <= k < items@.len() ==> #[trigger] numbered(texts(items@).subrange(0, k + 1))
                == numbered(texts(items@).subrange(0, k)) + finding_line(
                k as nat,
                items@[k]->Str_0@,
            ),
        numbered(texts(items@).subrange(0, items@.len() as int)) == numbered(texts(items@)),
{
    lemma_strings_all(items@);
    let t = texts(items@);
    assert forall|k: int| 0 <= k < items@.len() implies #[trigger] numbered(t.subrange(0, k + 1))
        == numbered(t.subrange(0, k)) + finding_line(k as nat, items@[k]->Str_0@) by {
        assert(t.subrange(0, k + 1).drop_last() =~= t.subrange(0, k));
    }
    assert(t.subrange(0, items@.len() as int) =~= t);
}

} // verus!
