//! Turning a linter's diagnostics into lint results for the editor.

use vstd::prelude::*;
use crate::source::{blank, has_prefix, is_blank, starts_with};

verus! {

/// The prefix of the codes of rules that come from the eslint set.
pub const ESLINT_PREFIX: &'static str = "eslint(";

/// The rule id given where an eslint code is not closed.
pub const UNKNOWN_RULE: &'static str = "unknown";

/// The width given to a diagnostic whose span has no length.
pub const DEFAULT_SPAN_WIDTH: usize = 10;

/// Where a diagnostic points: line and column, and a length (0 where none
/// was given).
#[derive(Debug, Clone, Copy)]
pub struct OxlintSpan {
    pub line: usize,
    pub column: usize,
    pub length: usize,
}

/// A label of a diagnostic.
#[derive(Debug, Clone, Copy)]
pub struct OxlintLabel {
    pub span: OxlintSpan,
}

/// One diagnostic as the linter reports it.
#[derive(Debug)]
pub struct OxlintDiagnostic {
    pub message: String,
    pub code: String,
    pub severity: String,
    pub labels: Vec<OxlintLabel>,
}

/// One lint finding, placed in the code.
#[derive(Debug)]
pub struct LintResult {
    pub line: usize,
    pub column: usize,
    pub end_line: usize,
    pub end_column: usize,
    pub message: String,
    pub severity: String,
    pub rule_id: String,
}

/// The text to read diagnostics from: stdout, unless it is blank.
pub fn lint_output_text<'a>(stdout: &'a str, stderr: &'a str) -> (r: &'a str)
    ensures
        r@ == if blank(stdout@) { stderr@ } else { stdout@ },
{
    if is_blank(stdout) {
        stderr
    } else {
        stdout
    }
}

/// The rule id that a diagnostic code names: the name inside `eslint(...)`,
/// or the unknown rule where that is not closed; any other code as it is.
pub open spec fn rule_id_of(code: Seq<char>) -> Seq<char> {
    if has_prefix(code, ESLINT_PREFIX@) {
        if code.len() > ESLINT_PREFIX@.len() && code.last() == ')' {
            code.subrange(ESLINT_PREFIX@.len() as int, code.len() - 1)
        } else {
            UNKNOWN_RULE@
        }
    } else {
        code
    }
}

pub fn rule_id(code: &str) -> (r: String)
    ensures
        r@ == rule_id_of(code@),
{
    if starts_with(code, ESLINT_PREFIX) {
        let n = code.unicode_len();
        let p = ESLINT_PREFIX.unicode_len();
        if n > p && code.get_char(n - 1) == ')' {
            String::from_str(code.substring_char(p, n - 1))
        } else {
            String::from_str(UNKNOWN_RULE)
        }
    } else {
        String::from_str(code)
    }
}

/// The column a finding starts at: the span's column, at least 1.
pub open spec fn start_column(s: OxlintSpan) -> int {
    if s.column < 1 {
        1
    } else {
        s.column as int
    }
}

/// The column a finding ends at: the start column plus the span's length,
/// or plus the default width where the length is 0; capped at the largest
/// column.
pub open spec fn end_column(s: OxlintSpan) -> int {
    let w = if s.length > 0 { s.length as int } else { DEFAULT_SPAN_WIDTH as int };
    if start_column(s) + w > usize::MAX {
        usize::MAX as int
    } else {
        start_column(s) + w
    }
}

/// A finding by its views.
pub struct LintModel {
    pub line: usize,
    pub column: int,
    pub end_line: usize,
    pub end_column: int,
    pub message: Seq<char>,
    pub severity: Seq<char>,
    pub rule_id: Seq<char>,
}

impl LintResult {
    pub open spec fn model(&self) -> LintModel {
        LintModel {
            line: self.line,
            column: self.column as int,
            end_line: self.end_line,
            end_column: self.end_column as int,
            message: self.message@,
            severity: self.severity@,
            rule_id: self.rule_id@,
        }
    }
}

/// The finding of a diagnostic, placed by its first label; none where it
/// has no label.
pub open spec fn finding_of(d: OxlintDiagnostic) -> Option<LintModel> {
    if d.labels@.len() == 0 {
        None
    } else {
        let s = d.labels@[0].span;
        Some(LintModel {
            line: s.line,
            column: start_column(s),
            end_line: s.line,
            end_column: end_column(s),
            message: d.message@,
            severity: d.severity@,
            rule_id: rule_id_of(d.code@),
        })
    }
}

/// The findings of a sequence of diagnostics, in order, skipping those
/// without a label.
pub open spec fn findings(ds: Seq<OxlintDiagnostic>) -> Seq<LintModel>
    decreases ds.len(),
{
    if ds.len() == 0 {
        Seq::empty()
    } else {
        match finding_of(ds.last()) {
            Some(f) => findings(ds.drop_last()).push(f),
            None => findings(ds.drop_last()),
        }
    }
}

/// The finding of one diagnostic.
pub fn lint_result(d: &OxlintDiagnostic) -> (r: Option<LintResult>)
    ensures
        match r {
            Some(x) => finding_of(*d) == Some(x.model()),
            None => finding_of(*d) is None,
        },
{
    if d.labels.len() == 0 {
        return None;
    }
    let span = d.labels[0].span;
    let column = if span.column < 1 { 1 } else { span.column };
    let width = if span.length > 0 { span.length } else { DEFAULT_SPAN_WIDTH };
    Some(LintResult {
        line: span.line,
        column,
        end_line: span.line,
        end_column: column.saturating_add(width),
        message: d.message.clone(),
        severity: d.severity.clone(),
        rule_id: rule_id(d.code.as_str()),
    })
}

/// The findings of the diagnostics that have a label, in order.
pub fn lint_results(diagnostics: &Vec<OxlintDiagnostic>) -> (r: Vec<LintResult>)
    ensures
        r@.map_values(|x: LintResult| x.model()) == findings(diagnostics@),
{
    let mut out: Vec<LintResult> = Vec::new();
    let mut i: usize = 0;
    while i < diagnostics.len()
        invariant
            i <= diagnostics@.len(),
            out@.map_values(|x: LintResult| x.model()) == findings(diagnostics@.take(i as int)),
        decreases diagnostics@.len() - i,
    {
        let ghost prev = out@;
        assert(diagnostics@.take(i + 1).drop_last() =~= diagnostics@.take(i as int));
        if let Some(x) = lint_result(&diagnostics[i]) {
            out.push(x);
            assert(out@.map_values(|x: LintResult| x.model()) =~= prev.map_values(|x: LintResult| x.model()).push(x.model()));
        }
        i = i + 1;
    }
    assert(diagnostics@.take(i as int) =~= diagnostics@);
    out
}

} // verus!
