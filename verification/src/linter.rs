use vstd::prelude::*;

use crate::diagnostics::Diagnostic;
use crate::diagnostics::DiagnosticView;
use crate::diagnostics::Span;
use crate::diagnostics::compose_message;
use crate::diagnostics::map_severity;
use crate::diagnostics::range_of_span;
use crate::diagnostics::severity_of;
use crate::diagnostics::spec_composed_message;
use crate::diagnostics::spec_map_severity;
use crate::diagnostics::spec_range_of_span;
use crate::diagnostics::spec_severity_of;
use serde_json::Value;
use serde_json::from_slice;

verus! {

/// Mathematical content of one linter output record.
pub ghost struct RecordView {
    pub severity: Seq<char>,
    pub code: Option<Seq<char>>,
    pub message: Seq<char>,
    pub span: Span,
    pub notes: Seq<Seq<char>>,
}

/// One structured record of the linter's line-delimited output, as read
/// from one line: the severity tag still in string form, an optional
/// stable rule code, the message, the primary span, and the notes.
pub struct LintRecord {
    pub severity: String,
    pub code: Option<String>,
    pub message: String,
    pub span: Span,
    pub notes: Vec<String>,
}

impl View for LintRecord {
    type V = RecordView;

    open spec fn view(&self) -> RecordView {
        RecordView {
            severity: self.severity@,
            code: self.code.deep_view(),
            message: self.message@,
            span: self.span,
            notes: self.notes.deep_view(),
        }
    }
}

/// The record that one line of linter output decodes to, or `None` where
/// the line is not one valid record: a function of the bytes alone.
pub uninterp spec fn spec_parse_record(line: Seq<u8>) -> Option<RecordView>;

/// Relies on serde_json::from_slice and on serde_json::Value's accessors
/// get, pointer, as_str, as_u64 and as_array: whether a line decodes to a
/// record, and which record, depend on the bytes of that line alone.
#[verifier::external_body]
fn parse_record_line(line: &[u8]) -> (r: Option<LintRecord>)
    ensures
        r is Some <==> spec_parse_record(line@) is Some,
        r matches Some(rec) ==> Some(rec@) == spec_parse_record(line@),
{
    let v: Value = from_slice(line).ok()?;
    let s = v.pointer("/primary_label/span")?;
    let g = |k: &str| s.get(k)?.as_u64();
    Some(LintRecord {
        severity: v.get("severity")?.as_str()?.to_owned(),
        code: v.get("code").and_then(|c| c.as_str()).map(str::to_owned),
        message: v.get("message")?.as_str()?.to_owned(),
        span: Span {
            start_line: g("start_line")?,
            start_column: g("start_column")?,
            end_line: g("end_line")?,
            end_column: g("end_column")?,
        },
        notes: v.get("notes")?.as_array()?.iter().map(|n| n.as_str().map(str::to_owned)).collect::<Option<_>>()?,
    })
}

/// Why one lint invocation failed as a whole.
#[derive(Debug, Clone, Copy, PartialEq, Eq, Structural)]
pub enum LintError {
    /// A line of the captured output is not one valid record.
    InvalidRecord,
    /// A record carries a severity tag outside the five known ones:
    /// a defect of the linter contract, never mapped by guess.
    UnknownSeverity,
}

/// The diagnostic a record is shown as, or `None` where its severity tag
/// is outside the five known ones.
pub open spec fn spec_diag_of_record(r: RecordView) -> Option<DiagnosticView> {
    match spec_severity_of(r.severity) {
        Some(sev) => Some(
            DiagnosticView {
                range: spec_range_of_span(r.span),
                severity: Some(spec_map_severity(sev)),
                code: r.code,
                source: "selene"@,
                message: spec_composed_message(r.message, r.notes),
            },
        ),
        None => None,
    }
}

/// Translate one record into the diagnostic it is shown as; a severity
/// tag outside the five known ones is rejected, never mapped by guess.
pub fn diagnostic_of_record(rec: &LintRecord) -> (r: Result<Diagnostic, LintError>)
    ensures
        r is Ok <==> spec_diag_of_record(rec@) is Some,
        r matches Ok(d) ==> Some(d@) == spec_diag_of_record(rec@),
        r matches Err(e) ==> e == LintError::UnknownSeverity,
{
    match severity_of(&rec.severity) {
        Some(sev) => Ok(
            Diagnostic {
                range: range_of_span(&rec.span),
                severity: Some(map_severity(sev)),
                code: match &rec.code {
                    Some(c) => Some(c.clone()),
                    None => None,
                },
                source: String::from_str("selene"),
                message: compose_message(&rec.message, &rec.notes),
            },
        ),
        None => Err(LintError::UnknownSeverity),
    }
}

/// Scan of a byte prefix: the non-empty lines already closed by a newline
/// byte, and the still-open tail line.
pub open spec fn spec_scan_lines(s: Seq<u8>) -> (Seq<Seq<u8>>, Seq<u8>)
    decreases s.len(),
{
    if s.len() == 0 {
        (Seq::empty(), Seq::empty())
    } else {
        let (done, cur) = spec_scan_lines(s.drop_last());
        if s.last() == 10u8 {
            if cur.len() == 0 {
                (done, Seq::empty())
            } else {
                (done.push(cur), Seq::empty())
            }
        } else {
            (done, cur.push(s.last()))
        }
    }
}

/// The non-empty lines of the captured output, split on newline bytes;
/// empty lines carry no record and are dropped.
pub open spec fn spec_lines(s: Seq<u8>) -> Seq<Seq<u8>> {
    let (done, cur) = spec_scan_lines(s);
    if cur.len() == 0 {
        done
    } else {
        done.push(cur)
    }
}

/// Split captured output into its non-empty lines.
pub fn split_lines(out: &[u8]) -> (lines: Vec<Vec<u8>>)
    ensures
        lines.deep_view() == spec_lines(out@),
{
    let mut done: Vec<Vec<u8>> = Vec::new();
    let mut cur: Vec<u8> = Vec::new();
    let mut i: usize = 0;
    while i < out.len()
        invariant
            i <= out@.len(),
            done.deep_view() == spec_scan_lines(out@.take(i as int)).0,
            cur@ == spec_scan_lines(out@.take(i as int)).1,
        decreases out@.len() - i,
    {
        let ghost prev_done = done.deep_view();
        let ghost prev_cur = cur@;
        proof {
            assert(out@.take(i + 1 as int).drop_last() =~= out@.take(i as int));
        }
        let b = out[i];
        if b == 10u8 {
            if cur.len() > 0 {
                done.push(cur);
                cur = Vec::new();
                proof {
                    assert(done.deep_view() =~~= prev_done.push(prev_cur));
                }
            }
        } else {
            cur.push(b);
        }
        i = i + 1;
    }
    proof {
        assert(out@.take(out@.len() as int) =~= out@);
    }
    if cur.len() > 0 {
        let ghost prev_done = done.deep_view();
        let ghost prev_cur = cur@;
        done.push(cur);
        proof {
            assert(done.deep_view() =~~= prev_done.push(prev_cur));
        }
    }
    done
}

/// The diagnostic one output line yields, or `None` where the line is not
/// one valid record or its severity tag is unknown.
pub open spec fn spec_diag_of_line(line: Seq<u8>) -> Option<DiagnosticView> {
    match spec_parse_record(line) {
        Some(r) => spec_diag_of_record(r),
        None => None,
    }
}

/// The failure one bad output line is charged with.
pub open spec fn spec_error_of_line(line: Seq<u8>) -> LintError {
    if spec_parse_record(line) is None {
        LintError::InvalidRecord
    } else {
        LintError::UnknownSeverity
    }
}

/// Lint runs are deterministic: the contract of `diagnostics_of_output`
/// pins the content of a successful run's diagnostics to the captured
/// output alone, so two successful runs over the same output carry
/// identical diagnostic sequences.
pub proof fn lemma_lint_deterministic(
    out: Seq<u8>,
    a: Seq<DiagnosticView>,
    b: Seq<DiagnosticView>,
)
    requires
        a.len() == spec_lines(out).len(),
        forall|i: int| 0 <= i < a.len() ==> Some(#[trigger] a[i]) == spec_diag_of_line(spec_lines(out)[i]),
        b.len() == spec_lines(out).len(),
        forall|i: int| 0 <= i < b.len() ==> Some(#[trigger] b[i]) == spec_diag_of_line(spec_lines(out)[i]),
    ensures
        a == b,
{
    assert(a =~= b);
}

/// Translate the linter's captured output into the diagnostics it shows.
/// The run yields the complete diagnostic sequence, one diagnostic per
/// non-empty output line in order, or fails outright on the first line
/// that is not one valid record or carries an unknown severity tag:
/// never a silent partial result.
pub fn diagnostics_of_output(out: &[u8]) -> (r: Result<Vec<Diagnostic>, LintError>)
    ensures
        r is Ok <==> (forall|i: int|
            0 <= i < spec_lines(out@).len() ==> #[trigger] spec_diag_of_line(spec_lines(out@)[i]) is Some),
        r matches Ok(ds) ==> ds@.len() == spec_lines(out@).len() && (forall|i: int|
            0 <= i < ds@.len() ==> Some(#[trigger] ds@[i]@) == spec_diag_of_line(spec_lines(out@)[i])),
        r matches Err(e) ==> exists|i: int|
            0 <= i < spec_lines(out@).len() && #[trigger] spec_diag_of_line(spec_lines(out@)[i]) is None
                && e == spec_error_of_line(spec_lines(out@)[i]) && (forall|j: int|
                0 <= j < i ==> #[trigger] spec_diag_of_line(spec_lines(out@)[j]) is Some),
{
    let lines = split_lines(out);
    let ghost lines_view = spec_lines(out@);
    let mut ds: Vec<Diagnostic> = Vec::new();
    let mut i: usize = 0;
    while i < lines.len()
        invariant
            lines_view == spec_lines(out@),
            lines.deep_view() == lines_view,
            lines@.len() == lines_view.len(),
            i <= lines@.len(),
            ds@.len() == i,
            forall|j: int| 0 <= j < i ==> #[trigger] spec_diag_of_line(lines_view[j]) is Some,
            forall|j: int| 0 <= j < i ==> Some(#[trigger] ds@[j]@) == spec_diag_of_line(lines_view[j]),
        decreases lines@.len() - i,
    {
        proof {
            assert(lines@[i as int]@ =~= lines.deep_view()[i as int]);
        }
        match parse_record_line(lines[i].as_slice()) {
            None => {
                proof {
                    assert(spec_parse_record(spec_lines(out@)[i as int]) is None);
                    assert(spec_diag_of_line(spec_lines(out@)[i as int]) is None);
                    assert(spec_error_of_line(spec_lines(out@)[i as int]) == LintError::InvalidRecord);
                    assert(forall|j: int| 0 <= j < i ==> #[trigger] spec_diag_of_line(spec_lines(out@)[j]) is Some);
                }
                return Err(LintError::InvalidRecord);
            },
            Some(rec) => {
                match diagnostic_of_record(&rec) {
                    Ok(d) => {
                        ds.push(d);
                    },
                    Err(e) => {
                        proof {
                            assert(spec_parse_record(lines_view[i as int]) is Some);
                            assert(spec_diag_of_line(lines_view[i as int]) is None);
                            assert(spec_error_of_line(lines_view[i as int]) == LintError::UnknownSeverity);
                        }
                        return Err(e);
                    },
                }
            },
        }
        i = i + 1;
    }
    Ok(ds)
}

} // verus!
