use selene_ls::diagnostics::{compose_message, map_severity, range_of_span, severity_of};
use selene_ls::linter::{diagnostic_of_record, diagnostics_of_output, split_lines};
use selene_ls::{DiagSeverity, LintError, LintRecord, Position, Range, Severity, Span};

fn record(severity: &str, code: Option<&str>, message: &str, notes: &[&str]) -> LintRecord {
    LintRecord {
        severity: severity.to_string(),
        code: code.map(|c| c.to_string()),
        message: message.to_string(),
        span: Span { start_line: 1, start_column: 2, end_line: 3, end_column: 4 },
        notes: notes.iter().map(|n| n.to_string()).collect(),
    }
}

#[test]
fn severity_mapping_is_total_over_known_tags() {
    assert_eq!(severity_of(&"Bug".to_string()), Some(Severity::Bug));
    assert_eq!(severity_of(&"Error".to_string()), Some(Severity::Error));
    assert_eq!(severity_of(&"Warning".to_string()), Some(Severity::Warning));
    assert_eq!(severity_of(&"Note".to_string()), Some(Severity::Note));
    assert_eq!(severity_of(&"Help".to_string()), Some(Severity::Help));

    assert_eq!(map_severity(Severity::Bug), DiagSeverity::Error);
    assert_eq!(map_severity(Severity::Error), DiagSeverity::Error);
    assert_eq!(map_severity(Severity::Warning), DiagSeverity::Warning);
    assert_eq!(map_severity(Severity::Note), DiagSeverity::Information);
    assert_eq!(map_severity(Severity::Help), DiagSeverity::Hint);
}

#[test]
fn unknown_severity_is_rejected_not_defaulted() {
    assert_eq!(severity_of(&"Critical".to_string()), None);
    assert_eq!(severity_of(&"warning".to_string()), None);
    assert_eq!(severity_of(&"".to_string()), None);

    let rec = record("Critical", None, "boom", &[]);
    assert_eq!(diagnostic_of_record(&rec), Err(LintError::UnknownSeverity));
}

#[test]
fn span_maps_to_range_without_shift() {
    let span = Span { start_line: 2, start_column: 4, end_line: 2, end_column: 10 };
    let range = range_of_span(&span);
    assert_eq!(
        range,
        Range {
            start: Position { line: 2, character: 4 },
            end: Position { line: 2, character: 10 },
        }
    );
}

#[test]
fn message_without_notes_is_unchanged() {
    let message = compose_message(&"x is unused".to_string(), &Vec::new());
    assert_eq!(message, "x is unused");
}

#[test]
fn message_with_notes_appends_notes_block_in_order() {
    let notes = vec!["first note".to_string(), "second note".to_string()];
    let message = compose_message(&"empty if".to_string(), &notes);
    assert_eq!(message, "empty if\nNotes:\n- first note\n- second note\n");
}

#[test]
fn record_becomes_diagnostic_with_source_label() {
    let rec = record("Note", Some("shadowing"), "x shadows x", &["previously defined here"]);
    let diag = diagnostic_of_record(&rec).expect("known severity");
    assert_eq!(diag.severity, Some(DiagSeverity::Information));
    assert_eq!(diag.code.as_deref(), Some("shadowing"));
    assert_eq!(diag.source, "selene");
    assert_eq!(diag.message, "x shadows x\nNotes:\n- previously defined here\n");
    assert_eq!(diag.range.start, Position { line: 1, character: 2 });
    assert_eq!(diag.range.end, Position { line: 3, character: 4 });
}

#[test]
fn split_lines_drops_empty_lines() {
    let lines = split_lines(b"one\n\ntwo\nthree");
    assert_eq!(lines, vec![b"one".to_vec(), b"two".to_vec(), b"three".to_vec()]);
    assert_eq!(split_lines(b""), Vec::<Vec<u8>>::new());
    assert_eq!(split_lines(b"\n\n"), Vec::<Vec<u8>>::new());
}

#[test]
fn single_warning_record_end_to_end() {
    let out = b"{\"severity\":\"Warning\",\"code\":\"unused_variable\",\"message\":\"x is unused\",\"primary_label\":{\"span\":{\"start_line\":0,\"start_column\":4,\"end_line\":0,\"end_column\":5}},\"notes\":[]}\n";
    let diags = diagnostics_of_output(out).expect("valid record");
    assert_eq!(diags.len(), 1);
    let d = &diags[0];
    assert_eq!(d.range.start, Position { line: 0, character: 4 });
    assert_eq!(d.range.end, Position { line: 0, character: 5 });
    assert_eq!(d.severity, Some(DiagSeverity::Warning));
    assert_eq!(d.code.as_deref(), Some("unused_variable"));
    assert_eq!(d.message, "x is unused");
    assert_eq!(d.source, "selene");
}

#[test]
fn record_without_code_and_with_notes_end_to_end() {
    let out = b"{\"severity\":\"Help\",\"message\":\"consider removing this\",\"primary_label\":{\"span\":{\"start_line\":7,\"start_column\":0,\"end_line\":8,\"end_column\":3}},\"notes\":[\"it does nothing\",\"see the style guide\"]}\n";
    let diags = diagnostics_of_output(out).expect("valid record");
    assert_eq!(diags.len(), 1);
    let d = &diags[0];
    assert_eq!(d.severity, Some(DiagSeverity::Hint));
    assert_eq!(d.code, None);
    assert_eq!(
        d.message,
        "consider removing this\nNotes:\n- it does nothing\n- see the style guide\n"
    );
}

#[test]
fn multiple_records_stay_in_order() {
    let out = b"{\"severity\":\"Bug\",\"code\":\"a\",\"message\":\"first\",\"primary_label\":{\"span\":{\"start_line\":0,\"start_column\":0,\"end_line\":0,\"end_column\":1}},\"notes\":[]}\n\n{\"severity\":\"Note\",\"code\":\"b\",\"message\":\"second\",\"primary_label\":{\"span\":{\"start_line\":1,\"start_column\":0,\"end_line\":1,\"end_column\":1}},\"notes\":[]}\n";
    let diags = diagnostics_of_output(out).expect("two valid records");
    assert_eq!(diags.len(), 2);
    assert_eq!(diags[0].message, "first");
    assert_eq!(diags[0].severity, Some(DiagSeverity::Error));
    assert_eq!(diags[1].message, "second");
    assert_eq!(diags[1].severity, Some(DiagSeverity::Information));
}

#[test]
fn empty_output_yields_no_diagnostics() {
    assert_eq!(diagnostics_of_output(b""), Ok(Vec::new()));
    assert_eq!(diagnostics_of_output(b"\n"), Ok(Vec::new()));
}

#[test]
fn invalid_record_fails_the_whole_run() {
    assert_eq!(diagnostics_of_output(b"not json\n"), Err(LintError::InvalidRecord));

    // A valid record followed by garbage yields no partial result.
    let out = b"{\"severity\":\"Warning\",\"code\":\"x\",\"message\":\"m\",\"primary_label\":{\"span\":{\"start_line\":0,\"start_column\":0,\"end_line\":0,\"end_column\":1}},\"notes\":[]}\ngarbage\n";
    assert_eq!(diagnostics_of_output(out), Err(LintError::InvalidRecord));
}

#[test]
fn record_with_missing_fields_is_invalid() {
    assert_eq!(diagnostics_of_output(b"{\"severity\":\"Warning\"}\n"), Err(LintError::InvalidRecord));
    assert_eq!(diagnostics_of_output(b"{}\n"), Err(LintError::InvalidRecord));
}

#[test]
fn unknown_severity_fails_the_whole_run() {
    let out = b"{\"severity\":\"Fatal\",\"code\":\"x\",\"message\":\"m\",\"primary_label\":{\"span\":{\"start_line\":0,\"start_column\":0,\"end_line\":0,\"end_column\":1}},\"notes\":[]}\n";
    assert_eq!(diagnostics_of_output(out), Err(LintError::UnknownSeverity));
}

#[test]
fn lint_runs_are_deterministic() {
    let out = b"{\"severity\":\"Warning\",\"code\":\"unused_variable\",\"message\":\"x is unused\",\"primary_label\":{\"span\":{\"start_line\":0,\"start_column\":4,\"end_line\":0,\"end_column\":5}},\"notes\":[\"n\"]}\n";
    let first = diagnostics_of_output(out);
    let second = diagnostics_of_output(out);
    assert_eq!(first, second);
}
