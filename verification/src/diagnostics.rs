use vstd::prelude::*;

verus! {

/// Severity of one linter finding, exactly as the linter tags it.
#[derive(Debug, Clone, Copy, PartialEq, Eq, Structural)]
pub enum Severity {
    Bug,
    Error,
    Warning,
    Note,
    Help,
}

/// Severity of a protocol diagnostic, as shown to the user.
#[derive(Debug, Clone, Copy, PartialEq, Eq, Structural)]
pub enum DiagSeverity {
    Error,
    Warning,
    Information,
    Hint,
}

/// The severity tag of a linter record, decoded from its string form.
/// Any string outside the five known tags is rejected.
pub open spec fn spec_severity_of(s: Seq<char>) -> Option<Severity> {
    if s == "Bug"@ {
        Some(Severity::Bug)
    } else if s == "Error"@ {
        Some(Severity::Error)
    } else if s == "Warning"@ {
        Some(Severity::Warning)
    } else if s == "Note"@ {
        Some(Severity::Note)
    } else if s == "Help"@ {
        Some(Severity::Help)
    } else {
        None
    }
}

/// Decode a severity tag; `None` for any string outside the five known tags.
pub fn severity_of(s: &String) -> (r: Option<Severity>)
    ensures
        r == spec_severity_of(s@),
{
    if *s == String::from_str("Bug") {
        Some(Severity::Bug)
    } else if *s == String::from_str("Error") {
        Some(Severity::Error)
    } else if *s == String::from_str("Warning") {
        Some(Severity::Warning)
    } else if *s == String::from_str("Note") {
        Some(Severity::Note)
    } else if *s == String::from_str("Help") {
        Some(Severity::Help)
    } else {
        None
    }
}

/// How each linter severity is shown: the mapping is total over the
/// five known tags.
pub open spec fn spec_map_severity(s: Severity) -> DiagSeverity {
    match s {
        Severity::Bug => DiagSeverity::Error,
        Severity::Error => DiagSeverity::Error,
        Severity::Warning => DiagSeverity::Warning,
        Severity::Note => DiagSeverity::Information,
        Severity::Help => DiagSeverity::Hint,
    }
}

/// Map a linter severity to the protocol severity it is shown as.
pub fn map_severity(s: Severity) -> (r: DiagSeverity)
    ensures
        r == spec_map_severity(s),
{
    match s {
        Severity::Bug => DiagSeverity::Error,
        Severity::Error => DiagSeverity::Error,
        Severity::Warning => DiagSeverity::Warning,
        Severity::Note => DiagSeverity::Information,
        Severity::Help => DiagSeverity::Hint,
    }
}

/// A source range as the linter reports it: zero-based line and column
/// offsets, start and end.
#[derive(Debug, Clone, Copy, PartialEq, Eq, Structural)]
pub struct Span {
    pub start_line: u64,
    pub start_column: u64,
    pub end_line: u64,
    pub end_column: u64,
}

/// A zero-based position in a document, in the protocol's coordinate system.
#[derive(Debug, Clone, Copy, PartialEq, Eq, Structural)]
pub struct Position {
    pub line: u64,
    pub character: u64,
}

/// A half-open range in a document, in the protocol's coordinate system.
#[derive(Debug, Clone, Copy, PartialEq, Eq, Structural)]
pub struct Range {
    pub start: Position,
    pub end: Position,
}

/// The protocol range a span maps to: the same zero-based offsets,
/// with no shift in either coordinate.
pub open spec fn spec_range_of_span(s: Span) -> Range {
    Range {
        start: Position { line: s.start_line, character: s.start_column },
        end: Position { line: s.end_line, character: s.end_column },
    }
}

/// Carry a linter span over into a protocol range, offsets unchanged.
pub fn range_of_span(s: &Span) -> (r: Range)
    ensures
        r == spec_range_of_span(*s),
{
    Range {
        start: Position { line: s.start_line, character: s.start_column },
        end: Position { line: s.end_line, character: s.end_column },
    }
}

/// Mathematical content of a protocol diagnostic.
pub ghost struct DiagnosticView {
    pub range: Range,
    pub severity: Option<DiagSeverity>,
    pub code: Option<Seq<char>>,
    pub source: Seq<char>,
    pub message: Seq<char>,
}

/// One protocol diagnostic, the unit shown to the user.
#[derive(Debug, PartialEq, Eq)]
pub struct Diagnostic {
    pub range: Range,
    pub severity: Option<DiagSeverity>,
    pub code: Option<String>,
    pub source: String,
    pub message: String,
}

impl View for Diagnostic {
    type V = DiagnosticView;

    open spec fn view(&self) -> DiagnosticView {
        DiagnosticView {
            range: self.range,
            severity: self.severity,
            code: self.code.deep_view(),
            source: self.source@,
            message: self.message@,
        }
    }
}

impl DeepView for Diagnostic {
    type V = DiagnosticView;

    open spec fn deep_view(&self) -> DiagnosticView {
        self.view()
    }
}

impl Clone for Diagnostic {
    fn clone(&self) -> (r: Self)
        ensures
            r@ == self@,
    {
        Diagnostic {
            range: self.range,
            severity: self.severity,
            code: match &self.code {
                Some(c) => Some(c.clone()),
                None => None,
            },
            source: self.source.clone(),
            message: self.message.clone(),
        }
    }
}

/// The rendered list of supplementary notes: each note on a line of its
/// own, as `- <note>` followed by a newline.
pub open spec fn spec_notes_block(notes: Seq<Seq<char>>) -> Seq<char>
    decreases notes.len(),
{
    if notes.len() == 0 {
        Seq::empty()
    } else {
        spec_notes_block(notes.drop_last()) + "- "@ + notes.last() + "\n"@
    }
}

/// The message a finding is shown with: the linter's message alone when
/// there are no notes, else the message, a `Notes:` header, and the
/// rendered notes in their original order.
pub open spec fn spec_composed_message(message: Seq<char>, notes: Seq<Seq<char>>) -> Seq<char> {
    if notes.len() == 0 {
        message
    } else {
        message + "\nNotes:\n"@ + spec_notes_block(notes)
    }
}

/// Compose the user-visible message of a finding from the linter's
/// message and its supplementary notes.
pub fn compose_message(message: &String, notes: &Vec<String>) -> (r: String)
    ensures
        r@ == spec_composed_message(message@, notes.deep_view()),
{
    let ghost notes_view: Seq<Seq<char>> = notes.deep_view();
    let mut r = message.clone();
    if notes.len() > 0 {
        r.append("\nNotes:\n");
        let mut i: usize = 0;
        while i < notes.len()
            invariant
                notes_view.len() == notes@.len(),
                forall|k: int| 0 <= k < notes@.len() ==> notes_view[k] == notes@[k]@,
                i <= notes@.len(),
                r@ == message@ + "\nNotes:\n"@ + spec_notes_block(notes_view.take(i as int)),
            decreases notes@.len() - i,
        {
            r.append("- ");
            r.append(notes[i].as_str());
            r.append("\n");
            proof {
                assert(notes_view.take(i + 1 as int).drop_last() =~= notes_view.take(i as int));
                assert(notes_view.take(i + 1 as int).last() == notes_view[i as int]);
            }
            i = i + 1;
        }
        proof {
            assert(notes_view.take(notes_view.len() as int) =~= notes_view);
        }
    }
    r
}

} // verus!
