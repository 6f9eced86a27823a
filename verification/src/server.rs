use vstd::prelude::*;

use crate::diagnostics::Diagnostic;
use crate::diagnostics::DiagnosticView;
use crate::diagnostics::Position;

verus! {

/// The two capabilities the server declares at the handshake: it needs
/// the entire document text on every change, and it offers quick-fix
/// code actions.
#[derive(Debug, Clone, Copy, PartialEq, Eq, Structural)]
pub struct Capabilities {
    pub full_document_sync: bool,
    pub quick_fix_actions: bool,
}

/// The handshake decision. The linter was probed for its version before
/// this call; given that probe's outcome, initialization succeeds with
/// the declared capabilities and the log line naming the version found,
/// or fails with an explicit error, never silently.
pub fn initialize_outcome(probe: Result<String, String>) -> (r: Result<
    (Capabilities, String),
    String,
>)
    ensures
        r is Ok <==> probe is Ok,
        r matches Ok(c) ==> c.0 == (Capabilities {
            full_document_sync: true,
            quick_fix_actions: true,
        }) && c.1@ == "Found "@ + probe->Ok_0@,
        r matches Err(e) ==> e@ == "Failed to run selene: "@ + probe->Err_0@,
{
    match probe {
        Ok(version) => {
            let mut log = String::from_str("Found ");
            log.append(version.as_str());
            Ok((Capabilities { full_document_sync: true, quick_fix_actions: true }, log))
        },
        Err(err) => {
            let mut msg = String::from_str("Failed to run selene: ");
            msg.append(err.as_str());
            Err(msg)
        },
    }
}

/// A change notification carries full-document texts; by the declared
/// capability there is exactly one, and only the first is used even when
/// a client in violation of that capability delivers more.
pub fn change_text_to_lint(changes: &Vec<String>) -> (r: Option<String>)
    ensures
        r is Some <==> changes@.len() > 0,
        r matches Some(t) ==> t@ == changes@[0]@,
{
    if changes.len() > 0 {
        Some(changes[0].clone())
    } else {
        None
    }
}

/// Closing a document publishes this diagnostic set: always the empty
/// one, clearing whatever was shown before.
pub fn diagnostics_on_close() -> (r: Vec<Diagnostic>)
    ensures
        r@ == Seq::<Diagnostic>::empty(),
{
    let r: Vec<Diagnostic> = Vec::new();
    proof {
        assert(r@ =~= Seq::<Diagnostic>::empty());
    }
    r
}

/// Mathematical content of one quick-fix action.
#[verifier::ext_equal]
pub ghost struct ActionView {
    pub title: Seq<char>,
    pub diagnostic: DiagnosticView,
    pub position: Position,
    pub new_text: Seq<char>,
    pub is_preferred: bool,
}

/// One quick-fix: a proposed insertion of a suppression directive at
/// column 0 of the given line, offered for one diagnostic.
pub struct CodeAction {
    pub title: String,
    pub diagnostic: Diagnostic,
    pub position: Position,
    pub new_text: String,
    pub is_preferred: bool,
}

impl View for CodeAction {
    type V = ActionView;

    open spec fn view(&self) -> ActionView {
        ActionView {
            title: self.title@,
            diagnostic: self.diagnostic@,
            position: self.position,
            new_text: self.new_text@,
            is_preferred: self.is_preferred,
        }
    }
}

impl DeepView for CodeAction {
    type V = ActionView;

    open spec fn deep_view(&self) -> ActionView {
        self.view()
    }
}

/// The suppression directive inserted by a quick-fix: the comment prefix,
/// then ` selene: allow(<code>)` and a newline.
pub open spec fn spec_allow_directive(prefix: Seq<char>, code: Seq<char>) -> Seq<char> {
    prefix + " selene: allow("@ + code + ")\n"@
}

/// The whole-file suppression quick-fix for a diagnostic with the given
/// rule code: the file-scoped comment prefix, inserted at line 0.
pub open spec fn spec_file_action(d: DiagnosticView, code: Seq<char>) -> ActionView {
    ActionView {
        title: "Allow rule "@ + code + " for the entire file"@,
        diagnostic: d,
        position: Position { line: 0, character: 0 },
        new_text: spec_allow_directive("--#"@, code),
        is_preferred: false,
    }
}

/// The single-line suppression quick-fix for a diagnostic with the given
/// rule code: inserted at column 0 of the diagnostic's start line, and
/// marked preferred.
pub open spec fn spec_line_action(d: DiagnosticView, code: Seq<char>) -> ActionView {
    ActionView {
        title: "Allow rule "@ + code + " for this line"@,
        diagnostic: d,
        position: Position { line: d.range.start.line, character: 0 },
        new_text: spec_allow_directive("--"@, code),
        is_preferred: true,
    }
}

/// Synthesize one suppression quick-fix for a diagnostic, file-scoped or
/// line-scoped.
pub fn make_allow_action(diagnostic: &Diagnostic, code: &String, entire_file: bool) -> (r:
    CodeAction)
    ensures
        entire_file ==> r@ == spec_file_action(diagnostic@, code@),
        !entire_file ==> r@ == spec_line_action(diagnostic@, code@),
{
    let mut title = String::from_str("Allow rule ");
    title.append(code.as_str());
    title.append(if entire_file { " for the entire file" } else { " for this line" });
    let mut new_text = String::from_str(if entire_file { "--#" } else { "--" });
    new_text.append(" selene: allow(");
    new_text.append(code.as_str());
    new_text.append(")\n");
    let position = if entire_file {
        Position { line: 0, character: 0 }
    } else {
        Position { line: diagnostic.range.start.line, character: 0 }
    };
    let r = CodeAction {
        title,
        diagnostic: diagnostic.clone(),
        position,
        new_text,
        is_preferred: !entire_file,
    };
    proof {
        if entire_file {
            assert(r@ =~= spec_file_action(diagnostic@, code@));
        } else {
            assert(r@ =~= spec_line_action(diagnostic@, code@));
        }
    }
    r
}

/// A diagnostic is offered suppression quick-fixes exactly when it
/// originates from this linter and carries a stable rule code.
pub open spec fn spec_eligible(d: DiagnosticView) -> bool {
    d.source == "selene"@ && d.code is Some
}

/// The quick-fixes synthesized for the diagnostics of a code-action
/// request: for each eligible diagnostic, in order, the file-scoped
/// suppression and then the line-scoped one; nothing for any other.
pub open spec fn spec_actions_for(diags: Seq<DiagnosticView>) -> Seq<ActionView>
    decreases diags.len(),
{
    if diags.len() == 0 {
        Seq::empty()
    } else {
        let prev = spec_actions_for(diags.drop_last());
        let d = diags.last();
        if spec_eligible(d) {
            prev + seq![spec_file_action(d, d.code->0), spec_line_action(d, d.code->0)]
        } else {
            prev
        }
    }
}

/// Every eligible diagnostic is offered its line-scoped suppression:
/// among the actions synthesized for a request, one is exactly the line
/// action of that diagnostic, inserting the suppression directive for its
/// code at column 0 of its start line.
pub proof fn lemma_eligible_diag_has_line_fix(diags: Seq<DiagnosticView>, i: int)
    requires
        0 <= i < diags.len(),
        spec_eligible(diags[i]),
    ensures
        exists|k: int|
            0 <= k < spec_actions_for(diags).len() && #[trigger] spec_actions_for(diags)[k]
                == spec_line_action(diags[i], diags[i].code->0),
    decreases diags.len(),
{
    let acts = spec_actions_for(diags);
    let prev = spec_actions_for(diags.drop_last());
    if i == diags.len() - 1 {
        assert(diags.last() == diags[i]);
        assert(acts[prev.len() as int + 1] == spec_line_action(diags[i], diags[i].code->0));
    } else {
        lemma_eligible_diag_has_line_fix(diags.drop_last(), i);
        assert(diags.drop_last()[i] == diags[i]);
        let k = choose|k: int|
            0 <= k < prev.len() && #[trigger] prev[k] == spec_line_action(
                diags.drop_last()[i],
                diags.drop_last()[i].code->0,
            );
        assert(acts[k] == spec_line_action(diags[i], diags[i].code->0));
    }
}

/// A diagnostic without a stable rule code, or from another source, is
/// never offered a quick-fix: a request whose diagnostics are all
/// ineligible synthesizes no action at all.
pub proof fn lemma_ineligible_diags_no_fix(diags: Seq<DiagnosticView>)
    requires
        forall|i: int| 0 <= i < diags.len() ==> !spec_eligible(#[trigger] diags[i]),
    ensures
        spec_actions_for(diags).len() == 0,
    decreases diags.len(),
{
    if diags.len() > 0 {
        lemma_ineligible_diags_no_fix(diags.drop_last());
        assert(diags.last() == diags[diags.len() - 1]);
    }
}

/// Synthesize the quick-fixes for a code-action request from the
/// diagnostics the client echoed back with it.
pub fn code_actions(diags: &Vec<Diagnostic>) -> (r: Vec<CodeAction>)
    ensures
        r.deep_view() == spec_actions_for(diags.deep_view()),
{
    let ghost dv = diags.deep_view();
    let mut r: Vec<CodeAction> = Vec::new();
    let mut i: usize = 0;
    while i < diags.len()
        invariant
            dv == diags.deep_view(),
            dv.len() == diags@.len(),
            i <= diags@.len(),
            r.deep_view() == spec_actions_for(dv.take(i as int)),
        decreases diags@.len() - i,
    {
        proof {
            assert(dv.take(i + 1 as int).drop_last() =~= dv.take(i as int));
            assert(dv.take(i + 1 as int).last() == dv[i as int]);
        }
        let d = &diags[i];
        let ghost prev = r.deep_view();
        if d.source == String::from_str("selene") {
            match &d.code {
                Some(code) => {
                    let file_action = make_allow_action(d, code, true);
                    r.push(file_action);
                    let line_action = make_allow_action(d, code, false);
                    r.push(line_action);
                    proof {
                        assert(r.deep_view() =~~= prev + seq![
                            spec_file_action(dv[i as int], dv[i as int].code->0),
                            spec_line_action(dv[i as int], dv[i as int].code->0),
                        ]);
                    }
                },
                None => {
                    proof {
                        assert(!spec_eligible(dv[i as int]));
                    }
                },
            }
        } else {
            proof {
                assert(!spec_eligible(dv[i as int]));
            }
        }
        i = i + 1;
    }
    proof {
        assert(dv.take(dv.len() as int) =~= dv);
    }
    r
}

/// A command the host runs: a resolved binary, its arguments, and its
/// environment.
pub struct LaunchCommand {
    pub command: String,
    pub args: Vec<String>,
    pub env: Vec<(String, String)>,
}

/// The host launch decision: the host resolves the server binary by name
/// on the execution path; given that lookup's answer, launch the resolved
/// binary with no arguments and no environment, or fail with the message
/// naming the missing binary.
pub fn language_server_command(path: Option<String>) -> (r: Result<LaunchCommand, String>)
    ensures
        r is Ok <==> path is Some,
        r matches Ok(c) ==> c.command@ == path->0@ && c.args@.len() == 0 && c.env@.len() == 0,
        r matches Err(e) ==> e@ == "selene-language-server is not installed"@,
{
    match path {
        Some(p) => Ok(LaunchCommand { command: p, args: Vec::new(), env: Vec::new() }),
        None => Err(String::from_str("selene-language-server is not installed")),
    }
}

/// The lint invocation: run the linter reading the buffer from standard
/// input, with machine-readable line-delimited output selected and the
/// human summary suppressed.
pub fn lint_invocation() -> (r: LaunchCommand)
    ensures
        r.command@ == "selene"@,
        r.args.deep_view() =~= seq!["-"@, "--display-style=Json"@, "--no-summary"@],
        r.env@.len() == 0,
{
    let mut args: Vec<String> = Vec::new();
    args.push(String::from_str("-"));
    args.push(String::from_str("--display-style=Json"));
    args.push(String::from_str("--no-summary"));
    proof {
        assert(args.deep_view() =~= seq!["-"@, "--display-style=Json"@, "--no-summary"@]);
    }
    LaunchCommand { command: String::from_str("selene"), args, env: Vec::new() }
}

/// The handshake probe: ask the linter for its version, to verify it is
/// reachable before declaring readiness.
pub fn probe_invocation() -> (r: LaunchCommand)
    ensures
        r.command@ == "selene"@,
        r.args.deep_view() =~= seq!["--version"@],
        r.env@.len() == 0,
{
    let mut args: Vec<String> = Vec::new();
    args.push(String::from_str("--version"));
    proof {
        assert(args.deep_view() =~= seq!["--version"@]);
    }
    LaunchCommand { command: String::from_str("selene"), args, env: Vec::new() }
}

} // verus!
