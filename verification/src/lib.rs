pub mod diagnostics;
pub mod linter;
pub mod server;

pub use diagnostics::DiagSeverity;
pub use diagnostics::Diagnostic;
pub use diagnostics::Position;
pub use diagnostics::Range;
pub use diagnostics::Severity;
pub use diagnostics::Span;
pub use linter::LintError;
pub use linter::LintRecord;
pub use server::Capabilities;
pub use server::CodeAction;
pub use server::LaunchCommand;
