//! The ways in which building the detector, or one detection, can fail.

use crate::patterns::{Grammar, Pattern};
use vstd::prelude::*;
use vstd::string::StringExecFns;

verus! {

/// Why a detector could not be built, or why a script could not be examined.
///
/// The first four are failures of construction: without its grammars and
/// patterns there is no detector. The last is the failure of one detection,
/// and leaves the detector fit for the next script.
#[derive(Debug, Clone, Copy, PartialEq, Eq, Structural)]
pub enum AuditError {
    /// The parser of a dialect did not accept the dialect's grammar.
    LoadGrammar(Grammar),
    /// A structural pattern of the catalog did not compile.
    MalformedQuery(Pattern),
    /// A structural pattern compiled, but lacks a capture slot that the
    /// detector reads.
    MissingCapture(Pattern),
    /// The expression of the command interpreter did not compile.
    MalformedExpression,
    /// The body of a step could not be parsed in the step's dialect.
    ParseScript(Grammar),
}

impl AuditError {
    /// Whether the error is one of construction.
    pub open spec fn is_fatal(self) -> bool {
        !(self is ParseScript)
    }

    /// What went wrong, in words.
    pub open spec fn spec_message(self) -> Seq<char> {
        match self {
            AuditError::LoadGrammar(Grammar::Bash) => "failed to load bash parser"@,
            AuditError::LoadGrammar(Grammar::PowerShell) => "failed to load powershell parser"@,
            AuditError::MalformedQuery(_) => "malformed query"@,
            AuditError::MissingCapture(_) => "query lacks a capture"@,
            AuditError::MalformedExpression => "malformed expression"@,
            AuditError::ParseScript(Grammar::Bash) => "failed to parse `run:` body as bash"@,
            AuditError::ParseScript(Grammar::PowerShell) => "failed to parse `run:` body as pwsh"@,
        }
    }

    /// What went wrong, in words.
    pub fn message(&self) -> (text: String)
        ensures
            text@ == self.spec_message(),
    {
        match self {
            AuditError::LoadGrammar(Grammar::Bash) => String::from_str("failed to load bash parser"),
            AuditError::LoadGrammar(Grammar::PowerShell) => String::from_str(
                "failed to load powershell parser",
            ),
            AuditError::MalformedQuery(_) => String::from_str("malformed query"),
            AuditError::MissingCapture(_) => String::from_str("query lacks a capture"),
            AuditError::MalformedExpression => String::from_str("malformed expression"),
            AuditError::ParseScript(Grammar::Bash) => String::from_str(
                "failed to parse `run:` body as bash",
            ),
            AuditError::ParseScript(Grammar::PowerShell) => String::from_str(
                "failed to parse `run:` body as pwsh",
            ),
        }
    }
}

} // verus!
