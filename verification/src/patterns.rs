//! The structural patterns of the two parsed dialects, and the expression of
//! the command interpreter.

use vstd::prelude::*;

verus! {

/// A dialect whose scripts are parsed into a syntax tree.
#[derive(Debug, Clone, Copy, PartialEq, Eq, Structural)]
pub enum Grammar {
    /// The POSIX-like shell, `bash` and `sh`.
    Bash,
    /// The typed scripting shell, `pwsh` and `powershell`.
    PowerShell,
}

/// One of the four structural patterns of the catalog.
#[derive(Debug, Clone, Copy, PartialEq, Eq, Structural)]
pub enum Pattern {
    /// A command of the POSIX-like shell, redirected into the file.
    BashRedirect,
    /// A pipeline of the POSIX-like shell with a `tee` stage on the file.
    BashPipeline,
    /// A redirection of the typed scripting shell into the file.
    PwshRedirect,
    /// A pipeline of the typed scripting shell with a stage that writes the
    /// file.
    PwshPipeline,
}

/// A command with its arguments, redirected with `>`, `>>` or another file
/// redirection of the grammar to a destination that is an expansion of a
/// variable, bare, in braces or alone in double quotes, whose text holds
/// `GITHUB_ENV` in any case.
pub const BASH_REDIRECT_QUERY: &'static str = r#"
(redirected_statement
 (
   (command name: (command_name) @cmd argument: (_)* @args)
 )
 (file_redirect (
   [
     (string (_ (variable_name)))
     (expansion (variable_name))
     (simple_expansion (variable_name))
   ] @destination
 ))
 (#match? @destination "(?i)GITHUB_ENV")
) @span
"#;

/// A pipeline with a stage whose command name holds `tee` and that has an
/// argument which is an expansion whose text holds `GITHUB_ENV` in any case.
pub const BASH_PIPELINE_QUERY: &'static str = r#"
(pipeline
  (command
    name: (command_name) @cmd
    argument: [
      (string (_ (variable_name)))
      (expansion)
      (simple_expansion)
    ] @arg
  )
  (#match? @cmd "tee")
  (#match? @arg "(?i)GITHUB_ENV")
) @span
"#;

/// A redirection with `>`, `>>` or another file redirection of the grammar,
/// whose file name holds a variable, bare or inside an expandable string,
/// whose text holds `env:GITHUB_ENV` in any case.
pub const PWSH_REDIRECT_QUERY: &'static str = r#"
(redirection
  (file_redirection_operator)
  (redirected_file_name
    (_)*
    (array_literal_expression
      (unary_expression
        [
          (string_literal
            (expandable_string_literal (variable) @destination))
          (variable) @destination
        ]
      )
    (_)*
  )
  (#match? @destination "(?i)ENV:GITHUB_ENV")
)) @span
"#;

/// A pipeline with a command named `out-file`, `add-content`, `set-content`
/// or `tee-object`, in any case, among whose elements is a variable, bare or
/// inside an expandable string, whose text holds `env:GITHUB_ENV` in any
/// case.
pub const PWSH_PIPELINE_QUERY: &'static str = r#"
(pipeline
  (command
    command_name: (command_name) @cmd
    command_elements: (command_elements
      (_)*
      (array_literal_expression
        (unary_expression [
          (string_literal
            (expandable_string_literal (variable) @destination))
          (variable) @destination
        ])
      )
      (_)*))
  (#match? @cmd "(?i)out-file|add-content|set-content|tee-object")
  (#match? @destination "(?i)ENV:GITHUB_ENV")
) @span
"#;

/// At least one character of a line, then `>` or `>>`, then `%GITHUB_ENV%`
/// in any case, with or without a double quote before and after it; blanks
/// may stand before and after the operator.
pub const GITHUB_ENV_WRITE_CMD: &'static str = r#"(?mi)^.+\s*>>?\s*"?%GITHUB_ENV%"?.*$"#;

impl Pattern {
    /// The grammar over whose syntax trees the pattern is stated.
    pub open spec fn spec_grammar(self) -> Grammar {
        match self {
            Pattern::BashRedirect | Pattern::BashPipeline => Grammar::Bash,
            Pattern::PwshRedirect | Pattern::PwshPipeline => Grammar::PowerShell,
        }
    }

    /// The text of the pattern.
    pub open spec fn spec_text(self) -> Seq<char> {
        match self {
            Pattern::BashRedirect => BASH_REDIRECT_QUERY@,
            Pattern::BashPipeline => BASH_PIPELINE_QUERY@,
            Pattern::PwshRedirect => PWSH_REDIRECT_QUERY@,
            Pattern::PwshPipeline => PWSH_PIPELINE_QUERY@,
        }
    }

    /// The grammar over whose syntax trees the pattern is stated.
    pub fn grammar(self) -> (grammar: Grammar)
        ensures
            grammar == self.spec_grammar(),
    {
        match self {
            Pattern::BashRedirect | Pattern::BashPipeline => Grammar::Bash,
            Pattern::PwshRedirect | Pattern::PwshPipeline => Grammar::PowerShell,
        }
    }

    /// The text of the pattern.
    pub fn text(self) -> (text: &'static str)
        ensures
            text@ == self.spec_text(),
    {
        match self {
            Pattern::BashRedirect => BASH_REDIRECT_QUERY,
            Pattern::BashPipeline => BASH_PIPELINE_QUERY,
            Pattern::PwshRedirect => PWSH_REDIRECT_QUERY,
            Pattern::PwshPipeline => PWSH_PIPELINE_QUERY,
        }
    }
}

} // verus!
