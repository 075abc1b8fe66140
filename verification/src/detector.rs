//! The detector: its catalog of grammars and patterns, the three dialect
//! detectors, and the dispatcher.

use crate::engine::{
    bash_language, capture_index_for_name, capture_slot, compile_query, grammar_loads,
    language_grammar, new_parser, parse, parser_grammar, parses, pattern_compiles, pattern_matches,
    pwsh_language, query, query_grammar, query_text, set_language,
};
use crate::error::AuditError;
use crate::expression::{
    compile_expression, expression_compiles, expression_matches, is_match, regex_text,
};
use crate::patterns::{
    Grammar, Pattern, BASH_PIPELINE_QUERY, BASH_REDIRECT_QUERY, GITHUB_ENV_WRITE_CMD,
    PWSH_PIPELINE_QUERY, PWSH_REDIRECT_QUERY,
};
use crate::spans::{pipeline_spans, redirect_spans};
use crate::text::str_eq;
use regex::Regex;
use std::ops::Range;
use tree_sitter::{Language, Parser, Query};
use vstd::prelude::*;

verus! {

/// The settings that every rule of the host is built with. This rule reads
/// none of them.
#[derive(Debug)]
pub struct AuditState {
    /// Whether audits that need the network are switched off.
    pub no_online_audits: bool,
    /// Where the host keeps its cache.
    pub cache_dir: String,
    /// The host's credential, if it has one.
    pub gh_token: Option<String>,
}

/// Why a pattern could not be made ready.
#[derive(Debug, Clone, Copy, PartialEq, Eq, Structural)]
pub enum QueryFault {
    /// The pattern did not compile.
    Malformed,
    /// The pattern compiled, but has no capture named `span`.
    NoSpan,
}

/// A compiled structural pattern of the catalog, with its capture named
/// `span`, which covers the whole construct that the pattern matches.
pub struct SpannedQuery {
    pattern: Pattern,
    inner: Query,
    span_idx: u32,
}

impl SpannedQuery {
    /// The query is the pattern that it is named after, compiled for that
    /// pattern's grammar, and `span_idx` is the slot of the pattern's span
    /// capture: a compiled pattern always has one.
    #[verifier::type_invariant]
    closed spec fn has_span(self) -> bool {
        &&& query_grammar(self.inner) == Some(self.pattern.spec_grammar())
        &&& query_text(self.inner) == self.pattern.spec_text()
        &&& capture_slot(self.pattern.spec_text(), "span"@) == Some(self.span_idx)
    }

    /// Which pattern of the catalog this is.
    pub closed spec fn name(self) -> Pattern {
        self.pattern
    }

    /// What stands in the way of making a pattern of the catalog ready:
    /// that it does not compile for its grammar, or that it has no capture
    /// named `span`.
    pub open spec fn fault(pattern: Pattern) -> Option<QueryFault> {
        if !pattern_compiles(pattern.spec_grammar(), pattern.spec_text()) {
            Some(QueryFault::Malformed)
        } else if capture_slot(pattern.spec_text(), "span"@) is None {
            Some(QueryFault::NoSpan)
        } else {
            None
        }
    }

    /// Compiles a pattern of the catalog for the grammar of its dialect and
    /// finds its span capture.
    pub(crate) fn new(pattern: Pattern, language: &Language) -> (made: Result<Self, QueryFault>)
        requires
            language_grammar(*language) == Some(pattern.spec_grammar()),
        ensures
            match made {
                Ok(compiled) => Self::fault(pattern) is None && compiled.name() == pattern,
                Err(fault) => Self::fault(pattern) == Some(fault),
            },
    {
        match compile_query(language, pattern.text()) {
            Ok(inner) => match capture_index_for_name(&inner, "span") {
                Some(span_idx) => Ok(SpannedQuery { pattern, inner, span_idx }),
                None => Err(QueryFault::NoSpan),
            },
            Err(_) => Err(QueryFault::Malformed),
        }
    }

    /// The slot of the span capture.
    pub(crate) fn span_idx(&self) -> (slot: u32)
        ensures
            capture_slot(self.name().spec_text(), "span"@) == Some(slot),
    {
        proof {
            use_type_invariant(self);
        }
        self.span_idx
    }
}

impl std::ops::Deref for SpannedQuery {
    type Target = Query;

    /// The compiled pattern itself.
    fn deref(&self) -> (query: &Query)
        ensures
            query_grammar(*query) == Some(self.name().spec_grammar()),
            query_text(*query) == self.name().spec_text(),
    {
        proof {
            use_type_invariant(self);
        }
        &self.inner
    }
}

/// A dialect that the detector examines.
#[derive(Debug, Clone, Copy, PartialEq, Eq, Structural)]
pub enum Dialect {
    /// The POSIX-like shell: `bash` and `sh`.
    Bash,
    /// The command interpreter: `cmd`.
    Cmd,
    /// The typed scripting shell: `pwsh` and `powershell`.
    Pwsh,
}

/// The dialect that the name of an interpreter stands for, spelled as the
/// step declares it; `None` for every other name.
pub open spec fn dialect_of(shell: Seq<char>) -> Option<Dialect> {
    if shell == "bash"@ || shell == "sh"@ {
        Some(Dialect::Bash)
    } else if shell == "cmd"@ {
        Some(Dialect::Cmd)
    } else if shell == "pwsh"@ || shell == "powershell"@ {
        Some(Dialect::Pwsh)
    } else {
        None
    }
}

/// The slot of a named capture in a pattern of the catalog. Every detector
/// that exists was built with these slots present.
pub open spec fn slot(pattern: Pattern, name: Seq<char>) -> u32 {
    capture_slot(pattern.spec_text(), name).unwrap()
}

/// Where a script of the POSIX-like shell is reported: first where the
/// matches of the redirect pattern are, then where those of the pipeline
/// pattern are.
pub open spec fn bash_spans(script: Seq<char>) -> Seq<Range<usize>> {
    redirect_spans(
        pattern_matches(Grammar::Bash, BASH_REDIRECT_QUERY@, script),
        slot(Pattern::BashRedirect, "cmd"@),
        slot(Pattern::BashRedirect, "args"@),
        slot(Pattern::BashRedirect, "span"@),
    ) + pipeline_spans(
        pattern_matches(Grammar::Bash, BASH_PIPELINE_QUERY@, script),
        slot(Pattern::BashPipeline, "span"@),
    )
}

/// Whether a script of the typed scripting shell has a match of either of
/// its patterns.
pub open spec fn pwsh_writes(script: Seq<char>) -> bool {
    ||| pattern_matches(Grammar::PowerShell, PWSH_REDIRECT_QUERY@, script).len() > 0
    ||| pattern_matches(Grammar::PowerShell, PWSH_PIPELINE_QUERY@, script).len() > 0
}

/// Whether a script of the command interpreter has a line that the
/// expression matches.
pub open spec fn cmd_writes(script: Seq<char>) -> bool {
    expression_matches(GITHUB_ENV_WRITE_CMD@, script)
}

/// What detection gives for a script and the name of its interpreter.
///
/// A script of a parsed dialect that does not parse is an error. An
/// interpreter that the detector does not know is no error: nothing is
/// reported of its script.
pub open spec fn detection(script: Seq<char>, shell: Seq<char>) -> Result<bool, AuditError> {
    match dialect_of(shell) {
        Some(Dialect::Bash) => if parses(Grammar::Bash, script) {
            Ok(bash_spans(script).len() > 0)
        } else {
            Err(AuditError::ParseScript(Grammar::Bash))
        },
        Some(Dialect::Cmd) => Ok(cmd_writes(script)),
        Some(Dialect::Pwsh) => if parses(Grammar::PowerShell, script) {
            Ok(pwsh_writes(script))
        } else {
            Err(AuditError::ParseScript(Grammar::PowerShell))
        },
        None => Ok(false),
    }
}

/// What stands in the way of a pattern of the catalog, as an error of
/// construction.
pub open spec fn pattern_fault(pattern: Pattern) -> Option<AuditError> {
    match SpannedQuery::fault(pattern) {
        Some(QueryFault::Malformed) => Some(AuditError::MalformedQuery(pattern)),
        Some(QueryFault::NoSpan) => Some(AuditError::MissingCapture(pattern)),
        None => None,
    }
}

/// What stands in the way of building the detector: the first of its
/// grammars, patterns, capture slots and expression, in the order in which
/// they are made ready, that cannot be; `None` if all of them can.
pub open spec fn construction_fault() -> Option<AuditError> {
    if !grammar_loads(Grammar::Bash) {
        Some(AuditError::LoadGrammar(Grammar::Bash))
    } else if !grammar_loads(Grammar::PowerShell) {
        Some(AuditError::LoadGrammar(Grammar::PowerShell))
    } else if pattern_fault(Pattern::BashRedirect) is Some {
        pattern_fault(Pattern::BashRedirect)
    } else if pattern_fault(Pattern::BashPipeline) is Some {
        pattern_fault(Pattern::BashPipeline)
    } else if pattern_fault(Pattern::PwshRedirect) is Some {
        pattern_fault(Pattern::PwshRedirect)
    } else if pattern_fault(Pattern::PwshPipeline) is Some {
        pattern_fault(Pattern::PwshPipeline)
    } else if capture_slot(BASH_REDIRECT_QUERY@, "cmd"@) is None || capture_slot(
        BASH_REDIRECT_QUERY@,
        "args"@,
    ) is None {
        Some(AuditError::MissingCapture(Pattern::BashRedirect))
    } else if !expression_compiles(GITHUB_ENV_WRITE_CMD@) {
        Some(AuditError::MalformedExpression)
    } else {
        None
    }
}

/// The detector of dangerous writes into the file that `GITHUB_ENV` names.
///
/// It owns one parser for each parsed dialect and the compiled patterns, all
/// made once, by [`GitHubEnv::new`]. A detection needs the detector to
/// itself, since parsing changes a parser: a host with several threads
/// gives each its own detector, or guards a shared one with a lock.
pub struct GitHubEnv {
    bash_parser: Parser,
    pwsh_parser: Parser,
    bash_redirect_query: SpannedQuery,
    bash_pipeline_query: SpannedQuery,
    pwsh_redirect_query: SpannedQuery,
    pwsh_pipeline_query: SpannedQuery,
    bash_cmd_idx: u32,
    bash_args_idx: u32,
    cmd_write: Regex,
}

impl GitHubEnv {
    /// Each parser holds the grammar of its dialect, each query is its
    /// pattern of the catalog, the two slots are those of the redirect
    /// pattern's `cmd` and `args` captures, and the expression is that of
    /// the command interpreter.
    #[verifier::type_invariant]
    closed spec fn ready(self) -> bool {
        &&& parser_grammar(self.bash_parser) == Some(Grammar::Bash)
        &&& parser_grammar(self.pwsh_parser) == Some(Grammar::PowerShell)
        &&& self.bash_redirect_query.name() == Pattern::BashRedirect
        &&& self.bash_pipeline_query.name() == Pattern::BashPipeline
        &&& self.pwsh_redirect_query.name() == Pattern::PwshRedirect
        &&& self.pwsh_pipeline_query.name() == Pattern::PwshPipeline
        &&& capture_slot(BASH_REDIRECT_QUERY@, "cmd"@) == Some(self.bash_cmd_idx)
        &&& capture_slot(BASH_REDIRECT_QUERY@, "args"@) == Some(self.bash_args_idx)
        &&& regex_text(self.cmd_write) == GITHUB_ENV_WRITE_CMD@
    }

    /// Builds the detector: loads the two grammars, compiles the four
    /// patterns and the expression of the command interpreter, and finds the
    /// capture slots that detection reads.
    ///
    /// It fails at the first of these that cannot be made ready, and only
    /// then: there is no detector without all of them.
    pub fn new(_state: AuditState) -> (made: Result<Self, AuditError>)
        ensures
            match made {
                Ok(_) => construction_fault() is None,
                Err(error) => construction_fault() == Some(error),
            },
    {
        let bash = bash_language();
        let mut bash_parser = new_parser();
        if set_language(&mut bash_parser, &bash).is_err() {
            return Err(AuditError::LoadGrammar(Grammar::Bash));
        }
        let pwsh = pwsh_language();
        let mut pwsh_parser = new_parser();
        if set_language(&mut pwsh_parser, &pwsh).is_err() {
            return Err(AuditError::LoadGrammar(Grammar::PowerShell));
        }
        let bash_redirect_query = Self::prepare(Pattern::BashRedirect, &bash)?;
        let bash_pipeline_query = Self::prepare(Pattern::BashPipeline, &bash)?;
        let pwsh_redirect_query = Self::prepare(Pattern::PwshRedirect, &pwsh)?;
        let pwsh_pipeline_query = Self::prepare(Pattern::PwshPipeline, &pwsh)?;
        let cmd = capture_index_for_name(&bash_redirect_query, "cmd");
        let args = capture_index_for_name(&bash_redirect_query, "args");
        let (bash_cmd_idx, bash_args_idx) = match (cmd, args) {
            (Some(cmd), Some(args)) => (cmd, args),
            _ => {
                return Err(AuditError::MissingCapture(Pattern::BashRedirect));
            },
        };
        let cmd_write = match compile_expression(GITHUB_ENV_WRITE_CMD) {
            Ok(compiled) => compiled,
            Err(_) => {
                return Err(AuditError::MalformedExpression);
            },
        };
        Ok(
            GitHubEnv {
                bash_parser,
                pwsh_parser,
                bash_redirect_query,
                bash_pipeline_query,
                pwsh_redirect_query,
                pwsh_pipeline_query,
                bash_cmd_idx,
                bash_args_idx,
                cmd_write,
            },
        )
    }

    /// Makes one pattern of the catalog ready, or says as an error of
    /// construction what stands in its way.
    fn prepare(pattern: Pattern, language: &Language) -> (made: Result<SpannedQuery, AuditError>)
        requires
            language_grammar(*language) == Some(pattern.spec_grammar()),
        ensures
            match made {
                Ok(compiled) => pattern_fault(pattern) is None && compiled.name() == pattern,
                Err(error) => pattern_fault(pattern) == Some(error),
            },
    {
        match SpannedQuery::new(pattern, language) {
            Ok(compiled) => Ok(compiled),
            Err(QueryFault::Malformed) => Err(AuditError::MalformedQuery(pattern)),
            Err(QueryFault::NoSpan) => Err(AuditError::MissingCapture(pattern)),
        }
    }

    /// The byte ranges of the constructs of a script of the POSIX-like shell
    /// that write into the file: every command redirected into it, but for
    /// `echo` with nothing but literal arguments, and every pipeline with a
    /// `tee` stage on it.
    ///
    /// A script that does not parse is an error, and nothing is reported of
    /// it.
    pub fn bash_uses_github_env(&mut self, script_body: &str) -> (result: Result<
        Vec<Range<usize>>,
        AuditError,
    >)
        ensures
            match result {
                Ok(spans) => parses(Grammar::Bash, script_body@) && spans@ == bash_spans(
                    script_body@,
                ),
                Err(error) => !parses(Grammar::Bash, script_body@) && error
                    == AuditError::ParseScript(Grammar::Bash),
            },
    {
        proof {
            use_type_invariant(&*self);
        }
        let tree = match parse(&mut self.bash_parser, script_body) {
            Some(tree) => tree,
            None => {
                return Err(AuditError::ParseScript(Grammar::Bash));
            },
        };
        let mut matching_spans: Vec<Range<usize>> = Vec::new();
        let matches = query(&self.bash_redirect_query, &tree, script_body);
        Self::collect_redirect_spans(
            &matches,
            self.bash_cmd_idx,
            self.bash_args_idx,
            self.bash_redirect_query.span_idx(),
            &mut matching_spans,
        );
        let matches = query(&self.bash_pipeline_query, &tree, script_body);
        Self::collect_pipeline_spans(
            &matches,
            self.bash_pipeline_query.span_idx(),
            &mut matching_spans,
        );
        Ok(matching_spans)
    }

    /// Whether a script of the typed scripting shell redirects into the
    /// file, or pipes into a command that writes it. Every match counts.
    ///
    /// A script that does not parse is an error.
    pub fn pwsh_uses_github_env(&mut self, script_body: &str) -> (result: Result<bool, AuditError>)
        ensures
            match result {
                Ok(found) => parses(Grammar::PowerShell, script_body@) && found == pwsh_writes(
                    script_body@,
                ),
                Err(error) => !parses(Grammar::PowerShell, script_body@) && error
                    == AuditError::ParseScript(Grammar::PowerShell),
            },
    {
        proof {
            use_type_invariant(&*self);
        }
        let tree = match parse(&mut self.pwsh_parser, script_body) {
            Some(tree) => tree,
            None => {
                return Err(AuditError::ParseScript(Grammar::PowerShell));
            },
        };
        let matches = query(&self.pwsh_redirect_query, &tree, script_body);
        if matches.len() > 0 {
            return Ok(true);
        }
        let matches = query(&self.pwsh_pipeline_query, &tree, script_body);
        Ok(matches.len() > 0)
    }

    /// Whether a script of the command interpreter has a line that
    /// redirects into `%GITHUB_ENV%`.
    pub fn cmd_uses_github_env(&self, script_body: &str) -> (found: bool)
        ensures
            found == cmd_writes(script_body@),
    {
        proof {
            use_type_invariant(self);
        }
        is_match(&self.cmd_write, script_body)
    }

    /// The dialect that the name of an interpreter stands for.
    pub fn dialect(shell: &str) -> (dialect: Option<Dialect>)
        ensures
            dialect == dialect_of(shell@),
    {
        if str_eq(shell, "bash") || str_eq(shell, "sh") {
            Some(Dialect::Bash)
        } else if str_eq(shell, "cmd") {
            Some(Dialect::Cmd)
        } else if str_eq(shell, "pwsh") || str_eq(shell, "powershell") {
            Some(Dialect::Pwsh)
        } else {
            None
        }
    }

    /// Whether the body of a step, run by the interpreter of a given name,
    /// writes into the file.
    pub fn uses_github_env(&mut self, run_step_body: &str, shell: &str) -> (result: Result<
        bool,
        AuditError,
    >)
        ensures
            result == detection(run_step_body@, shell@),
    {
        match Self::dialect(shell) {
            Some(Dialect::Bash) => match self.bash_uses_github_env(run_step_body) {
                Ok(spans) => Ok(spans.len() > 0),
                Err(error) => Err(error),
            },
            Some(Dialect::Cmd) => Ok(self.cmd_uses_github_env(run_step_body)),
            Some(Dialect::Pwsh) => self.pwsh_uses_github_env(run_step_body),
            None => Ok(false),
        }
    }
}

} // verus!
