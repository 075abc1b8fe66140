//! What holds of every detection, whatever the script is.

use crate::audit::{FindingView, Step};
use crate::capture::first_in_slot;
use crate::classify::{
    arg_is_static, is_static_echo, lemma_dynamic_argument_is_not_exempt,
    lemma_other_command_is_not_exempt,
};
use crate::detector::{bash_spans, construction_fault, detection, dialect_of, slot, Dialect};
use crate::engine::{capture_slot, parses, pattern_matches};
use crate::error::AuditError;
use crate::patterns::{
    Grammar, Pattern, BASH_PIPELINE_QUERY, BASH_REDIRECT_QUERY, PWSH_PIPELINE_QUERY,
    PWSH_REDIRECT_QUERY,
};
use crate::spans::{
    lemma_exempt_matches_leave_no_span, lemma_other_match_is_reported,
    lemma_pipeline_match_is_reported, pipeline_spans, redirect_spans,
};
use vstd::prelude::*;

verus! {

/// A script of the POSIX-like shell in which every command redirected into
/// the file is `echo` with nothing but literal arguments, and which has no
/// pipeline with a `tee` stage on the file, is not reported.
pub proof fn law_literal_echo_is_not_reported(script: Seq<char>, shell: Seq<char>)
    requires
        dialect_of(shell) == Some(Dialect::Bash),
        parses(Grammar::Bash, script),
        forall|i: int|
            0 <= i < pattern_matches(Grammar::Bash, BASH_REDIRECT_QUERY@, script).len()
                ==> is_static_echo(
                #[trigger] pattern_matches(Grammar::Bash, BASH_REDIRECT_QUERY@, script)[i],
                slot(Pattern::BashRedirect, "cmd"@),
                slot(Pattern::BashRedirect, "args"@),
            ),
        pattern_matches(Grammar::Bash, BASH_PIPELINE_QUERY@, script).len() == 0,
    ensures
        bash_spans(script).len() == 0,
        detection(script, shell) == Ok::<bool, AuditError>(false),
{
    lemma_exempt_matches_leave_no_span(
        pattern_matches(Grammar::Bash, BASH_REDIRECT_QUERY@, script),
        slot(Pattern::BashRedirect, "cmd"@),
        slot(Pattern::BashRedirect, "args"@),
        slot(Pattern::BashRedirect, "span"@),
    );
    let piped = pattern_matches(Grammar::Bash, BASH_PIPELINE_QUERY@, script);
    assert(pipeline_spans(piped, slot(Pattern::BashPipeline, "span"@)) =~= Seq::empty());
}

/// A script of the POSIX-like shell with a command other than `echo`
/// redirected into the file is reported, whatever the command's arguments
/// are: where the match bound its span, the script is reported at that
/// span, the whole of the redirected command.
pub proof fn law_other_command_is_reported(script: Seq<char>, shell: Seq<char>, i: int)
    requires
        dialect_of(shell) == Some(Dialect::Bash),
        parses(Grammar::Bash, script),
        0 <= i < pattern_matches(Grammar::Bash, BASH_REDIRECT_QUERY@, script).len(),
        first_in_slot(
            pattern_matches(Grammar::Bash, BASH_REDIRECT_QUERY@, script)[i],
            slot(Pattern::BashRedirect, "cmd"@),
        ) matches Some(command) ==> command.text != Some("echo"@),
        first_in_slot(
            pattern_matches(Grammar::Bash, BASH_REDIRECT_QUERY@, script)[i],
            slot(Pattern::BashRedirect, "span"@),
        ) is Some,
    ensures
        bash_spans(script).contains(
            first_in_slot(
                pattern_matches(Grammar::Bash, BASH_REDIRECT_QUERY@, script)[i],
                slot(Pattern::BashRedirect, "span"@),
            )->Some_0.span,
        ),
        detection(script, shell) == Ok::<bool, AuditError>(true),
{
    lemma_other_command_is_not_exempt(
        pattern_matches(Grammar::Bash, BASH_REDIRECT_QUERY@, script)[i],
        slot(Pattern::BashRedirect, "cmd"@),
        slot(Pattern::BashRedirect, "args"@),
    );
    lemma_redirect_is_reported(script, i);
}

/// A script of the POSIX-like shell with an `echo` redirected into the file,
/// one of whose arguments is not a literal, is reported: where the match
/// bound its span, the script is reported at that span, the whole of the
/// redirected command.
pub proof fn law_echo_of_an_expansion_is_reported(
    script: Seq<char>,
    shell: Seq<char>,
    i: int,
    j: int,
)
    requires
        dialect_of(shell) == Some(Dialect::Bash),
        parses(Grammar::Bash, script),
        0 <= i < pattern_matches(Grammar::Bash, BASH_REDIRECT_QUERY@, script).len(),
        0 <= j < pattern_matches(Grammar::Bash, BASH_REDIRECT_QUERY@, script)[i].len(),
        pattern_matches(Grammar::Bash, BASH_REDIRECT_QUERY@, script)[i][j].index == slot(
            Pattern::BashRedirect,
            "args"@,
        ),
        !arg_is_static(pattern_matches(Grammar::Bash, BASH_REDIRECT_QUERY@, script)[i][j]),
        first_in_slot(
            pattern_matches(Grammar::Bash, BASH_REDIRECT_QUERY@, script)[i],
            slot(Pattern::BashRedirect, "span"@),
        ) is Some,
    ensures
        bash_spans(script).contains(
            first_in_slot(
                pattern_matches(Grammar::Bash, BASH_REDIRECT_QUERY@, script)[i],
                slot(Pattern::BashRedirect, "span"@),
            )->Some_0.span,
        ),
        detection(script, shell) == Ok::<bool, AuditError>(true),
{
    lemma_dynamic_argument_is_not_exempt(
        pattern_matches(Grammar::Bash, BASH_REDIRECT_QUERY@, script)[i],
        slot(Pattern::BashRedirect, "cmd"@),
        slot(Pattern::BashRedirect, "args"@),
        j,
    );
    lemma_redirect_is_reported(script, i);
}

/// A match of the redirect pattern that is not exempt is among the reported
/// spans of its script.
proof fn lemma_redirect_is_reported(script: Seq<char>, i: int)
    requires
        0 <= i < pattern_matches(Grammar::Bash, BASH_REDIRECT_QUERY@, script).len(),
        !is_static_echo(
            pattern_matches(Grammar::Bash, BASH_REDIRECT_QUERY@, script)[i],
            slot(Pattern::BashRedirect, "cmd"@),
            slot(Pattern::BashRedirect, "args"@),
        ),
        first_in_slot(
            pattern_matches(Grammar::Bash, BASH_REDIRECT_QUERY@, script)[i],
            slot(Pattern::BashRedirect, "span"@),
        ) is Some,
    ensures
        bash_spans(script).contains(
            first_in_slot(
                pattern_matches(Grammar::Bash, BASH_REDIRECT_QUERY@, script)[i],
                slot(Pattern::BashRedirect, "span"@),
            )->Some_0.span,
        ),
{
    let redirected = pattern_matches(Grammar::Bash, BASH_REDIRECT_QUERY@, script);
    let cmd = slot(Pattern::BashRedirect, "cmd"@);
    let args = slot(Pattern::BashRedirect, "args"@);
    let span = slot(Pattern::BashRedirect, "span"@);
    lemma_other_match_is_reported(redirected, cmd, args, span, i);
    let first = redirect_spans(redirected, cmd, args, span);
    let whole = first_in_slot(redirected[i], span)->Some_0.span;
    let at = choose|at: int| 0 <= at < first.len() && first[at] == whole;
    assert(bash_spans(script)[at] == whole);
}

/// A script of the POSIX-like shell with a pipeline that has a `tee` stage on
/// the file is reported, whatever else the pipeline holds: at each node that
/// a match of the pipeline pattern bound as its span, the whole of the
/// pipeline.
pub proof fn law_tee_pipeline_is_reported(script: Seq<char>, shell: Seq<char>, i: int, j: int)
    requires
        dialect_of(shell) == Some(Dialect::Bash),
        parses(Grammar::Bash, script),
        0 <= i < pattern_matches(Grammar::Bash, BASH_PIPELINE_QUERY@, script).len(),
        0 <= j < pattern_matches(Grammar::Bash, BASH_PIPELINE_QUERY@, script)[i].len(),
        pattern_matches(Grammar::Bash, BASH_PIPELINE_QUERY@, script)[i][j].index == slot(
            Pattern::BashPipeline,
            "span"@,
        ),
    ensures
        bash_spans(script).contains(
            pattern_matches(Grammar::Bash, BASH_PIPELINE_QUERY@, script)[i][j].span,
        ),
        detection(script, shell) == Ok::<bool, AuditError>(true),
{
    let piped = pattern_matches(Grammar::Bash, BASH_PIPELINE_QUERY@, script);
    let span = slot(Pattern::BashPipeline, "span"@);
    lemma_pipeline_match_is_reported(piped, span, i, j);
    let second = pipeline_spans(piped, span);
    let whole = piped[i][j].span;
    let at = choose|at: int| 0 <= at < second.len() && second[at] == whole;
    let first = redirect_spans(
        pattern_matches(Grammar::Bash, BASH_REDIRECT_QUERY@, script),
        slot(Pattern::BashRedirect, "cmd"@),
        slot(Pattern::BashRedirect, "args"@),
        slot(Pattern::BashRedirect, "span"@),
    );
    assert(bash_spans(script)[first.len() + at] == whole);
}

/// A script of the typed scripting shell is reported exactly when one of its
/// two patterns has a match: in this dialect nothing is exempt.
pub proof fn law_pwsh_match_is_reported(script: Seq<char>, shell: Seq<char>)
    requires
        dialect_of(shell) == Some(Dialect::Pwsh),
        parses(Grammar::PowerShell, script),
    ensures
        detection(script, shell) == Ok::<bool, AuditError>(
            pattern_matches(Grammar::PowerShell, PWSH_REDIRECT_QUERY@, script).len() > 0
                || pattern_matches(Grammar::PowerShell, PWSH_PIPELINE_QUERY@, script).len() > 0,
        ),
{
}

/// Nothing is reported of a script whose interpreter the detector does not
/// know, and that is no error.
pub proof fn law_unknown_interpreter_is_not_reported(script: Seq<char>, shell: Seq<char>)
    requires
        shell != "bash"@,
        shell != "sh"@,
        shell != "cmd"@,
        shell != "pwsh"@,
        shell != "powershell"@,
    ensures
        detection(script, shell) == Ok::<bool, AuditError>(false),
{
}

/// A detector that was built has every capture slot that detection reads.
pub proof fn law_built_detector_has_its_slots()
    requires
        construction_fault() is None,
    ensures
        capture_slot(BASH_REDIRECT_QUERY@, "cmd"@) is Some,
        capture_slot(BASH_REDIRECT_QUERY@, "args"@) is Some,
        capture_slot(BASH_REDIRECT_QUERY@, "span"@) is Some,
        capture_slot(BASH_PIPELINE_QUERY@, "span"@) is Some,
        capture_slot(PWSH_REDIRECT_QUERY@, "span"@) is Some,
        capture_slot(PWSH_PIPELINE_QUERY@, "span"@) is Some,
{
}

/// A detector fails to be built only for want of a grammar, a pattern, a
/// capture or the expression; a detection fails only because its script does
/// not parse, and nothing is then reported of that script.
pub proof fn law_errors_are_of_two_kinds(script: Seq<char>, shell: Seq<char>)
    ensures
        construction_fault() matches Some(error) ==> error.is_fatal(),
        detection(script, shell) matches Err(error) ==> !error.is_fatal(),
{
}

/// Nothing is reported of a step of a workflow that declares no dangerous
/// trigger, whatever the step runs.
pub proof fn law_no_dangerous_trigger_no_finding(step: Step)
    requires
        !step.workflow.on_workflow_run,
        !step.workflow.on_pull_request_target,
    ensures
        step.outcome() == Ok::<bool, AuditError>(false),
        step.findings(false) == Seq::<FindingView>::empty(),
{
}

/// At most one finding is reported of a step, and where there is one it is
/// the step's finding.
pub proof fn law_at_most_one_finding(step: Step, found: bool)
    ensures
        step.findings(found).len() <= 1,
        step.findings(found).len() == 1 <==> found,
        found ==> step.findings(found)[0] == step.finding(),
{
}

} // verus!
