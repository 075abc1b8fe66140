//! The rule: which steps of a workflow are examined, and what is reported of
//! them.

use crate::detector::{detection, GitHubEnv};
use crate::error::AuditError;
use vstd::prelude::*;
use vstd::string::StringExecFns;

verus! {

/// How grave a finding is.
#[derive(Debug, Clone, Copy, PartialEq, Eq, Structural)]
pub enum Severity {
    Low,
    Medium,
    High,
    Critical,
}

/// How sure a finding is.
#[derive(Debug, Clone, Copy, PartialEq, Eq, Structural)]
pub enum Confidence {
    Low,
    Medium,
    High,
}

/// The name of the rule.
pub const IDENT: &'static str = "github-env";

/// What the rule is about.
pub const DESC: &'static str = "dangerous use of GITHUB_ENV";

/// What a finding of the rule says of the place it points at.
pub const ANNOTATION: &'static str = "GITHUB_ENV write may allow code execution";

/// The key of a step under which its script stands.
pub const RUN_KEY: &'static str = "run";

/// The interpreter that a step is taken to run in when it declares none and
/// none can be inferred. On a self-hosted Windows runner that is reached by
/// labels of its own this is the wrong one.
pub const DEFAULT_SHELL: &'static str = "bash";

/// What the rule reads of a workflow: its file, and which of the triggers it
/// declares that let a stranger start it with the repository's privileges.
#[derive(Debug)]
pub struct Workflow {
    /// The name of the workflow's file.
    pub filename: String,
    /// Whether `workflow_run` is among the workflow's triggers.
    pub on_workflow_run: bool,
    /// Whether `pull_request_target` is among the workflow's triggers.
    pub on_pull_request_target: bool,
}

/// What a step does.
#[derive(Debug)]
pub enum StepBody {
    /// It runs a script, in the interpreter it declares, if it declares one.
    Run { run: String, shell: Option<String> },
    /// It does anything else, such as calling an action.
    Other,
}

/// What the rule reads of a step.
#[derive(Debug)]
pub struct Step<'w> {
    /// The workflow that the step stands in.
    pub workflow: &'w Workflow,
    /// The job that the step stands in.
    pub job_id: String,
    /// The position of the step among the steps of its job.
    pub index: usize,
    pub body: StepBody,
    /// The interpreter that the host infers for the step from its job and
    /// workflow, where it can.
    pub inferred_shell: Option<String>,
}

/// A place that a finding points at: a step, narrowed to the keys under it.
#[derive(Debug, PartialEq, Eq)]
pub struct Location {
    /// Whether this is the place that the finding is about.
    pub primary: bool,
    pub job_id: String,
    pub step_index: usize,
    pub keys: Vec<String>,
    pub annotation: String,
}

/// What the rule reports of a step.
#[derive(Debug, PartialEq, Eq)]
pub struct Finding {
    pub ident: String,
    pub desc: String,
    pub severity: Severity,
    pub confidence: Confidence,
    pub locations: Vec<Location>,
}

/// The mathematical value of a [`Location`].
pub struct LocationView {
    pub primary: bool,
    pub job_id: Seq<char>,
    pub step_index: usize,
    pub keys: Seq<Seq<char>>,
    pub annotation: Seq<char>,
}

/// The mathematical value of a [`Finding`].
pub struct FindingView {
    pub ident: Seq<char>,
    pub desc: Seq<char>,
    pub severity: Severity,
    pub confidence: Confidence,
    pub locations: Seq<LocationView>,
}

impl DeepView for Location {
    type V = LocationView;

    open spec fn deep_view(&self) -> LocationView {
        LocationView {
            primary: self.primary,
            job_id: self.job_id@,
            step_index: self.step_index,
            keys: self.keys.deep_view(),
            annotation: self.annotation@,
        }
    }
}

impl DeepView for Finding {
    type V = FindingView;

    open spec fn deep_view(&self) -> FindingView {
        FindingView {
            ident: self.ident@,
            desc: self.desc@,
            severity: self.severity,
            confidence: self.confidence,
            locations: self.locations.deep_view(),
        }
    }
}

impl Workflow {
    /// Whether the workflow declares a trigger that lets a stranger start it
    /// with the repository's privileges.
    pub open spec fn dangerous(&self) -> bool {
        self.on_workflow_run || self.on_pull_request_target
    }

    /// Whether the workflow is started when another workflow has run.
    pub fn has_workflow_run(&self) -> (declared: bool)
        ensures
            declared == self.on_workflow_run,
    {
        self.on_workflow_run
    }

    /// Whether the workflow is started by a pull request, in the context of
    /// the repository that the request is made to.
    pub fn has_pull_request_target(&self) -> (declared: bool)
        ensures
            declared == self.on_pull_request_target,
    {
        self.on_pull_request_target
    }
}

impl<'w> Step<'w> {
    /// The interpreter of the step, where it is known: the one that the step
    /// declares, else the one that the host infers.
    pub open spec fn known_shell(&self) -> Option<Seq<char>> {
        match self.body {
            StepBody::Run { run, shell: Some(declared) } => Some(declared@),
            _ => match self.inferred_shell {
                Some(inferred) => Some(inferred@),
                None => None,
            },
        }
    }

    /// The interpreter that the step is examined in: the known one, else
    /// `bash`.
    pub open spec fn resolved_shell(&self) -> Seq<char> {
        match self.known_shell() {
            Some(shell) => shell,
            None => DEFAULT_SHELL@,
        }
    }

    /// What examining the step gives: `Ok(true)` if a finding is due,
    /// `Ok(false)` if none is, and the error if its script cannot be examined.
    ///
    /// A step of a workflow with no dangerous trigger is not examined, nor is
    /// a step that runs no script.
    pub open spec fn outcome(&self) -> Result<bool, AuditError> {
        if !self.workflow.dangerous() {
            Ok(false)
        } else {
            match self.body {
                StepBody::Run { run, shell } => detection(run@, self.resolved_shell()),
                StepBody::Other => Ok(false),
            }
        }
    }

    /// The one finding that is reported of the step when its script writes
    /// into the file: of high severity and low confidence, since the script
    /// is only read and never shown to be exploitable, and pointing at the
    /// step's `run` key.
    pub open spec fn finding(&self) -> FindingView {
        FindingView {
            ident: IDENT@,
            desc: DESC@,
            severity: Severity::High,
            confidence: Confidence::Low,
            locations: seq![
                LocationView {
                    primary: true,
                    job_id: self.job_id@,
                    step_index: self.index,
                    keys: seq![RUN_KEY@],
                    annotation: ANNOTATION@,
                },
            ],
        }
    }

    /// What is reported of the step, given what examining it gave.
    pub open spec fn findings(&self, found: bool) -> Seq<FindingView> {
        if found {
            seq![self.finding()]
        } else {
            Seq::empty()
        }
    }

    /// The interpreter of the step, where it is known.
    pub fn shell(&self) -> (shell: Option<&str>)
        ensures
            match shell {
                Some(name) => self.known_shell() == Some(name@),
                None => self.known_shell() is None,
            },
    {
        match &self.body {
            StepBody::Run { run: _, shell: Some(declared) } => Some(declared.as_str()),
            _ => match &self.inferred_shell {
                Some(inferred) => Some(inferred.as_str()),
                None => None,
            },
        }
    }
}

impl GitHubEnv {
    /// What is reported of a step, given whether its script writes into the
    /// file: one finding if it does, nothing if it does not.
    pub fn report(step: &Step, found: bool) -> (findings: Vec<Finding>)
        ensures
            findings.deep_view() == step.findings(found),
            findings.len() == if found {
                1usize
            } else {
                0usize
            },
    {
        let mut findings: Vec<Finding> = Vec::new();
        if found {
            let mut keys: Vec<String> = Vec::new();
            keys.push(String::from_str(RUN_KEY));
            assert(keys.deep_view() =~= seq![RUN_KEY@]);
            let mut locations: Vec<Location> = Vec::new();
            locations.push(
                Location {
                    primary: true,
                    job_id: step.job_id.clone(),
                    step_index: step.index,
                    keys,
                    annotation: String::from_str(ANNOTATION),
                },
            );
            findings.push(
                Finding {
                    ident: String::from_str(IDENT),
                    desc: String::from_str(DESC),
                    severity: Severity::High,
                    confidence: Confidence::Low,
                    locations,
                },
            );
            assert(findings[0].locations.deep_view() =~= step.finding().locations);
        }
        assert(findings.deep_view() =~= step.findings(found));
        findings
    }

    /// Examines one step and reports what is found.
    ///
    /// Only a step that runs a script, in a workflow with a dangerous
    /// trigger, is examined; the script is read in the interpreter that the
    /// step declares, else in the one that the host infers, else in `bash`.
    /// At most one finding comes of a step, however often its script writes
    /// into the file. A script that cannot be parsed is an error of this
    /// step alone.
    pub fn audit_step(&mut self, step: &Step) -> (result: Result<Vec<Finding>, AuditError>)
        ensures
            match result {
                Ok(findings) => step.outcome() matches Ok(found) && findings.deep_view()
                    == step.findings(found),
                Err(error) => step.outcome() == Err::<bool, AuditError>(error),
            },
            result matches Ok(findings) ==> findings.len() <= 1,
    {
        let has_dangerous_triggers = step.workflow.has_workflow_run()
            || step.workflow.has_pull_request_target();
        if !has_dangerous_triggers {
            return Ok(Self::report(step, false));
        }
        match &step.body {
            StepBody::Run { run, shell: _ } => {
                let shell = match step.shell() {
                    Some(shell) => shell,
                    None => DEFAULT_SHELL,
                };
                match self.uses_github_env(run.as_str(), shell) {
                    Ok(found) => Ok(Self::report(step, found)),
                    Err(error) => Err(error),
                }
            },
            StepBody::Other => Ok(Self::report(step, false)),
        }
    }
}

} // verus!
