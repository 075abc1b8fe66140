use github_env::detector::{AuditState, Dialect, GitHubEnv};
use github_env::error::AuditError;
use github_env::patterns::{Grammar, Pattern};
use github_env::text::str_eq;

fn detector() -> GitHubEnv {
    GitHubEnv::new(AuditState {
        no_online_audits: false,
        cache_dir: "/tmp/cache".into(),
        gh_token: Some("token".into()),
    })
    .expect("the detector is built")
}

#[test]
fn the_detector_is_built() {
    assert!(GitHubEnv::new(AuditState {
        no_online_audits: false,
        cache_dir: String::new(),
        gh_token: None,
    })
    .is_ok());
}

#[test]
fn interpreters_are_told_apart() {
    assert_eq!(GitHubEnv::dialect("bash"), Some(Dialect::Bash));
    assert_eq!(GitHubEnv::dialect("sh"), Some(Dialect::Bash));
    assert_eq!(GitHubEnv::dialect("cmd"), Some(Dialect::Cmd));
    assert_eq!(GitHubEnv::dialect("pwsh"), Some(Dialect::Pwsh));
    assert_eq!(GitHubEnv::dialect("powershell"), Some(Dialect::Pwsh));
}

#[test]
fn other_interpreters_are_not_known() {
    for shell in ["python", "", "Bash", "BASH", "zsh", "bash ", " sh", "cmd.exe", "PowerShell", "pwsh -Command"] {
        assert_eq!(GitHubEnv::dialect(shell), None, "{shell}");
    }
}

#[test]
fn an_unknown_interpreter_reports_nothing() {
    let mut sut = detector();
    assert_eq!(sut.uses_github_env("echo $x >> $GITHUB_ENV", "python"), Ok(false));
    assert_eq!(sut.uses_github_env("echo $x >> $GITHUB_ENV", "Bash"), Ok(false));
    assert_eq!(sut.uses_github_env("echo x>>%GITHUB_ENV%", ""), Ok(false));
}

#[test]
fn each_script_is_read_in_its_own_dialect() {
    let mut sut = detector();
    let bash = "echo $x >> $GITHUB_ENV";
    let pwsh = "echo $x >> $env:GITHUB_ENV";
    let cmd = "echo %x%>>%GITHUB_ENV%";
    assert_eq!(sut.uses_github_env(bash, "bash"), Ok(true));
    assert_eq!(sut.uses_github_env(bash, "pwsh"), Ok(false));
    assert_eq!(sut.uses_github_env(bash, "cmd"), Ok(false));
    assert_eq!(sut.uses_github_env(pwsh, "pwsh"), Ok(true));
    assert_eq!(sut.uses_github_env(pwsh, "cmd"), Ok(false));
    assert_eq!(sut.uses_github_env(cmd, "cmd"), Ok(true));
    assert_eq!(sut.uses_github_env(cmd, "bash"), Ok(false));
    assert_eq!(sut.uses_github_env(cmd, "pwsh"), Ok(false));
}

#[test]
fn usage_is_a_span_found() {
    let mut sut = detector();
    for script in ["echo $x >> $GITHUB_ENV", "echo x >> $GITHUB_ENV", "a | tee $GITHUB_ENV", ""] {
        let spans = sut.bash_uses_github_env(script).unwrap();
        assert_eq!(sut.uses_github_env(script, "bash"), Ok(!spans.is_empty()));
    }
}

#[test]
fn errors_say_what_failed() {
    assert_eq!(
        AuditError::LoadGrammar(Grammar::Bash).message(),
        "failed to load bash parser"
    );
    assert_eq!(
        AuditError::LoadGrammar(Grammar::PowerShell).message(),
        "failed to load powershell parser"
    );
    assert_eq!(
        AuditError::ParseScript(Grammar::Bash).message(),
        "failed to parse `run:` body as bash"
    );
    assert_eq!(
        AuditError::ParseScript(Grammar::PowerShell).message(),
        "failed to parse `run:` body as pwsh"
    );
    assert_eq!(
        AuditError::MalformedQuery(Pattern::BashRedirect).message(),
        "malformed query"
    );
    assert_eq!(
        AuditError::MissingCapture(Pattern::PwshPipeline).message(),
        "query lacks a capture"
    );
    assert_eq!(AuditError::MalformedExpression.message(), "malformed expression");
}

#[test]
fn patterns_know_their_grammar() {
    assert_eq!(Pattern::BashRedirect.grammar(), Grammar::Bash);
    assert_eq!(Pattern::BashPipeline.grammar(), Grammar::Bash);
    assert_eq!(Pattern::PwshRedirect.grammar(), Grammar::PowerShell);
    assert_eq!(Pattern::PwshPipeline.grammar(), Grammar::PowerShell);
}

#[test]
fn every_pattern_has_one_span_capture() {
    for pattern in [
        Pattern::BashRedirect,
        Pattern::BashPipeline,
        Pattern::PwshRedirect,
        Pattern::PwshPipeline,
    ] {
        assert_eq!(pattern.text().matches("@span").count(), 1);
        assert!(pattern.text().trim_end().ends_with("@span"));
    }
}

#[test]
fn strings_are_compared_by_their_characters() {
    assert!(str_eq("", ""));
    assert!(str_eq("echo", "echo"));
    assert!(!str_eq("echo", "echO"));
    assert!(!str_eq("echo", "ech"));
    assert!(!str_eq("ech", "echo"));
    assert!(!str_eq("", "a"));
    assert!(str_eq("h\u{e9}llo \u{1f600}", "h\u{e9}llo \u{1f600}"));
    assert!(!str_eq("h\u{e9}llo", "hello"));
}
