use github_env::detector::{AuditState, GitHubEnv};

fn pwsh(script: &str) -> bool {
    let mut sut = GitHubEnv::new(AuditState {
        no_online_audits: true,
        cache_dir: String::new(),
        gh_token: None,
    })
    .expect("the detector is built");
    sut.pwsh_uses_github_env(script).unwrap()
}

#[test]
fn the_cmdlet_is_matched_in_any_case() {
    for script in [
        "echo \"foo\" | Out-File $env:GITHUB_ENV -Append",
        "echo \"foo\" | out-file $env:GITHUB_ENV -Append",
        "echo \"foo\" | OUT-FILE $env:GITHUB_ENV -Append",
        "echo \"foo\" | ADD-CONTENT $env:GITHUB_ENV",
        "echo \"foo\" | set-content $env:GITHUB_ENV",
        "echo \"foo\" | tee-OBJECT $env:GITHUB_ENV",
    ] {
        assert!(pwsh(script), "not reported: {script}");
    }
}

#[test]
fn the_reference_is_matched_in_any_case() {
    for script in [
        "foo >> $env:github_env",
        "foo >> $ENV:GITHUB_ENV",
        "foo > ${Env:GitHub_Env}",
        "echo \"foo\" | Out-File $eNv:gItHuB_eNv",
    ] {
        assert!(pwsh(script), "not reported: {script}");
    }
}

#[test]
fn literal_output_is_reported_in_pwsh() {
    assert!(pwsh("echo static >> $env:GITHUB_ENV"));
    assert!(pwsh("\"static\" | Out-File $env:GITHUB_ENV"));
}

#[test]
fn another_cmdlet_is_not_reported() {
    assert!(!pwsh("echo \"foo\" | Write-Host $env:GITHUB_ENV"));
    assert!(!pwsh("Get-Content $env:GITHUB_ENV"));
}

#[test]
fn a_comment_is_not_scanned_in_pwsh() {
    assert!(!pwsh("cmd >> $env:OTHER_VAR # $env:GITHUB_ENV"));
    assert!(!pwsh("# foo >> $env:GITHUB_ENV"));
}

#[test]
fn the_bare_name_is_not_a_destination_in_pwsh() {
    assert!(!pwsh("echo x >> GITHUB_ENV"));
    assert!(!pwsh("echo x | Out-File GITHUB_ENV"));
    assert!(!pwsh("echo x >> $GITHUB_ENV"));
}

#[test]
fn another_variable_is_not_a_destination_in_pwsh() {
    assert!(!pwsh("foo >> $env:GITHUB_OUTPUT"));
    assert!(!pwsh("foo | Out-File $env:TEMP"));
}

#[test]
fn a_script_that_touches_nothing_is_not_reported_in_pwsh() {
    assert!(!pwsh(""));
    assert!(!pwsh("Write-Host hello\n"));
}

#[test]
fn powershell_is_read_as_pwsh() {
    let mut sut = GitHubEnv::new(AuditState {
        no_online_audits: true,
        cache_dir: String::new(),
        gh_token: None,
    })
    .expect("the detector is built");
    assert_eq!(sut.uses_github_env("foo >> $env:GITHUB_ENV", "powershell"), Ok(true));
    assert_eq!(sut.uses_github_env("foo >> $GITHUB_ENV", "powershell"), Ok(false));
}

#[test]
fn the_name_is_looked_for_anywhere_in_the_reference() {
    assert!(pwsh("foo >> $env:GITHUB_ENV_FILE"));
    assert!(pwsh("Get-Content x | foo-Set-Content $env:GITHUB_ENV"));
}
