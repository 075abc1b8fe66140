use github_env::detector::{AuditState, GitHubEnv};

fn audit_state() -> AuditState {
    AuditState {
        no_online_audits: false,
        cache_dir: "/tmp/zizmor".into(),
        gh_token: None,
    }
}

#[test]
fn test_exploitable_bash_patterns() {
    for (case, expected) in &[
        // Common cases
        ("echo $foo >> $GITHUB_ENV", true),
        ("echo $foo $bar >> $GITHUB_ENV", true),
        ("echo multiple-args $foo >> $GITHUB_ENV", true),
        ("echo $foo multiple-args >> $GITHUB_ENV", true),
        ("echo $foo >> \"$GITHUB_ENV\"", true),
        ("echo $foo >> ${GITHUB_ENV}", true),
        ("echo $foo >> \"${GITHUB_ENV}\"", true),
        ("echo FOO=$(bar) >> $GITHUB_ENV", true),
        ("echo FOO=`bar` >> $GITHUB_ENV", true),
        ("echo $(bar) >> $GITHUB_ENV", true),
        ("echo `bar` >> $GITHUB_ENV", true),
        // We consider these unsafe because we don't know what
        // unknown-command produces, unlike echo.
        ("unknown-command >> $GITHUB_ENV", true),
        ("unknown-command $foo >> $GITHUB_ENV", true),
        ("unknown-command 'some args' >> $GITHUB_ENV", true),
        // Single > is buggy most of the time, but still exploitable
        ("echo $foo > $GITHUB_ENV", true),
        ("echo $foo > \"$GITHUB_ENV\"", true),
        ("echo $foo > ${GITHUB_ENV}", true),
        ("echo $foo > \"${GITHUB_ENV}\"", true),
        // No spaces
        ("echo $foo>>$GITHUB_ENV", true),
        ("echo $foo>>\"$GITHUB_ENV\"", true),
        ("echo $foo>>${GITHUB_ENV}", true),
        ("echo $foo>>\"${GITHUB_ENV}\"", true),
        // Continuations over newlines are OK
        ("echo $foo >> \\\n $GITHUB_ENV", true),
        // tee cases
        ("something | tee $GITHUB_ENV", true),
        ("something | tee $GITHUB_ENV | something-else", true),
        ("something | tee \"$GITHUB_ENV\"", true),
        ("something | tee ${GITHUB_ENV}", true),
        ("something | tee \"${GITHUB_ENV}\"", true),
        ("something|tee $GITHUB_ENV", true),
        ("something |tee $GITHUB_ENV", true),
        ("something| tee $GITHUB_ENV", true),
        // negative cases
        ("echo $foo >> $OTHER_ENV # not $GITHUB_ENV", false), // comments not detected
        ("something | tee \"${$OTHER_ENV}\" # not $GITHUB_ENV", false), // comments not detected
        ("echo $foo >> GITHUB_ENV", false),                   // GITHUB_ENV is not a variable
        ("echo $foo | tee GITHUB_ENV", false),                // GITHUB_ENV is not a variable
        ("echo completely-static >> $GITHUB_ENV", false),     // LHS is completely static
        ("echo 'completely-static' >> $GITHUB_ENV", false),   // LHS is completely static
        ("echo 'completely-static' \"foo\" >> $GITHUB_ENV", false), // LHS is completely static
        ("echo \"completely-static\" >> $GITHUB_ENV", false), // LHS is completely static
    ] {
        let mut sut = GitHubEnv::new(audit_state()).expect("failed to create audit");

        let uses_github_env = sut.uses_github_env(case, "bash").unwrap();
        assert_eq!(uses_github_env, *expected, "failed: {case}");
    }
}

#[test]
fn test_exploitable_cmd_patterns() {
    for (case, expected) in &[
        // Common cases
        ("echo LIBRARY=%LIBRARY%>>%GITHUB_ENV%", true),
        ("echo LIBRARY=%LIBRARY%>> %GITHUB_ENV%", true),
        ("echo LIBRARY=%LIBRARY% >> %GITHUB_ENV%", true),
        ("echo LIBRARY=%LIBRARY% >> \"%GITHUB_ENV%\"", true),
        ("echo>>\"%GITHUB_ENV%\" %%a=%%b", true),
        (
            "echo SERVER=${{ secrets.SQL19SERVER }}>> %GITHUB_ENV%",
            true,
        ),
    ] {
        let sut = GitHubEnv::new(audit_state()).expect("failed to create audit");

        assert_eq!(sut.cmd_uses_github_env(case), *expected);
    }
}

#[test]
fn test_exploitable_pwsh_patterns() {
    for (case, expected) in &[
        // Common cases
        ("foo >> ${env:GITHUB_ENV}", true),
        ("foo >> \"${env:GITHUB_ENV}\"", true),
        ("foo >> $env:GITHUB_ENV", true),
        ("foo >> \"$env:GITHUB_ENV\"", true),
        (
            "echo \"UV_CACHE_DIR=$UV_CACHE_DIR\" >> $env:GITHUB_ENV",
            true,
        ),
        ("foo > ${env:GITHUB_ENV}", true),
        ("foo > \"${env:GITHUB_ENV}\"", true),
        ("foo > $env:GITHUB_ENV", true),
        ("foo > \"$env:GITHUB_ENV\"", true),
        (
            "echo \"UV_CACHE_DIR=$UV_CACHE_DIR\" > $env:GITHUB_ENV",
            true,
        ),
        // Case insensitivity
        ("foo >> ${ENV:GITHUB_ENV}", true),
        ("foo >> ${ENV:github_env}", true),
        ("foo >> $ENV:GITHUB_ENV", true),
        ("foo >> $ENV:GitHub_Env", true),
        // Out-File cases
        ("echo \"CUDA_PATH=$env:CUDA_PATH\" | Out-File -FilePath $env:GITHUB_ENV -Encoding utf8 -Append", true),
        ("\"PYTHON_BIN=$PYTHON_BIN\" | Out-File -FilePath $env:GITHUB_ENV -Append", true),
        ("echo \"SOLUTION_PATH=${slnPath}\" | Out-File $env:GITHUB_ENV -Encoding utf8 -Append", true),
        // // Add-Content cases
        ("Add-Content -Path $env:GITHUB_ENV -Value \"RELEASE_VERSION=$releaseVersion\"", true),
        ("Add-Content $env:GITHUB_ENV \"DOTNET_ROOT=$Env:USERPROFILE\\.dotnet\"", true),
        // Set-Content cases
        ("Set-Content -Path $env:GITHUB_ENV -Value \"tag=$tag\"", true),
        ("[System.Text.Encoding]::UTF8.GetBytes(\"RELEASE_NOTES<<EOF`n$releaseNotes`nEOF\") |\nSet-Content -Path $Env:GITHUB_ENV -NoNewline -Encoding Byte", true),
        // Tee-Object cases
        ("echo \"BRANCH=${{ env.BRANCH_NAME }}\" | Tee-Object -Append -FilePath \"${env:GITHUB_ENV}\"", true),
        ("echo \"JAVA_HOME=${Env:JAVA_HOME_11_X64}\" | Tee-Object -FilePath $env:GITHUB_ENV -Append", true),
        // Case insensitivity
        ("echo \"foo\" | out-file $Env:GitHub_Env -Append", true),
        ("echo \"foo\" | out-File $Env:GitHub_Env -Append", true),
        ("echo \"foo\" | OUT-FILE $Env:GitHub_Env -Append", true),
        // Negative cases (comments should not be detected)
        ("foo >> bar # not $env:GITHUB_ENV", false),
        ("foo >> bar # not ${env:GITHUB_ENV}", false),
        (
            "echo \"foo\" | out-file bar -Append # not $env:GITHUB_ENV",
            false,
        ),
        ("foo >> GITHUB_ENV", false), // GITHUB_ENV is not a variable
        ("foo >> $GITHUB_ENV", false), // variable but not an envvar
        ("\"PYTHON_BIN=$PYTHON_BIN\" | Out-File -FilePath GITHUB_ENV -Append", false), // GITHUB_ENV is not a variable
    ] {
        let mut sut = GitHubEnv::new(audit_state()).expect("failed to create audit");

        let uses_github_env = sut.uses_github_env(case, "pwsh").unwrap();
        assert_eq!(uses_github_env, *expected, "failed: {case}");
    }
}
