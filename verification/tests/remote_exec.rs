use openwarp::git::{map_remote_output, GitExecTarget, GitInvocation};
use openwarp::shell::{build_remote_command, build_remote_git_command, shell_quote};

#[test]
fn shell_quote_passes_safe_args_unquoted() {
    assert_eq!(shell_quote("rev-parse"), "rev-parse");
    assert_eq!(shell_quote("HEAD"), "HEAD");
    assert_eq!(shell_quote("origin/main"), "origin/main");
    assert_eq!(shell_quote("a.b_c-1"), "a.b_c-1");
}

#[test]
fn build_remote_git_command_quotes_each_arg() {
    let cmd = build_remote_git_command(&["diff", "--", "a b.txt"]);
    assert_eq!(cmd, "git -c diff.autoRefreshIndex=false diff -- 'a b.txt'");
}

#[test]
fn map_remote_output_matches_local_exit_code_rules() {
    // exit 0 => ok with stdout
    assert_eq!(
        map_remote_output("Git", b"out", b"", Some(0)).unwrap(),
        "out"
    );
    // exit 0 empty => ok empty
    assert_eq!(map_remote_output("Git", b"", b"", Some(0)).unwrap(), "");
    // exit 1 with stdout => ok (git diff "differences found")
    assert_eq!(
        map_remote_output("Git", b"diff", b"", Some(1)).unwrap(),
        "diff"
    );
    // exit 1 empty stdout => error
    assert!(map_remote_output("Git", b"", b"err", Some(1)).is_err());
    // exit 2 => error even with stdout
    assert!(map_remote_output("Git", b"x", b"fatal", Some(2)).is_err());
    // killed by signal (None exit code) => error
    assert!(map_remote_output("Git", b"x", b"", None).is_err());
    // the label names the program so the failure classifier can word it
    let err = map_remote_output("gh", b"", b"gh: not found", Some(127)).unwrap_err();
    assert!(err.message().contains("gh command failed"));
    assert!(err.message().contains("not found"));
}

#[test]
fn map_remote_output_preserves_binary_and_null_payloads() {
    // Binary-diff marker passes through unchanged so the binary-file
    // detection above the chokepoint behaves identically.
    let binary = b"Binary files a/img.png and b/img.png differ\n";
    let out = map_remote_output("Git", binary, b"", Some(1)).unwrap();
    assert!(out.contains("Binary files ") && out.contains(" differ"));

    // `-z` NUL-delimited status payload round-trips byte-for-byte so the
    // downstream null-split parsing sees identical input.
    let status = b"1 .M N... 100644 100644 100644 aaa bbb file one.txt\0";
    let out = map_remote_output("Git", status, b"", Some(0)).unwrap();
    assert_eq!(out.as_bytes(), status);
}

#[test]
fn shell_quote_quotes_empty_and_unsafe_args() {
    assert_eq!(shell_quote(""), "''");
    assert_eq!(shell_quote("with space.txt"), "'with space.txt'");
    assert_eq!(shell_quote("weird'quote"), "'weird'\\''quote'");
    assert_eq!(shell_quote("ünîcödé.txt"), "'ünîcödé.txt'");
    assert_eq!(shell_quote("new\nline"), "'new\nline'");
    assert_eq!(shell_quote("number,url"), "number,url");
}

#[test]
fn build_remote_command_quotes_arguments_for_the_host_shell() {
    assert_eq!(build_remote_command("gh", &["pr", "view"]), "gh pr view");
    assert_eq!(
        build_remote_command("gh", &["pr", "create", "--body", "hi there"]),
        "gh pr create --body 'hi there'"
    );
    let body = "Fixed `foo`'s \"bar\"\ncosts $5 — vérifié ✓";
    let cmd = build_remote_command("gh", &["pr", "create", "--body", body]);
    assert_eq!(
        cmd,
        "gh pr create --body 'Fixed `foo`'\\''s \"bar\"\ncosts $5 — vérifié ✓'"
    );
    assert_eq!(build_remote_command("gh", &[]), "gh");
}

#[test]
fn build_remote_git_command_with_no_args_keeps_the_prefix() {
    let empty: [&str; 0] = [];
    assert_eq!(
        build_remote_git_command(&empty),
        "git -c diff.autoRefreshIndex=false"
    );
    assert_eq!(
        build_remote_git_command(&["commit", "-m", "fix: on remote"]),
        "git -c diff.autoRefreshIndex=false commit -m 'fix: on remote'"
    );
}

#[test]
fn map_remote_output_decodes_invalid_utf8_lossily() {
    let out = map_remote_output("Git", b"a\xffb", b"", Some(0)).unwrap();
    assert_eq!(out, "a\u{FFFD}b");
    let err = map_remote_output("Git", b"", b"bad\xfe", Some(128)).unwrap_err();
    assert_eq!(err.label, "Git");
    assert_eq!(err.exit_code, Some(128));
    assert_eq!(err.stderr, "bad\u{FFFD}");
    assert_eq!(err.message(), "Git command failed: bad\u{FFFD}");
}

#[test]
fn git_invocation_follows_the_target() {
    let local = GitExecTarget::local("/home/me/repo".to_string());
    assert!(!local.is_remote());
    assert_eq!(local.repo_path(), "/home/me/repo");
    match local.git_invocation(&["status", "--porcelain"]) {
        GitInvocation::Local { repo_path, args } => {
            assert_eq!(repo_path, "/home/me/repo");
            assert_eq!(args, vec!["status".to_string(), "--porcelain".to_string()]);
        }
        GitInvocation::Remote { .. } => panic!("local target ran remotely"),
    }

    let remote = GitExecTarget::Remote {
        session_id: 7,
        repo_path: "/srv/repo".to_string(),
        host: "dev@box".to_string(),
    };
    assert!(remote.is_remote());
    assert_eq!(remote.repo_path(), "/srv/repo");
    match remote.git_invocation(&["push", "--set-upstream", "origin", "feature/x"]) {
        GitInvocation::Remote {
            session_id,
            repo_path,
            command,
            env,
        } => {
            assert_eq!(env, vec![("GIT_OPTIONAL_LOCKS".to_string(), "0".to_string())]);
            assert_eq!(session_id, 7);
            assert_eq!(repo_path, "/srv/repo");
            assert_eq!(
                command,
                "git -c diff.autoRefreshIndex=false push --set-upstream origin feature/x"
            );
        }
        GitInvocation::Local { .. } => panic!("remote target ran locally"),
    }
}
