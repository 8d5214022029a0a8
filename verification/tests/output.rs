use git_version::error::ErrorKind;
use git_version::output::{collect_output, run_git, strip_trailing_newline, ExitStatus, Outcome, Output};

fn exited(code: i32, stdout: &[u8], stderr: &[u8]) -> Output {
    Output {
        status: ExitStatus { code: Some(code), signal: None },
        stdout: stdout.to_vec(),
        stderr: stderr.to_vec(),
    }
}

#[test]
fn strip_removes_exactly_one_newline() {
    assert_eq!(strip_trailing_newline(b"v1.0\n".to_vec()), b"v1.0".to_vec());
    assert_eq!(strip_trailing_newline(b"v1.0\n\n".to_vec()), b"v1.0\n".to_vec());
    assert_eq!(strip_trailing_newline(b"\n".to_vec()), Vec::<u8>::new());
}

#[test]
fn strip_leaves_other_endings_alone() {
    assert_eq!(strip_trailing_newline(b"v1.0".to_vec()), b"v1.0".to_vec());
    assert_eq!(strip_trailing_newline(b"v1.0 ".to_vec()), b"v1.0 ".to_vec());
    assert_eq!(strip_trailing_newline(b"v1.0\r".to_vec()), b"v1.0\r".to_vec());
    assert_eq!(strip_trailing_newline(b"v1.0\r\n".to_vec()), b"v1.0\r".to_vec());
    assert_eq!(strip_trailing_newline(b"\nv1.0".to_vec()), b"\nv1.0".to_vec());
    assert_eq!(strip_trailing_newline(Vec::new()), Vec::<u8>::new());
}

#[test]
fn strip_without_newline_is_a_no_op() {
    let plain = b"v0.1.0-3-gabc1234".to_vec();
    assert_eq!(strip_trailing_newline(plain.clone()), plain);
}

#[test]
fn strip_twice_equals_strip_once_for_one_newline() {
    let once = strip_trailing_newline(b"v0.1.0\n".to_vec());
    let twice = strip_trailing_newline(once.clone());
    assert_eq!(once, b"v0.1.0".to_vec());
    assert_eq!(twice, once);
}

#[test]
fn collect_output_returns_stdout_on_success() {
    let output = exited(0, b"v1\n", b"warning: something\n");
    assert_eq!(collect_output(output), Ok(b"v1\n".to_vec()));
}

#[test]
fn collect_output_reports_code_and_first_stderr_line() {
    let output = exited(128, b"", b"fatal: not a git repository\nhint: second line\n");
    assert_eq!(
        collect_output(output),
        Err(ErrorKind::ToolFailed {
            code: Some(128),
            detail: Some("fatal: not a git repository".to_string()),
        })
    );
}

#[test]
fn collect_output_takes_stderr_without_newline_whole() {
    let output = exited(1, b"ignored", b"fatal: bad revision");
    assert_eq!(
        collect_output(output),
        Err(ErrorKind::ToolFailed { code: Some(1), detail: Some("fatal: bad revision".to_string()) })
    );
}

#[test]
fn collect_output_omits_detail_where_every_line_is_empty() {
    assert_eq!(
        collect_output(exited(2, b"", b"")),
        Err(ErrorKind::ToolFailed { code: Some(2), detail: None })
    );
    assert_eq!(
        collect_output(exited(2, b"", b"\n")),
        Err(ErrorKind::ToolFailed { code: Some(2), detail: None })
    );
    assert_eq!(
        collect_output(exited(2, b"", b"\n\n\n")),
        Err(ErrorKind::ToolFailed { code: Some(2), detail: None })
    );
}

#[test]
fn collect_output_takes_the_first_line_that_is_not_empty() {
    assert_eq!(
        collect_output(exited(128, b"", b"\nfatal: bad\n")),
        Err(ErrorKind::ToolFailed { code: Some(128), detail: Some("fatal: bad".to_string()) })
    );
    assert_eq!(
        collect_output(exited(2, b"", b"\nfatal: on the second line\n")),
        Err(ErrorKind::ToolFailed { code: Some(2), detail: Some("fatal: on the second line".to_string()) })
    );
    assert_eq!(
        collect_output(exited(2, b"", b"\n\n\nfatal: late\nhint: later\n")),
        Err(ErrorKind::ToolFailed { code: Some(2), detail: Some("fatal: late".to_string()) })
    );
    assert_eq!(
        collect_output(exited(2, b"", b"\n\nno line feed at the end")),
        Err(ErrorKind::ToolFailed { code: Some(2), detail: Some("no line feed at the end".to_string()) })
    );
    assert_eq!(
        collect_output(exited(2, b"", b" \nfatal: after a blank\n")),
        Err(ErrorKind::ToolFailed { code: Some(2), detail: Some(" ".to_string()) })
    );
}

#[test]
fn collect_output_omits_detail_that_is_not_utf8() {
    assert_eq!(
        collect_output(exited(3, b"", b"fatal: \xff\xfe\nfine\n")),
        Err(ErrorKind::ToolFailed { code: Some(3), detail: None })
    );
    // The line that counts is the first that is not empty, valid or not.
    assert_eq!(
        collect_output(exited(3, b"", b"\n\xff\nfine\n")),
        Err(ErrorKind::ToolFailed { code: Some(3), detail: None })
    );
}

#[test]
fn collect_output_keeps_detail_in_other_scripts() {
    assert_eq!(
        collect_output(exited(-1, b"", "fatal: d\u{e9}p\u{f4}t \u{2713}\nmore".as_bytes())),
        Err(ErrorKind::ToolFailed {
            code: Some(-1),
            detail: Some("fatal: d\u{e9}p\u{f4}t \u{2713}".to_string()),
        })
    );
}

#[test]
fn collect_output_reports_signal() {
    let output = Output {
        status: ExitStatus { code: None, signal: Some(9) },
        stdout: b"partial".to_vec(),
        stderr: b"Killed\n".to_vec(),
    };
    assert_eq!(collect_output(output), Err(ErrorKind::ToolKilled { signal: 9 }));
}

#[test]
fn collect_output_without_code_or_signal_is_unknown_failure() {
    let output = Output {
        status: ExitStatus { code: None, signal: None },
        stdout: Vec::new(),
        stderr: b"something\n".to_vec(),
    };
    assert_eq!(collect_output(output), Err(ErrorKind::ToolFailed { code: None, detail: None }));
}

#[test]
fn collect_output_prefers_exit_code_over_signal() {
    let output = Output {
        status: ExitStatus { code: Some(0), signal: Some(15) },
        stdout: b"ok".to_vec(),
        stderr: Vec::new(),
    };
    assert_eq!(collect_output(output), Ok(b"ok".to_vec()));
    let output = Output {
        status: ExitStatus { code: Some(4), signal: Some(15) },
        stdout: Vec::new(),
        stderr: Vec::new(),
    };
    assert_eq!(collect_output(output), Err(ErrorKind::ToolFailed { code: Some(4), detail: None }));
}

#[test]
fn exit_status_success_means_code_zero() {
    assert!(ExitStatus { code: Some(0), signal: None }.success());
    assert!(!ExitStatus { code: Some(1), signal: None }.success());
    assert!(!ExitStatus { code: None, signal: Some(2) }.success());
    assert!(!ExitStatus { code: None, signal: None }.success());
}

#[test]
fn run_git_decodes_what_was_printed() {
    assert_eq!(run_git(Outcome::Exited(exited(0, b"v1.2.3\n", b""))), Ok("v1.2.3".to_string()));
    assert_eq!(run_git(Outcome::Exited(exited(0, b"v1.2.3", b""))), Ok("v1.2.3".to_string()));
    assert_eq!(run_git(Outcome::Exited(exited(0, b"", b""))), Ok(String::new()));
    assert_eq!(
        run_git(Outcome::Exited(exited(0, "\u{3b1}\u{3b2}-1\n".as_bytes(), b""))),
        Ok("\u{3b1}\u{3b2}-1".to_string())
    );
}

#[test]
fn run_git_trims_nothing_but_one_newline() {
    assert_eq!(run_git(Outcome::Exited(exited(0, b" v1 \n\n", b""))), Ok(" v1 \n".to_string()));
    assert_eq!(run_git(Outcome::Exited(exited(0, b"v1\r\n", b""))), Ok("v1\r".to_string()));
}

#[test]
fn run_git_rejects_invalid_utf8() {
    assert_eq!(run_git(Outcome::Exited(exited(0, b"v1\xff\n", b""))), Err(ErrorKind::InvalidOutput));
    assert_eq!(run_git(Outcome::Exited(exited(0, b"\xc3", b""))), Err(ErrorKind::InvalidOutput));
}

#[test]
fn run_git_reports_missing_binary() {
    assert_eq!(run_git(Outcome::NotFound), Err(ErrorKind::ToolNotFound));
}

#[test]
fn run_git_reports_spawn_failure_with_detail() {
    assert_eq!(
        run_git(Outcome::NotStarted("Permission denied (os error 13)".to_string())),
        Err(ErrorKind::SpawnFailed("Permission denied (os error 13)".to_string()))
    );
}

#[test]
fn run_git_hands_on_tool_failure() {
    assert_eq!(
        run_git(Outcome::Exited(exited(128, b"not read", b"fatal: No names found\n"))),
        Err(ErrorKind::ToolFailed { code: Some(128), detail: Some("fatal: No names found".to_string()) })
    );
}
