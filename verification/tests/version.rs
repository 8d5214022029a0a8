use git_version::args::{Args, TextArg};
use git_version::error::ErrorKind;
use git_version::output::{ExitStatus, Outcome, Output};
use git_version::submodules::{Resolver, Step};
use git_version::version::{
    finish_package_version, finish_version, package_failure_message, resolve_package_version,
    resolve_version, version_command,
};

fn printed(stdout: &str) -> Outcome {
    Outcome::Exited(Output {
        status: ExitStatus { code: Some(0), signal: None },
        stdout: stdout.as_bytes().to_vec(),
        stderr: Vec::new(),
    })
}

fn not_a_repository() -> Outcome {
    Outcome::Exited(Output {
        status: ExitStatus { code: Some(128), signal: None },
        stdout: Vec::new(),
        stderr: b"fatal: not a git repository (or any of the parent directories): .git\n".to_vec(),
    })
}

fn not_a_repository_error() -> ErrorKind {
    ErrorKind::ToolFailed {
        code: Some(128),
        detail: Some("fatal: not a git repository (or any of the parent directories): .git".to_string()),
    }
}

fn strings(items: &[&str]) -> Vec<String> {
    items.iter().map(|item| item.to_string()).collect()
}

#[test]
fn test_root_version() {
    let args = Args::default();
    let command = version_command("/work/test-root", &args);
    assert_eq!(
        command.args,
        strings(&["-C", "/work/test-root", "describe", "--always", "--dirty=-modified"])
    );
    assert_eq!(
        resolve_version(&args, printed("test-root-v0.1.0-modified\n")),
        Ok("test-root-v0.1.0-modified".to_string())
    );
}

#[test]
fn version_git_describe_is_right() {
    let name = "v0.3.9-2-g1a2b3c4-modified";
    let outcome = || printed("v0.3.9-2-g1a2b3c4-modified\n");

    let mut named = Args::default();
    named.set_git_args(strings(&["--always", "--dirty=-modified"]));
    assert_eq!(resolve_version(&named, outcome()), Ok(name.to_string()));
    assert_eq!(
        version_command(".", &named).args,
        strings(&["-C", ".", "describe", "--always", "--dirty=-modified"])
    );

    let mut dressed = Args::default();
    dressed.set_text(TextArg::Prefix, "[".to_string());
    dressed.set_text(TextArg::Suffix, "]".to_string());
    assert_eq!(resolve_version(&dressed, outcome()), Ok(format!("[{}]", name)));

    // A repository without submodules has an empty table.
    let (resolver, _) = Resolver::start(".", Args::default());
    let resolver = match resolver.advance(printed(".git\n")) {
        Step::Run(next, _) => next,
        Step::Done(result) => panic!("ended after locating: {:?}", result),
    };
    match resolver.advance(printed("")) {
        Step::Done(table) => assert_eq!(table, Ok(Vec::new())),
        Step::Run(_, command) => panic!("asked for {:?}", command),
    }
}

#[test]
fn no_arguments_means_always_and_dirty() {
    let unnamed = Args::default();
    let mut named = Args::default();
    named.set_git_args(strings(&["--always", "--dirty=-modified"]));
    assert_eq!(version_command("/repo", &unnamed), version_command("/repo", &named));
    assert_eq!(
        resolve_version(&unnamed, printed("v2\n")),
        resolve_version(&named, printed("v2\n"))
    );
    assert_eq!(resolve_version(&unnamed, not_a_repository()), resolve_version(&named, not_a_repository()));
}

#[test]
fn named_arguments_reach_the_command_as_they_are() {
    let mut args = Args::default();
    args.set_git_args(strings(&["--abbrev=40", "--always"]));
    assert_eq!(
        version_command("/repo", &args).args,
        strings(&["-C", "/repo", "describe", "--abbrev=40", "--always"])
    );
}

#[test]
fn version_is_prefix_raw_suffix() {
    let mut args = Args::default();
    args.set_text(TextArg::Prefix, "git:".to_string());
    args.set_text(TextArg::Suffix, "+build".to_string());
    assert_eq!(resolve_version(&args, printed("v1.2.3-4-gdeadbee\n")), Ok("git:v1.2.3-4-gdeadbee+build".to_string()));

    let mut only_prefix = Args::default();
    only_prefix.set_text(TextArg::Prefix, "git:".to_string());
    assert_eq!(resolve_version(&only_prefix, printed("v1\n")), Ok("git:v1".to_string()));

    let mut only_suffix = Args::default();
    only_suffix.set_text(TextArg::Suffix, "!".to_string());
    assert_eq!(resolve_version(&only_suffix, printed("v1\n")), Ok("v1!".to_string()));
}

#[test]
fn fallback_is_not_decorated() {
    let mut args = Args::default();
    args.set_text(TextArg::Prefix, "git:".to_string());
    args.set_text(TextArg::Suffix, "+build".to_string());
    args.set_text(TextArg::Fallback, "unknown".to_string());
    assert_eq!(resolve_version(&args, not_a_repository()), Ok("unknown".to_string()));
    assert_eq!(resolve_version(&args, printed("v1\n")), Ok("git:v1+build".to_string()));
}

#[test]
fn fallback_stands_in_for_every_kind_of_failure() {
    let mut args = Args::default();
    args.set_text(TextArg::Fallback, "unknown".to_string());
    let invalid = Outcome::Exited(Output {
        status: ExitStatus { code: Some(0), signal: None },
        stdout: vec![0xff],
        stderr: Vec::new(),
    });
    let killed = Outcome::Exited(Output {
        status: ExitStatus { code: None, signal: Some(9) },
        stdout: Vec::new(),
        stderr: Vec::new(),
    });
    assert_eq!(resolve_version(&args, Outcome::NotFound), Ok("unknown".to_string()));
    assert_eq!(resolve_version(&args, Outcome::NotStarted("denied".to_string())), Ok("unknown".to_string()));
    assert_eq!(resolve_version(&args, not_a_repository()), Ok("unknown".to_string()));
    assert_eq!(resolve_version(&args, killed), Ok("unknown".to_string()));
    assert_eq!(resolve_version(&args, invalid), Ok("unknown".to_string()));
}

#[test]
fn without_fallback_the_tool_error_comes_back() {
    let args = Args::default();
    assert_eq!(resolve_version(&args, not_a_repository()), Err(not_a_repository_error()));
    assert_eq!(resolve_version(&args, Outcome::NotFound), Err(ErrorKind::ToolNotFound));
    assert_eq!(
        resolve_version(&args, Outcome::NotStarted("denied".to_string())),
        Err(ErrorKind::SpawnFailed("denied".to_string()))
    );
    let mut dressed = Args::default();
    dressed.set_text(TextArg::Prefix, "p".to_string());
    dressed.set_text(TextArg::Suffix, "s".to_string());
    assert_eq!(resolve_version(&dressed, not_a_repository()), Err(not_a_repository_error()));
}

#[test]
fn resolve_version_ignores_the_package_options() {
    let mut args = Args::default();
    args.set_text(TextArg::CargoPrefix, "cargo:".to_string());
    assert_eq!(resolve_version(&args, printed("v1\n")), Ok("v1".to_string()));
    assert_eq!(resolve_version(&args, Outcome::NotFound), Err(ErrorKind::ToolNotFound));
}

#[test]
fn finish_version_decides_on_a_described_target() {
    let mut args = Args::default();
    args.set_text(TextArg::Prefix, "<".to_string());
    args.set_text(TextArg::Suffix, ">".to_string());
    assert_eq!(finish_version(&args, Ok("raw".to_string())), Ok("<raw>".to_string()));
    assert_eq!(finish_version(&args, Err(ErrorKind::InvalidOutput)), Err(ErrorKind::InvalidOutput));
    args.set_text(TextArg::Fallback, String::new());
    assert_eq!(finish_version(&args, Err(ErrorKind::InvalidOutput)), Ok(String::new()));
}

#[test]
fn package_version_stands_in_when_git_fails() {
    let mut args = Args::default();
    args.set_text(TextArg::Prefix, "git:".to_string());
    args.set_text(TextArg::CargoPrefix, "cargo:".to_string());
    args.set_text(TextArg::Fallback, "unknown".to_string());
    assert_eq!(
        resolve_package_version(&args, not_a_repository(), Some("0.3.9".to_string())),
        Ok("cargo:0.3.9".to_string())
    );
    assert_eq!(
        resolve_package_version(&args, printed("v1\n"), Some("0.3.9".to_string())),
        Ok("git:v1".to_string())
    );
    assert_eq!(resolve_package_version(&args, not_a_repository(), None), Ok("unknown".to_string()));
}

#[test]
fn package_version_takes_its_own_suffix() {
    let mut args = Args::default();
    args.set_text(TextArg::Suffix, "-git".to_string());
    args.set_text(TextArg::CargoSuffix, "-cargo".to_string());
    assert_eq!(
        resolve_package_version(&args, Outcome::NotFound, Some("1.0.0".to_string())),
        Ok("1.0.0-cargo".to_string())
    );
    assert_eq!(
        resolve_package_version(&args, Outcome::NotFound, None),
        Err(ErrorKind::ToolNotFound)
    );
}

#[test]
fn package_version_is_not_used_unless_asked_for() {
    let mut args = Args::default();
    args.set_text(TextArg::Fallback, "unknown".to_string());
    assert_eq!(
        resolve_package_version(&args, not_a_repository(), Some("0.3.9".to_string())),
        Ok("unknown".to_string())
    );
    assert_eq!(
        resolve_package_version(&Args::default(), not_a_repository(), Some("0.3.9".to_string())),
        Err(not_a_repository_error())
    );
}

#[test]
fn finish_package_version_decides_on_a_described_repository() {
    let mut args = Args::default();
    args.set_text(TextArg::CargoPrefix, "c:".to_string());
    args.set_text(TextArg::CargoSuffix, ":c".to_string());
    assert_eq!(
        finish_package_version(&args, Err(ErrorKind::ToolNotFound), Some("1.2.3".to_string())),
        Ok("c:1.2.3:c".to_string())
    );
    assert_eq!(
        finish_package_version(&args, Ok("v9".to_string()), Some("1.2.3".to_string())),
        Ok("v9".to_string())
    );
    assert_eq!(
        finish_package_version(&args, Err(ErrorKind::ToolNotFound), None),
        Err(ErrorKind::ToolNotFound)
    );
}

#[test]
fn package_failure_message_names_both_versions_when_both_were_tried() {
    let mut args = Args::default();
    let error = ErrorKind::ToolFailed { code: Some(128), detail: None };
    assert_eq!(
        package_failure_message(&args, &error, "git describe"),
        "git describe exited with status 128"
    );
    args.set_text(TextArg::CargoPrefix, "cargo:".to_string());
    assert_eq!(package_failure_message(&args, &error, "git describe"), "Unable to get git or cargo version");
}
