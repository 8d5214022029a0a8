//! The version of a single repository.
//!
//! The caller runs [`version_command`] and hands what came of it to
//! [`resolve_version`].

use crate::args::{decorate, Args, ArgsView};
use crate::command::{Command, CommandView};
use crate::error::{ErrorKind, ErrorView};
use crate::output::{run_git, run_result, text_result, Outcome, OutcomeView};
use crate::text::{opt_text, or_empty};
use vstd::prelude::*;
use vstd::string::*;

verus! {

/// The version that stands for one target, given what describing it came
/// to.  A raw version is put between prefix and suffix.  Where describing
/// failed, the fallback stands in as it is, without prefix or suffix; where
/// there is none, the failure stays.
pub open spec fn version_or_fallback(
    args: ArgsView,
    described: Result<Seq<char>, ErrorView>,
) -> Result<Seq<char>, ErrorView> {
    match described {
        Ok(raw) => Ok(args.decorated(raw)),
        Err(error) => match args.fallback {
            Some(fallback) => Ok(fallback),
            None => Err(error),
        },
    }
}

/// The version of a repository, given what `git describe` came to.
pub open spec fn resolved_version(args: ArgsView, outcome: OutcomeView) -> Result<
    Seq<char>,
    ErrorView,
> {
    version_or_fallback(args, run_result(outcome))
}

/// The version of a package that lives in a repository, given what
/// describing the repository came to.  Where that failed, the package's own
/// version stands in, provided that a prefix or a suffix was named for it
/// and that it is known; only then come the fallback and the failure.
pub open spec fn package_version_or_fallback(
    args: ArgsView,
    described: Result<Seq<char>, ErrorView>,
    package_version: Option<Seq<char>>,
) -> Result<Seq<char>, ErrorView> {
    match (described, package_version) {
        (Err(_), Some(version)) if args.cargo_fallback() => Ok(args.cargo_decorated(version)),
        _ => version_or_fallback(args, described),
    }
}

/// The version of a package, given what `git describe` came to.
pub open spec fn resolved_package_version(
    args: ArgsView,
    outcome: OutcomeView,
    package_version: Option<Seq<char>>,
) -> Result<Seq<char>, ErrorView> {
    package_version_or_fallback(args, run_result(outcome), package_version)
}

/// The words for a package of which no version could be had.  Where the
/// package's own version was asked to stand in, they say that neither
/// version is there; otherwise they are those of the error.
pub open spec fn package_failure_text(
    args: ArgsView,
    error: ErrorView,
    label: Seq<char>,
) -> Seq<char> {
    if args.cargo_fallback() {
        "Unable to get git or cargo version"@
    } else {
        error.message(label)
    }
}

/// Naming no arguments for `git describe` is the same as naming
/// `--always --dirty=-modified`: the same command is run, and what it comes
/// to is read in the same way.
pub proof fn lemma_default_arguments(dir: Seq<char>, args: ArgsView, outcome: OutcomeView)
    requires
        args.git_args is None,
    ensures
        ({
            let named = ArgsView { git_args: Some(seq!["--always"@, "--dirty=-modified"@]), ..args };
            &&& CommandView::describe(dir, named.describe_args()) == CommandView::describe(
                dir,
                args.describe_args(),
            )
            &&& resolved_version(named, outcome) == resolved_version(args, outcome)
        }),
{
}

/// A raw version that git gave comes back as prefix, raw version, suffix,
/// and as nothing else; a prefix or suffix that is not set counts as the
/// empty text.  A fallback that is used comes back bare.
pub proof fn lemma_decoration(args: ArgsView, outcome: OutcomeView)
    ensures
        run_result(outcome) matches Ok(raw) ==> resolved_version(args, outcome) == Ok::<
            Seq<char>,
            ErrorView,
        >(or_empty(args.prefix) + raw + or_empty(args.suffix)),
        run_result(outcome) is Err ==> (args.fallback matches Some(fallback)
            ==> resolved_version(args, outcome) == Ok::<Seq<char>, ErrorView>(fallback)),
{
}

/// Where describing fails, a fallback is returned exactly as it was given,
/// and without one the failure of the tool is returned unchanged.
pub proof fn lemma_fallback_on_failure(args: ArgsView, outcome: OutcomeView)
    requires
        run_result(outcome) is Err,
    ensures
        args.fallback matches Some(fallback) ==> resolved_version(args, outcome) == Ok::<
            Seq<char>,
            ErrorView,
        >(fallback),
        args.fallback is None ==> resolved_version(args, outcome) == run_result(outcome),
{
}

/// The command whose outcome [`resolve_version`] reads: `git describe` for
/// the repository at `dir`, with the arguments that `args` names or, where
/// it names none, with `--always --dirty=-modified`.
pub fn version_command(dir: &str, args: &Args) -> (command: Command)
    ensures
        command@ == CommandView::describe(dir@, args@.describe_args()),
{
    let list = args.describe_args();
    Command::describe(dir, &list)
}

/// What to make of a described target: see [`version_or_fallback`].
pub fn finish_version(args: &Args, described: Result<String, ErrorKind>) -> (result: Result<
    String,
    ErrorKind,
>)
    ensures
        text_result(result) == version_or_fallback(args@, text_result(described)),
{
    match described {
        Ok(raw) => Ok(decorate(&args.prefix, raw.as_str(), &args.suffix)),
        Err(error) => match &args.fallback {
            Some(fallback) => Ok(fallback.clone()),
            None => Err(error),
        },
    }
}

/// The version of a repository, from what [`version_command`] came to.
///
/// On success the result is prefix, raw version, suffix.  On failure it is
/// the fallback, bare, where one is set; otherwise the error of the tool.
pub fn resolve_version(args: &Args, outcome: Outcome) -> (result: Result<String, ErrorKind>)
    ensures
        text_result(result) == resolved_version(args@, outcome@),
{
    finish_version(args, run_git(outcome))
}

/// What to make of a described repository for a package: see
/// [`package_version_or_fallback`].
pub fn finish_package_version(
    args: &Args,
    described: Result<String, ErrorKind>,
    package_version: Option<String>,
) -> (result: Result<String, ErrorKind>)
    ensures
        text_result(result) == package_version_or_fallback(
            args@,
            text_result(described),
            opt_text(package_version),
        ),
{
    match (&described, &package_version) {
        (Err(_), Some(version)) if args.cargo_fallback() => Ok(
            decorate(&args.cargo_prefix, version.as_str(), &args.cargo_suffix),
        ),
        _ => finish_version(args, described),
    }
}

/// The version of a package, from what [`version_command`] came to and from
/// the version that the package gives itself, where it is known.
///
/// As [`resolve_version`], but where describing failed and `cargo_prefix`
/// or `cargo_suffix` is set, the package's own version comes first, between
/// those two.
pub fn resolve_package_version(
    args: &Args,
    outcome: Outcome,
    package_version: Option<String>,
) -> (result: Result<String, ErrorKind>)
    ensures
        text_result(result) == resolved_package_version(
            args@,
            outcome@,
            opt_text(package_version),
        ),
{
    finish_package_version(args, run_git(outcome), package_version)
}

/// Says in one line of words why a package has no version.  `label` is the
/// name of the command that failed with `error`.
pub fn package_failure_message(args: &Args, error: &ErrorKind, label: &str) -> (text: String)
    ensures
        text@ == package_failure_text(args@, error@, label@),
{
    if args.cargo_fallback() {
        "Unable to get git or cargo version".to_owned()
    } else {
        error.message(label)
    }
}

} // verus!
