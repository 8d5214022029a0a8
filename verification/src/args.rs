//! The options that say how a version is derived.

use crate::text::{copy_strings, opt_text, opt_texts, or_empty};
use vstd::prelude::*;
use vstd::string::*;

verus! {

/// How `git describe` is called and how its answer is dressed.
///
/// Every field is optional.  Without `git_args`, `git describe` gets
/// `--always --dirty=-modified`; a missing `prefix` or `suffix` adds
/// nothing.
#[derive(Debug, Clone, PartialEq, Eq)]
pub struct Args {
    /// The arguments to call `git describe` with.
    pub git_args: Option<Vec<String>>,
    /// Put before the version that git gave.
    pub prefix: Option<String>,
    /// Put after the version that git gave.
    pub suffix: Option<String>,
    /// Put before the package's own version, where that stands in for git's.
    pub cargo_prefix: Option<String>,
    /// Put after the package's own version, where that stands in for git's.
    pub cargo_suffix: Option<String>,
    /// Given as it is where no version can be had.
    pub fallback: Option<String>,
}

/// The mathematical value of [`Args`].
pub struct ArgsView {
    pub git_args: Option<Seq<Seq<char>>>,
    pub prefix: Option<Seq<char>>,
    pub suffix: Option<Seq<char>>,
    pub cargo_prefix: Option<Seq<char>>,
    pub cargo_suffix: Option<Seq<char>>,
    pub fallback: Option<Seq<char>>,
}

/// What `git describe` is called with where the caller names no arguments:
/// print something even without a tag, and mark a modified working tree.
pub open spec fn default_describe_args() -> Seq<Seq<char>> {
    seq!["--always"@, "--dirty=-modified"@]
}

impl View for Args {
    type V = ArgsView;

    open spec fn view(&self) -> ArgsView {
        ArgsView {
            git_args: opt_texts(self.git_args),
            prefix: opt_text(self.prefix),
            suffix: opt_text(self.suffix),
            cargo_prefix: opt_text(self.cargo_prefix),
            cargo_suffix: opt_text(self.cargo_suffix),
            fallback: opt_text(self.fallback),
        }
    }
}

impl ArgsView {
    /// No option set.
    pub open spec fn empty() -> ArgsView {
        ArgsView {
            git_args: None,
            prefix: None,
            suffix: None,
            cargo_prefix: None,
            cargo_suffix: None,
            fallback: None,
        }
    }

    /// The arguments that `git describe` gets.
    pub open spec fn describe_args(self) -> Seq<Seq<char>> {
        match self.git_args {
            Some(args) => args,
            None => default_describe_args(),
        }
    }

    /// The version `raw` that git gave, between prefix and suffix.
    pub open spec fn decorated(self, raw: Seq<char>) -> Seq<char> {
        or_empty(self.prefix) + raw + or_empty(self.suffix)
    }

    /// The package's own version, between its prefix and suffix.
    pub open spec fn cargo_decorated(self, version: Seq<char>) -> Seq<char> {
        or_empty(self.cargo_prefix) + version + or_empty(self.cargo_suffix)
    }

    /// The package's own version may stand in for git's as soon as a prefix
    /// or a suffix is named for it.
    pub open spec fn cargo_fallback(self) -> bool {
        self.cargo_prefix is Some || self.cargo_suffix is Some
    }
}

impl Default for Args {
    fn default() -> (args: Args)
        ensures
            args@ == ArgsView::empty(),
    {
        Args {
            git_args: None,
            prefix: None,
            suffix: None,
            cargo_prefix: None,
            cargo_suffix: None,
            fallback: None,
        }
    }
}

/// `text` between `before` and `after`, either of which may be missing.
pub fn decorate(before: &Option<String>, text: &str, after: &Option<String>) -> (result: String)
    ensures
        result@ == or_empty(opt_text(*before)) + text@ + or_empty(opt_text(*after)),
{
    let mut result = match before {
        Some(b) => b.clone(),
        None => String::new(),
    };
    result.append(text);
    match after {
        Some(a) => result.append(a.as_str()),
        None => {},
    }
    result
}

/// An option whose value is a text.
#[derive(Debug, Clone, Copy, PartialEq, Eq)]
pub enum TextArg {
    Prefix,
    Suffix,
    CargoPrefix,
    CargoSuffix,
    Fallback,
}

/// An option, by its name.
#[derive(Debug, Clone, Copy, PartialEq, Eq)]
pub enum ArgName {
    /// `args`, whose value is a list of texts.
    GitArgs,
    /// One of the options whose value is a text.
    Text(TextArg),
}

/// Why a named option is turned down.
#[derive(Debug, Clone, PartialEq, Eq)]
pub enum ArgError {
    /// No option goes by this name.
    Unexpected(String),
    /// The option was given before.
    Duplicate(ArgName),
    /// The option has no meaning where submodules are described.
    NotForSubmodules(TextArg),
}

/// The mathematical value of an [`ArgError`].
pub enum ArgErrorView {
    Unexpected(Seq<char>),
    Duplicate(ArgName),
    NotForSubmodules(TextArg),
}

impl View for ArgError {
    type V = ArgErrorView;

    open spec fn view(&self) -> ArgErrorView {
        match *self {
            ArgError::Unexpected(name) => ArgErrorView::Unexpected(name@),
            ArgError::Duplicate(name) => ArgErrorView::Duplicate(name),
            ArgError::NotForSubmodules(which) => ArgErrorView::NotForSubmodules(which),
        }
    }
}

/// The value of a result that holds a name.
pub open spec fn name_result(result: Result<ArgName, ArgError>) -> Result<ArgName, ArgErrorView> {
    match result {
        Ok(name) => Ok(name),
        Err(error) => Err(error@),
    }
}

/// The value of a result that holds nothing.
pub open spec fn unit_result(result: Result<(), ArgError>) -> Result<(), ArgErrorView> {
    match result {
        Ok(()) => Ok(()),
        Err(error) => Err(error@),
    }
}

impl TextArg {
    /// The name under which the option is written.
    pub open spec fn spec_name(self) -> Seq<char> {
        match self {
            TextArg::Prefix => "prefix"@,
            TextArg::Suffix => "suffix"@,
            TextArg::CargoPrefix => "cargo_prefix"@,
            TextArg::CargoSuffix => "cargo_suffix"@,
            TextArg::Fallback => "fallback"@,
        }
    }

    /// The name under which the option is written.
    pub fn name(&self) -> (name: &'static str)
        ensures
            name@ == self.spec_name(),
    {
        match self {
            TextArg::Prefix => "prefix",
            TextArg::Suffix => "suffix",
            TextArg::CargoPrefix => "cargo_prefix",
            TextArg::CargoSuffix => "cargo_suffix",
            TextArg::Fallback => "fallback",
        }
    }
}

impl ArgName {
    /// The name under which the option is written.
    pub open spec fn spec_name(self) -> Seq<char> {
        match self {
            ArgName::GitArgs => "args"@,
            ArgName::Text(which) => which.spec_name(),
        }
    }

    /// The option that is written as `name`, if there is one.
    pub open spec fn named(name: Seq<char>) -> Option<ArgName> {
        if name == "args"@ {
            Some(ArgName::GitArgs)
        } else if name == "prefix"@ {
            Some(ArgName::Text(TextArg::Prefix))
        } else if name == "suffix"@ {
            Some(ArgName::Text(TextArg::Suffix))
        } else if name == "cargo_prefix"@ {
            Some(ArgName::Text(TextArg::CargoPrefix))
        } else if name == "cargo_suffix"@ {
            Some(ArgName::Text(TextArg::CargoSuffix))
        } else if name == "fallback"@ {
            Some(ArgName::Text(TextArg::Fallback))
        } else {
            None
        }
    }

    /// The name under which the option is written.
    pub fn name(&self) -> (name: &'static str)
        ensures
            name@ == self.spec_name(),
    {
        match self {
            ArgName::GitArgs => "args",
            ArgName::Text(which) => which.name(),
        }
    }

    /// Finds the option that is written as `name`.
    pub fn parse(name: &str) -> (found: Option<ArgName>)
        ensures
            found == ArgName::named(name@),
    {
        let name = name.to_owned();
        if name == "args".to_owned() {
            Some(ArgName::GitArgs)
        } else if name == "prefix".to_owned() {
            Some(ArgName::Text(TextArg::Prefix))
        } else if name == "suffix".to_owned() {
            Some(ArgName::Text(TextArg::Suffix))
        } else if name == "cargo_prefix".to_owned() {
            Some(ArgName::Text(TextArg::CargoPrefix))
        } else if name == "cargo_suffix".to_owned() {
            Some(ArgName::Text(TextArg::CargoSuffix))
        } else if name == "fallback".to_owned() {
            Some(ArgName::Text(TextArg::Fallback))
        } else {
            None
        }
    }
}

/// Every option is found under its own name, and under no other.
pub proof fn lemma_names_are_distinct(name: ArgName)
    ensures
        ArgName::named(name.spec_name()) == Some(name),
{
    reveal_strlit("args");
    reveal_strlit("prefix");
    reveal_strlit("suffix");
    reveal_strlit("cargo_prefix");
    reveal_strlit("cargo_suffix");
    reveal_strlit("fallback");
    assert("args"@.len() == 4);
    assert("prefix"@[0] == 'p');
    assert("suffix"@[0] == 's');
    assert("cargo_prefix"@[6] == 'p');
    assert("cargo_suffix"@[6] == 's');
    assert("fallback"@.len() == 8);
}

impl ArgErrorView {
    /// The error in one line of words.
    pub open spec fn message(self) -> Seq<char> {
        match self {
            ArgErrorView::Unexpected(name) => "Unexpected argument name `"@ + name + "`"@,
            ArgErrorView::Duplicate(name) => "`"@ + name.spec_name() + " = ` can only appear once"@,
            ArgErrorView::NotForSubmodules(which) => "invalid argument `"@ + which.spec_name()
                + "` for `git_submodule_versions!()`"@,
        }
    }
}

impl ArgError {
    /// Says in one line of words why the option is turned down.
    pub fn message(&self) -> (text: String)
        ensures
            text@ == self@.message(),
    {
        match self {
            ArgError::Unexpected(name) => {
                let mut text = "Unexpected argument name `".to_owned();
                text.append(name.as_str());
                text.append("`");
                text
            },
            ArgError::Duplicate(name) => {
                let mut text = "`".to_owned();
                text.append(name.name());
                text.append(" = ` can only appear once");
                text
            },
            ArgError::NotForSubmodules(which) => {
                let mut text = "invalid argument `".to_owned();
                text.append(which.name());
                text.append("` for `git_submodule_versions!()`");
                text
            },
        }
    }
}

impl ArgsView {
    /// Whether the option has a value.
    pub open spec fn is_set(self, name: ArgName) -> bool {
        match name {
            ArgName::GitArgs => self.git_args is Some,
            ArgName::Text(TextArg::Prefix) => self.prefix is Some,
            ArgName::Text(TextArg::Suffix) => self.suffix is Some,
            ArgName::Text(TextArg::CargoPrefix) => self.cargo_prefix is Some,
            ArgName::Text(TextArg::CargoSuffix) => self.cargo_suffix is Some,
            ArgName::Text(TextArg::Fallback) => self.fallback is Some,
        }
    }

    /// The options with `text` as the value of `which`.
    pub open spec fn with_text(self, which: TextArg, text: Seq<char>) -> ArgsView {
        match which {
            TextArg::Prefix => ArgsView { prefix: Some(text), ..self },
            TextArg::Suffix => ArgsView { suffix: Some(text), ..self },
            TextArg::CargoPrefix => ArgsView { cargo_prefix: Some(text), ..self },
            TextArg::CargoSuffix => ArgsView { cargo_suffix: Some(text), ..self },
            TextArg::Fallback => ArgsView { fallback: Some(text), ..self },
        }
    }

    /// Whether an option written as `name` may be given next: it must be
    /// one of the six options, and it must not have a value yet.
    pub open spec fn accepted(self, name: Seq<char>) -> Result<ArgName, ArgErrorView> {
        match ArgName::named(name) {
            Some(found) => if self.is_set(found) {
                Err(ArgErrorView::Duplicate(found))
            } else {
                Ok(found)
            },
            None => Err(ArgErrorView::Unexpected(name)),
        }
    }

    /// Whether the options can be used to describe submodules: those that
    /// speak of the package's own version cannot.
    pub open spec fn submodule_check(self) -> Result<(), ArgErrorView> {
        if self.cargo_prefix is Some {
            Err(ArgErrorView::NotForSubmodules(TextArg::CargoPrefix))
        } else if self.cargo_suffix is Some {
            Err(ArgErrorView::NotForSubmodules(TextArg::CargoSuffix))
        } else {
            Ok(())
        }
    }
}

impl Args {
    /// Whether the option has a value.
    pub fn is_set(&self, name: ArgName) -> (yes: bool)
        ensures
            yes == self@.is_set(name),
    {
        match name {
            ArgName::GitArgs => self.git_args.is_some(),
            ArgName::Text(TextArg::Prefix) => self.prefix.is_some(),
            ArgName::Text(TextArg::Suffix) => self.suffix.is_some(),
            ArgName::Text(TextArg::CargoPrefix) => self.cargo_prefix.is_some(),
            ArgName::Text(TextArg::CargoSuffix) => self.cargo_suffix.is_some(),
            ArgName::Text(TextArg::Fallback) => self.fallback.is_some(),
        }
    }

    /// Decides whether an option written as `name` may be given next.  A
    /// name that no option has is unexpected; an option that has a value
    /// can only appear once.
    pub fn accept(&self, name: &str) -> (result: Result<ArgName, ArgError>)
        ensures
            name_result(result) == self@.accepted(name@),
    {
        match ArgName::parse(name) {
            Some(found) => if self.is_set(found) {
                Err(ArgError::Duplicate(found))
            } else {
                Ok(found)
            },
            None => Err(ArgError::Unexpected(name.to_owned())),
        }
    }

    /// Gives the option `args` its value.
    pub fn set_git_args(&mut self, list: Vec<String>)
        ensures
            final(self)@ == (ArgsView { git_args: Some(list.deep_view()), ..old(self)@ }),
    {
        self.git_args = Some(list);
    }

    /// Gives the option `which` its value.
    pub fn set_text(&mut self, which: TextArg, text: String)
        ensures
            final(self)@ == old(self)@.with_text(which, text@),
    {
        match which {
            TextArg::Prefix => {
                self.prefix = Some(text);
            },
            TextArg::Suffix => {
                self.suffix = Some(text);
            },
            TextArg::CargoPrefix => {
                self.cargo_prefix = Some(text);
            },
            TextArg::CargoSuffix => {
                self.cargo_suffix = Some(text);
            },
            TextArg::Fallback => {
                self.fallback = Some(text);
            },
        }
    }

    /// Checks that the options can be used to describe submodules.
    pub fn check_submodules(&self) -> (result: Result<(), ArgError>)
        ensures
            unit_result(result) == self@.submodule_check(),
    {
        if self.cargo_prefix.is_some() {
            Err(ArgError::NotForSubmodules(TextArg::CargoPrefix))
        } else if self.cargo_suffix.is_some() {
            Err(ArgError::NotForSubmodules(TextArg::CargoSuffix))
        } else {
            Ok(())
        }
    }

    /// The arguments that `git describe` gets: those named, or
    /// `--always --dirty=-modified`.
    pub fn describe_args(&self) -> (list: Vec<String>)
        ensures
            list.deep_view() == self@.describe_args(),
    {
        match &self.git_args {
            Some(args) => copy_strings(args),
            None => {
                let mut list: Vec<String> = Vec::new();
                list.push("--always".to_owned());
                list.push("--dirty=-modified".to_owned());
                list
            },
        }
    }

    /// Whether the package's own version may stand in for git's.
    pub fn cargo_fallback(&self) -> (yes: bool)
        ensures
            yes == self@.cargo_fallback(),
    {
        self.cargo_prefix.is_some() || self.cargo_suffix.is_some()
    }
}

} // verus!
