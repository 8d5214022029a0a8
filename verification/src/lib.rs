//! Version strings derived from the state of a git repository.
//!
//! The library never starts a process itself.  It says which `git` command
//! to run, and it turns what the command left behind into a version string
//! or into a table of submodule versions.  Its caller runs the commands.
//!
//! For the version of one repository, run
//! [`version_command`](version::version_command) and hand the
//! [`Outcome`](output::Outcome) to
//! [`resolve_version`](version::resolve_version).  For the versions of its
//! submodules, begin with [`Resolver::start`](submodules::Resolver::start)
//! and go on with [`Resolver::advance`](submodules::Resolver::advance) until
//! it is done.
//!
//! Every function states what it returns over the mathematical value of its
//! arguments: texts are sequences of characters, lists are sequences.

pub mod args;
pub mod command;
pub mod decimal;
pub mod error;
pub mod git;
pub mod output;
pub mod path;
pub mod submodules;
pub mod text;
pub mod version;
