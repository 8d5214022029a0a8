//! The `git` commands that the library asks its caller to run.

use vstd::prelude::*;
use vstd::string::*;

verus! {

/// One invocation of `git`: the binary, the name under which errors speak of
/// the command, and the arguments in order.
#[derive(Debug, Clone, PartialEq, Eq)]
pub struct Command {
    pub program: String,
    pub label: String,
    pub args: Vec<String>,
}

/// The mathematical value of a [`Command`].
pub struct CommandView {
    pub program: Seq<char>,
    pub label: Seq<char>,
    pub args: Seq<Seq<char>>,
}

impl View for Command {
    type V = CommandView;

    open spec fn view(&self) -> CommandView {
        CommandView {
            program: self.program@,
            label: self.label@,
            args: self.args.deep_view(),
        }
    }
}

impl CommandView {
    /// `git -C <dir> describe <args..>`: the arguments follow as they are,
    /// in order.
    pub open spec fn describe(dir: Seq<char>, args: Seq<Seq<char>>) -> CommandView {
        CommandView {
            program: "git"@,
            label: "git describe"@,
            args: seq!["-C"@, dir, "describe"@] + args,
        }
    }

    /// `git -C <dir> rev-parse --git-dir`.
    pub open spec fn git_dir(dir: Seq<char>) -> CommandView {
        CommandView {
            program: "git"@,
            label: "git rev-parse"@,
            args: seq!["-C"@, dir, "rev-parse"@, "--git-dir"@],
        }
    }

    /// `git -C <dir> submodule foreach --quiet --recursive 'echo $displaypath'`.
    pub open spec fn submodules(dir: Seq<char>) -> CommandView {
        CommandView {
            program: "git"@,
            label: "git submodule"@,
            args: seq![
                "-C"@,
                dir,
                "submodule"@,
                "foreach"@,
                "--quiet"@,
                "--recursive"@,
                "echo $displaypath"@,
            ],
        }
    }
}

impl Command {
    /// The command that describes the repository at `dir`, with `args`
    /// handed to `git describe` as they are.
    pub fn describe(dir: &str, args: &Vec<String>) -> (command: Command)
        ensures
            command@ == CommandView::describe(dir@, args.deep_view()),
    {
        let mut list: Vec<String> = Vec::new();
        list.push("-C".to_owned());
        list.push(dir.to_owned());
        list.push("describe".to_owned());
        let mut i: usize = 0;
        while i < args.len()
            invariant
                i <= args.len(),
                list.len() == 3 + i,
                list@[0]@ == "-C"@,
                list@[1]@ == dir@,
                list@[2]@ == "describe"@,
                forall|j: int| 0 <= j < i ==> list@[3 + j]@ == args@[j]@,
            decreases args.len() - i,
        {
            list.push(args[i].clone());
            i = i + 1;
        }
        assert(list.deep_view() =~= seq!["-C"@, dir@, "describe"@] + args.deep_view());
        Command { program: "git".to_owned(), label: "git describe".to_owned(), args: list }
    }

    /// The command that asks where the repository of `dir` keeps its
    /// metadata.
    pub fn git_dir(dir: &str) -> (command: Command)
        ensures
            command@ == CommandView::git_dir(dir@),
    {
        let mut list: Vec<String> = Vec::new();
        list.push("-C".to_owned());
        list.push(dir.to_owned());
        list.push("rev-parse".to_owned());
        list.push("--git-dir".to_owned());
        assert(list.deep_view() =~= seq!["-C"@, dir@, "rev-parse"@, "--git-dir"@]);
        Command { program: "git".to_owned(), label: "git rev-parse".to_owned(), args: list }
    }

    /// The command that prints the path of every submodule below `dir`,
    /// nested ones included, one to a line.
    pub fn submodules(dir: &str) -> (command: Command)
        ensures
            command@ == CommandView::submodules(dir@),
    {
        let mut list: Vec<String> = Vec::new();
        list.push("-C".to_owned());
        list.push(dir.to_owned());
        list.push("submodule".to_owned());
        list.push("foreach".to_owned());
        list.push("--quiet".to_owned());
        list.push("--recursive".to_owned());
        list.push("echo $displaypath".to_owned());
        assert(list.deep_view() =~= seq![
            "-C"@,
            dir@,
            "submodule"@,
            "foreach"@,
            "--quiet"@,
            "--recursive"@,
            "echo $displaypath"@,
        ]);
        Command { program: "git".to_owned(), label: "git submodule".to_owned(), args: list }
    }
}

} // verus!
