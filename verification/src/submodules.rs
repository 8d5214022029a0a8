//! The versions of the submodules of a repository.
//!
//! Finding them takes several `git` commands, and which one comes next
//! depends on what the last one printed.  A [`Resolver`] makes those
//! decisions; its caller runs each [`Command`] and hands back the
//! [`Outcome`]:
//!
//! 1. [`Resolver::start`] names the first command.
//! 2. [`Resolver::advance`] takes what came of it, and either names the
//!    next command or gives the final result.

use crate::args::{Args, ArgsView};
use crate::command::{Command, CommandView};
use crate::error::{ErrorKind, ErrorView};
use crate::git::{get_submodules, git_dir, git_dir_result, submodules_result};
use crate::output::{run_result, Outcome, OutcomeView};
use crate::path::{join, joined};
use crate::version::{resolve_version, resolved_version};
use vstd::prelude::*;
use vstd::string::*;

verus! {

/// The version of one submodule.
#[derive(Debug, Clone, PartialEq, Eq)]
pub struct VersionEntry {
    /// The path of the submodule, as git printed it.
    pub path: String,
    /// Its version, dressed as the options say.
    pub version: String,
}

/// The mathematical value of a [`VersionEntry`].
pub struct EntryView {
    pub path: Seq<char>,
    pub version: Seq<char>,
}

impl View for VersionEntry {
    type V = EntryView;

    open spec fn view(&self) -> EntryView {
        EntryView { path: self.path@, version: self.version@ }
    }
}

/// The value of a result that holds entries.
pub open spec fn entries_result(result: Result<Vec<VersionEntry>, ErrorKind>) -> Result<
    Seq<EntryView>,
    ErrorView,
> {
    match result {
        Ok(entries) => Ok(entries.deep_view()),
        Err(error) => Err(error@),
    }
}

impl DeepView for VersionEntry {
    type V = EntryView;

    open spec fn deep_view(&self) -> EntryView {
        self@
    }
}

/// Which answer a [`Resolver`] is waiting for.
#[derive(Debug, Clone, Copy, PartialEq, Eq)]
pub enum Phase {
    /// Where the repository keeps its metadata.
    Locating,
    /// The paths of the submodules.
    Enumerating,
    /// The version of the next submodule.
    Describing,
}

/// The mathematical value of a [`Resolver`].
pub struct ResolverView {
    pub phase: Phase,
    /// The directory that was asked about.
    pub root_dir: Seq<char>,
    pub args: ArgsView,
    /// One level above the metadata directory; known once that is located.
    pub work_tree: Seq<char>,
    /// The submodule paths; known once they are enumerated.
    pub paths: Seq<Seq<char>>,
    /// The entries made so far, one for each of the first paths.
    pub entries: Seq<EntryView>,
}

/// The mathematical value of a [`Step`].
pub enum StepView {
    Run(ResolverView, CommandView),
    Done(Result<Seq<EntryView>, ErrorView>),
}

impl ResolverView {
    /// The state before anything was run.
    pub open spec fn start(root_dir: Seq<char>, args: ArgsView) -> ResolverView {
        ResolverView {
            phase: Phase::Locating,
            root_dir,
            args,
            work_tree: Seq::empty(),
            paths: Seq::empty(),
            entries: Seq::empty(),
        }
    }

    /// The command that describes the submodule at index `index`: it runs in
    /// the submodule's directory, which is its path seen from the working
    /// tree.
    pub open spec fn describe_command(self, index: int) -> CommandView {
        CommandView::describe(joined(self.work_tree, self.paths[index]), self.args.describe_args())
    }

    /// What follows when the command that was run last came to `outcome`.
    ///
    /// Locating or enumerating that fails ends the run with that error,
    /// whatever the fallback.  No submodule at all ends it with an empty
    /// table.  A submodule whose version cannot be had and for which no
    /// fallback stands in ends it with that error, and the entries made so
    /// far are dropped.
    pub open spec fn advance(self, outcome: OutcomeView) -> StepView {
        match self.phase {
            Phase::Locating => match git_dir_result(self.root_dir, outcome) {
                Ok(dir) => StepView::Run(
                    ResolverView { phase: Phase::Enumerating, work_tree: joined(dir, ".."@), ..self },
                    CommandView::submodules(self.root_dir),
                ),
                Err(error) => StepView::Done(Err(error)),
            },
            Phase::Enumerating => match submodules_result(outcome) {
                Ok(paths) => if paths.len() == 0 {
                    StepView::Done(Ok(Seq::empty()))
                } else {
                    let next = ResolverView {
                        phase: Phase::Describing,
                        paths,
                        entries: Seq::empty(),
                        ..self
                    };
                    StepView::Run(next, next.describe_command(0))
                },
                Err(error) => StepView::Done(Err(error)),
            },
            Phase::Describing => match resolved_version(self.args, outcome) {
                Ok(version) => {
                    let entry = EntryView { path: self.paths[self.entries.len() as int], version };
                    let next = ResolverView { entries: self.entries.push(entry), ..self };
                    if next.entries.len() >= next.paths.len() {
                        StepView::Done(Ok(next.entries))
                    } else {
                        StepView::Run(next, next.describe_command(next.entries.len() as int))
                    }
                },
                Err(error) => StepView::Done(Err(error)),
            },
        }
    }

    /// The result of a run that goes on from this state and in which the
    /// commands come to `outcomes`, one after the other; nothing where the
    /// run is not over when these are used up.
    pub open spec fn run(self, outcomes: Seq<OutcomeView>) -> Option<
        Result<Seq<EntryView>, ErrorView>,
    >
        decreases outcomes.len(),
    {
        if outcomes.len() == 0 {
            None
        } else {
            match self.advance(outcomes[0]) {
                StepView::Run(next, _) => next.run(outcomes.drop_first()),
                StepView::Done(result) => Some(result),
            }
        }
    }

    /// The commands that a run asks for as it goes on from this state, in
    /// the order in which it asks for them.
    pub open spec fn asks(self, outcomes: Seq<OutcomeView>) -> Seq<CommandView>
        decreases outcomes.len(),
    {
        if outcomes.len() == 0 {
            Seq::empty()
        } else {
            match self.advance(outcomes[0]) {
                StepView::Run(next, command) => seq![command] + next.asks(outcomes.drop_first()),
                StepView::Done(_) => Seq::empty(),
            }
        }
    }
}

/// Decides, answer by answer, how the versions of the submodules of a
/// repository are found.
pub struct Resolver {
    phase: Phase,
    root_dir: String,
    args: Args,
    work_tree: String,
    paths: Vec<String>,
    entries: Vec<VersionEntry>,
}

/// What a [`Resolver`] asks for next.
pub enum Step {
    /// Run the command and hand what came of it to the resolver.
    Run(Resolver, Command),
    /// The run is over: the table, one entry for each submodule in the order
    /// in which git named them, or the error that ended it.
    Done(Result<Vec<VersionEntry>, ErrorKind>),
}

impl View for Resolver {
    type V = ResolverView;

    closed spec fn view(&self) -> ResolverView {
        ResolverView {
            phase: self.phase,
            root_dir: self.root_dir@,
            args: self.args@,
            work_tree: self.work_tree@,
            paths: self.paths.deep_view(),
            entries: self.entries.deep_view(),
        }
    }
}

impl View for Step {
    type V = StepView;

    open spec fn view(&self) -> StepView {
        match *self {
            Step::Run(resolver, command) => StepView::Run(resolver@, command@),
            Step::Done(result) => StepView::Done(entries_result(result)),
        }
    }
}

impl Resolver {
    /// While submodules are described, one of them is still open.
    #[verifier::type_invariant]
    spec fn well_formed(self) -> bool {
        self.phase == Phase::Describing ==> self.entries.len() < self.paths.len()
    }

    /// Begins a run for the repository at `root_dir`: the first thing to
    /// find out is where it keeps its metadata.
    pub fn start(root_dir: &str, args: Args) -> (begun: (Resolver, Command))
        ensures
            begun.0@ == ResolverView::start(root_dir@, args@),
            begun.1@ == CommandView::git_dir(root_dir@),
    {
        let resolver = Resolver {
            phase: Phase::Locating,
            root_dir: root_dir.to_owned(),
            args,
            work_tree: String::new(),
            paths: Vec::new(),
            entries: Vec::new(),
        };
        assert(resolver.paths.deep_view() =~= Seq::<Seq<char>>::empty());
        assert(resolver.entries.deep_view() =~= Seq::<EntryView>::empty());
        (resolver, Command::git_dir(root_dir))
    }

    /// The command that describes the submodule at `index`.
    fn describe_at(&self, index: usize) -> (command: Command)
        requires
            index < self.paths.len(),
        ensures
            command@ == self@.describe_command(index as int),
    {
        let dir = join(self.work_tree.as_str(), self.paths[index].as_str());
        let list = self.args.describe_args();
        Command::describe(dir.as_str(), &list)
    }

    /// Takes what came of the command that was asked for last, and says
    /// what follows: see [`ResolverView::advance`].
    pub fn advance(self, outcome: Outcome) -> (step: Step)
        ensures
            step@ == self@.advance(outcome@),
    {
        proof {
            use_type_invariant(&self);
        }
        match self.phase {
            Phase::Locating => match git_dir(self.root_dir.as_str(), outcome) {
                Ok(dir) => {
                    let command = Command::submodules(self.root_dir.as_str());
                    let next = Resolver {
                        phase: Phase::Enumerating,
                        root_dir: self.root_dir,
                        args: self.args,
                        work_tree: join(dir.as_str(), ".."),
                        paths: self.paths,
                        entries: self.entries,
                    };
                    Step::Run(next, command)
                },
                Err(error) => Step::Done(Err(error)),
            },
            Phase::Enumerating => match get_submodules(outcome) {
                Ok(paths) => if paths.len() == 0 {
                    let none: Vec<VersionEntry> = Vec::new();
                    assert(none.deep_view() =~= Seq::<EntryView>::empty());
                    Step::Done(Ok(none))
                } else {
                    let next = Resolver {
                        phase: Phase::Describing,
                        root_dir: self.root_dir,
                        args: self.args,
                        work_tree: self.work_tree,
                        paths,
                        entries: Vec::new(),
                    };
                    assert(next.entries.deep_view() =~= Seq::<EntryView>::empty());
                    let command = next.describe_at(0);
                    Step::Run(next, command)
                },
                Err(error) => Step::Done(Err(error)),
            },
            Phase::Describing => match resolve_version(&self.args, outcome) {
                Ok(version) => {
                    let ghost before = self.entries.deep_view();
                    let mut entries = self.entries;
                    let entry = VersionEntry { path: self.paths[entries.len()].clone(), version };
                    let ghost added = entry@;
                    entries.push(entry);
                    assert(entries.deep_view() =~= before.push(added));
                    if entries.len() >= self.paths.len() {
                        Step::Done(Ok(entries))
                    } else {
                        let index = entries.len();
                        let next = Resolver {
                            phase: Phase::Describing,
                            root_dir: self.root_dir,
                            args: self.args,
                            work_tree: self.work_tree,
                            paths: self.paths,
                            entries,
                        };
                        let command = next.describe_at(index);
                        Step::Run(next, command)
                    }
                },
                Err(error) => Step::Done(Err(error)),
            },
        }
    }
}

/// Holds where `entries` are made for the first `count` of `paths`: there
/// are `count` entries, and the entry at each index names the path at that
/// index.
pub open spec fn names_paths(entries: Seq<EntryView>, paths: Seq<Seq<char>>, count: nat) -> bool {
    &&& entries.len() == count
    &&& forall|i: int| 0 <= i < count ==> (#[trigger] entries[i]).path == paths[i]
}

/// The table for the first `count` of `paths`, where describing the
/// submodule at each index came to the outcome at that index.  The first
/// submodule that has no version, not even the fallback, leaves its error in
/// place of the table.
pub open spec fn table(
    args: ArgsView,
    paths: Seq<Seq<char>>,
    described: Seq<OutcomeView>,
    count: nat,
) -> Result<Seq<EntryView>, ErrorView>
    decreases count,
{
    if count == 0 {
        Ok(Seq::empty())
    } else {
        match table(args, paths, described, (count - 1) as nat) {
            Ok(before) => match resolved_version(args, described[count - 1]) {
                Ok(version) => Ok(before.push(EntryView { path: paths[count - 1], version })),
                Err(error) => Err(error),
            },
            Err(error) => Err(error),
        }
    }
}

/// Whether `described` holds an outcome for every submodule that a run asks
/// about: one for each of `paths`, or those up to the first submodule that
/// ends the run.
pub open spec fn describes_all(
    args: ArgsView,
    paths: Seq<Seq<char>>,
    described: Seq<OutcomeView>,
) -> bool {
    described.len() >= paths.len() || table(args, paths, described, described.len()) is Err
}

/// The versions of the submodules of the repository at `root_dir`, where
/// locating its metadata came to `located`, listing its submodules to
/// `enumerated`, and describing the submodule at each index to the outcome
/// at that index of `described`.
///
/// A failure to locate or to list is the result, whatever the fallback.
pub open spec fn resolved_submodule_versions(
    root_dir: Seq<char>,
    args: ArgsView,
    located: OutcomeView,
    enumerated: OutcomeView,
    described: Seq<OutcomeView>,
) -> Result<Seq<EntryView>, ErrorView> {
    match git_dir_result(root_dir, located) {
        Ok(_) => match submodules_result(enumerated) {
            Ok(paths) => table(args, paths, described, paths.len()),
            Err(error) => Err(error),
        },
        Err(error) => Err(error),
    }
}

/// The commands of a run that describes every one of `paths`, for a
/// repository whose metadata directory is `git_dir`: one to locate the
/// metadata, one to list the submodules, and then one for each submodule, in
/// the order of the paths.
pub open spec fn commands(
    root_dir: Seq<char>,
    args: ArgsView,
    git_dir: Seq<char>,
    paths: Seq<Seq<char>>,
) -> Seq<CommandView> {
    seq![CommandView::git_dir(root_dir), CommandView::submodules(root_dir)] + Seq::new(
        paths.len(),
        |i: int| CommandView::describe(joined(joined(git_dir, ".."@), paths[i]), args.describe_args()),
    )
}

/// How many of the submodules from index `from` on get a version, one after
/// the other, before the outcomes or the paths run out or one of them has
/// none.
pub open spec fn versions_had(
    args: ArgsView,
    paths: Seq<Seq<char>>,
    described: Seq<OutcomeView>,
    from: nat,
) -> nat
    decreases described.len() - from,
{
    if from < described.len() && from < paths.len() && resolved_version(
        args,
        described[from as int],
    ) is Ok {
        1 + versions_had(args, paths, described, from + 1)
    } else {
        0
    }
}

/// How many submodules a run asks about: the first, if there is one, and
/// then the next for each one that has a version.
pub open spec fn describes_asked(
    args: ArgsView,
    paths: Seq<Seq<char>>,
    described: Seq<OutcomeView>,
) -> nat {
    let had = versions_had(args, paths, described, 0);
    if had + 1 <= paths.len() {
        had + 1
    } else {
        paths.len()
    }
}

/// The options and the directory of a run stay as they were given.
pub proof fn lemma_options_stay(state: ResolverView, outcome: OutcomeView)
    ensures
        state.advance(outcome) matches StepView::Run(next, _) ==> next.args == state.args
            && next.root_dir == state.root_dir,
{
}

/// A table holds one entry for each path it was made for, and the entry at
/// each index names the path at that index.
pub proof fn lemma_table_keeps_paths(
    args: ArgsView,
    paths: Seq<Seq<char>>,
    described: Seq<OutcomeView>,
    count: nat,
)
    ensures
        table(args, paths, described, count) matches Ok(entries) ==> names_paths(
            entries,
            paths,
            count,
        ),
    decreases count,
{
    if count > 0 {
        lemma_table_keeps_paths(args, paths, described, (count - 1) as nat);
    }
}

/// An error that ended a shorter table ends every longer one.
pub proof fn lemma_table_error_stays(
    args: ArgsView,
    paths: Seq<Seq<char>>,
    described: Seq<OutcomeView>,
    short: nat,
    long: nat,
)
    requires
        short <= long,
        table(args, paths, described, short) is Err,
    ensures
        table(args, paths, described, long) == table(args, paths, described, short),
    decreases long,
{
    if short < long {
        lemma_table_error_stays(args, paths, described, short, (long - 1) as nat);
    }
}

/// Going on from a state in which the first submodules are described ends
/// with the table for all of them, and it does end where there is an
/// outcome for each submodule that is asked about.
proof fn lemma_run_describing(state: ResolverView, described: Seq<OutcomeView>)
    requires
        state.phase == Phase::Describing,
        state.entries.len() < state.paths.len(),
        state.entries.len() <= described.len(),
        table(state.args, state.paths, described, state.entries.len()) == Ok::<
            Seq<EntryView>,
            ErrorView,
        >(state.entries),
    ensures
        state.run(described.skip(state.entries.len() as int)) matches Some(result) ==> result
            == table(state.args, state.paths, described, state.paths.len()),
        describes_all(state.args, state.paths, described) ==> state.run(
            described.skip(state.entries.len() as int),
        ) is Some,
    decreases described.len() - state.entries.len(),
{
    let done = state.entries.len();
    let rest = described.skip(done as int);
    if done < described.len() {
        assert(rest.drop_first() =~= described.skip(done as int + 1));
        match state.advance(rest[0]) {
            StepView::Run(next, _) => {
                lemma_run_describing(next, described);
            },
            StepView::Done(Err(_)) => {
                lemma_table_error_stays(
                    state.args,
                    state.paths,
                    described,
                    (done + 1) as nat,
                    state.paths.len(),
                );
            },
            StepView::Done(Ok(_)) => {},
        }
    }
}

/// A run that ends, ends with [`resolved_submodule_versions`]; and a run
/// that is given an outcome for every command it asks for does end.  Once a
/// submodule has ended the run, no outcome is asked for the others.
pub proof fn lemma_run_resolves(
    root_dir: Seq<char>,
    args: ArgsView,
    located: OutcomeView,
    enumerated: OutcomeView,
    described: Seq<OutcomeView>,
)
    ensures
        ResolverView::start(root_dir, args).run(seq![located, enumerated] + described) matches Some(
            result,
        ) ==> result == resolved_submodule_versions(
            root_dir,
            args,
            located,
            enumerated,
            described,
        ),
        (submodules_result(enumerated) matches Ok(paths) ==> describes_all(args, paths, described))
            ==> ResolverView::start(root_dir, args).run(seq![located, enumerated] + described)
            is Some,
{
    let start = ResolverView::start(root_dir, args);
    let outcomes = seq![located, enumerated] + described;
    let after = outcomes.drop_first();
    assert(after.drop_first() =~= described);
    assert(described.skip(0) =~= described);
    reveal_with_fuel(ResolverView::run, 3);
    if let StepView::Run(found, _) = start.advance(located) {
        if let StepView::Run(listed, _) = found.advance(enumerated) {
            lemma_run_describing(listed, described);
        }
    }
}

/// Going on from a state in which the first submodules are described, a
/// run asks about the next submodule each time it gets a version, until none
/// is left.
proof fn lemma_asks_describing(state: ResolverView, described: Seq<OutcomeView>)
    requires
        state.phase == Phase::Describing,
        state.entries.len() < state.paths.len(),
        state.entries.len() <= described.len(),
    ensures
        ({
            let done = state.entries.len();
            let had = versions_had(state.args, state.paths, described, done);
            let left = state.paths.len() - done - 1;
            state.asks(described.skip(done as int)) == Seq::new(
                (if had <= left {
                    had as int
                } else {
                    left
                }) as nat,
                |i: int| state.describe_command(done + 1 + i),
            )
        }),
    decreases described.len() - state.entries.len(),
{
    let done = state.entries.len();
    let rest = described.skip(done as int);
    if done < described.len() {
        assert(rest.drop_first() =~= described.skip(done as int + 1));
        if let StepView::Run(next, _) = state.advance(rest[0]) {
            lemma_asks_describing(next, described);
            let had = versions_had(state.args, state.paths, described, done);
            let left = state.paths.len() - done - 1;
            let count = if had <= left {
                had as int
            } else {
                left
            };
            assert(state.asks(rest) =~= Seq::new(
                count as nat,
                |i: int| state.describe_command(done + 1 + i),
            ));
        }
    }
}

/// Whatever the commands come to, a run asks for the first of [`commands`]
/// and for no other: it locates the metadata, then lists the submodules,
/// then asks about the submodules one after the other, in the order in which
/// git named them, and goes on to the next only when the last one has a
/// version.
pub proof fn lemma_commands_asked(
    root_dir: Seq<char>,
    args: ArgsView,
    located: OutcomeView,
    enumerated: OutcomeView,
    described: Seq<OutcomeView>,
)
    ensures
        git_dir_result(root_dir, located) is Err ==> ResolverView::start(root_dir, args).asks(
            seq![located, enumerated] + described,
        ) == Seq::<CommandView>::empty(),
        git_dir_result(root_dir, located) is Ok && submodules_result(enumerated) is Err
            ==> ResolverView::start(root_dir, args).asks(seq![located, enumerated] + described)
            == seq![CommandView::submodules(root_dir)],
        git_dir_result(root_dir, located) is Ok && submodules_result(enumerated) is Ok ==> seq![
            CommandView::git_dir(root_dir),
        ] + ResolverView::start(root_dir, args).asks(seq![located, enumerated] + described)
            == commands(
            root_dir,
            args,
            git_dir_result(root_dir, located)->Ok_0,
            submodules_result(enumerated)->Ok_0,
        ).take(
            2 + describes_asked(args, submodules_result(enumerated)->Ok_0, described) as int,
        ),
{
    let start = ResolverView::start(root_dir, args);
    let outcomes = seq![located, enumerated] + described;
    let after = outcomes.drop_first();
    assert(after.drop_first() =~= described);
    assert(described.skip(0) =~= described);
    reveal_with_fuel(ResolverView::asks, 3);
    if let StepView::Run(found, _) = start.advance(located) {
        if let StepView::Run(listed, _) = found.advance(enumerated) {
            lemma_asks_describing(listed, described);
        }
    }
}

/// Where every submodule has a version, each of them is asked about.
pub proof fn lemma_all_asked(args: ArgsView, paths: Seq<Seq<char>>, described: Seq<OutcomeView>)
    requires
        described.len() >= paths.len(),
        table(args, paths, described, paths.len()) is Ok,
    ensures
        describes_asked(args, paths, described) == paths.len(),
{
    lemma_versions_of_a_table(args, paths, described, 0);
}

/// Where there is a table for all the paths, every submodule from `from` on
/// has a version.
proof fn lemma_versions_of_a_table(
    args: ArgsView,
    paths: Seq<Seq<char>>,
    described: Seq<OutcomeView>,
    from: nat,
)
    requires
        from <= paths.len() <= described.len(),
        table(args, paths, described, paths.len()) is Ok,
    ensures
        versions_had(args, paths, described, from) == paths.len() - from,
    decreases paths.len() - from,
{
    if from < paths.len() {
        if resolved_version(args, described[from as int]) is Err {
            lemma_table_error_stays(args, paths, described, from + 1, paths.len());
        }
        lemma_versions_of_a_table(args, paths, described, from + 1);
    }
}

/// Where the metadata cannot be located or the submodules cannot be listed,
/// that error is the result, whatever the fallback.
pub proof fn lemma_fatal_before_describing(
    root_dir: Seq<char>,
    args: ArgsView,
    located: OutcomeView,
    enumerated: OutcomeView,
    described: Seq<OutcomeView>,
)
    ensures
        git_dir_result(root_dir, located) matches Err(error) ==> resolved_submodule_versions(
            root_dir,
            args,
            located,
            enumerated,
            described,
        ) == Err::<Seq<EntryView>, ErrorView>(error),
        git_dir_result(root_dir, located) is Ok ==> (submodules_result(enumerated) matches Err(
            error,
        ) ==> resolved_submodule_versions(root_dir, args, located, enumerated, described) == Err::<
            Seq<EntryView>,
            ErrorView,
        >(error)),
{
}

/// A repository without submodules has an empty table, which is no error,
/// and the run ends with it once the submodules are listed.
pub proof fn lemma_no_submodules(
    root_dir: Seq<char>,
    args: ArgsView,
    located: OutcomeView,
    enumerated: OutcomeView,
    described: Seq<OutcomeView>,
)
    requires
        git_dir_result(root_dir, located) is Ok,
        submodules_result(enumerated) == Ok::<Seq<Seq<char>>, ErrorView>(Seq::empty()),
    ensures
        resolved_submodule_versions(root_dir, args, located, enumerated, described) == Ok::<
            Seq<EntryView>,
            ErrorView,
        >(Seq::empty()),
        ResolverView::start(root_dir, args).run(seq![located, enumerated] + described) == Some(
            Ok::<Seq<EntryView>, ErrorView>(Seq::empty()),
        ),
{
    lemma_run_resolves(root_dir, args, located, enumerated, described);
}

/// The table names the submodules in the order in which git printed them,
/// each of them once: nothing is sorted, dropped or added.  This holds of
/// the table of every run that ends with one.
pub proof fn lemma_order_preserved(
    root_dir: Seq<char>,
    args: ArgsView,
    located: OutcomeView,
    enumerated: OutcomeView,
    described: Seq<OutcomeView>,
)
    ensures
        resolved_submodule_versions(root_dir, args, located, enumerated, described) matches Ok(
            entries,
        ) ==> (submodules_result(enumerated) matches Ok(paths) && names_paths(
            entries,
            paths,
            paths.len(),
        )),
        ResolverView::start(root_dir, args).run(seq![located, enumerated] + described) matches Some(
            Ok(entries),
        ) ==> (submodules_result(enumerated) matches Ok(paths) && names_paths(
            entries,
            paths,
            paths.len(),
        )),
{
    if let Ok(paths) = submodules_result(enumerated) {
        lemma_table_keeps_paths(args, paths, described, paths.len());
    }
    lemma_run_resolves(root_dir, args, located, enumerated, described);
}

/// Without a fallback, a submodule that cannot be described ends the run
/// with an error, and nothing is left of the entries made before.  The error
/// is that of the first such submodule, and the run ends with it as soon as
/// it has the outcome for that submodule.
pub proof fn lemma_abort_on_error(
    root_dir: Seq<char>,
    args: ArgsView,
    located: OutcomeView,
    enumerated: OutcomeView,
    described: Seq<OutcomeView>,
    failing: int,
)
    requires
        args.fallback is None,
        git_dir_result(root_dir, located) is Ok,
        submodules_result(enumerated) matches Ok(paths) && 0 <= failing < paths.len(),
        run_result(described[failing]) is Err,
    ensures
        resolved_submodule_versions(root_dir, args, located, enumerated, described) is Err,
        (forall|i: int| 0 <= i < failing ==> run_result(#[trigger] described[i]) is Ok)
            ==> resolved_submodule_versions(root_dir, args, located, enumerated, described)
            == Err::<Seq<EntryView>, ErrorView>(run_result(described[failing])->Err_0),
        failing < described.len() ==> ResolverView::start(root_dir, args).run(
            seq![located, enumerated] + described,
        ) == Some(resolved_submodule_versions(root_dir, args, located, enumerated, described)),
{
    let paths = submodules_result(enumerated)->Ok_0;
    lemma_table_error_stays(args, paths, described, (failing + 1) as nat, paths.len());
    if forall|i: int| 0 <= i < failing ==> run_result(#[trigger] described[i]) is Ok {
        lemma_table_all_described(args, paths, described, failing as nat);
    }
    if failing < described.len() {
        if described.len() < paths.len() {
            lemma_table_error_stays(args, paths, described, (failing + 1) as nat, described.len());
        }
        lemma_run_resolves(root_dir, args, located, enumerated, described);
    }
}

/// Where each of the first `count` submodules is described, there is a
/// table for them.
proof fn lemma_table_all_described(
    args: ArgsView,
    paths: Seq<Seq<char>>,
    described: Seq<OutcomeView>,
    count: nat,
)
    requires
        forall|i: int| 0 <= i < count ==> run_result(#[trigger] described[i]) is Ok,
    ensures
        table(args, paths, described, count) is Ok,
    decreases count,
{
    if count > 0 {
        lemma_table_all_described(args, paths, described, (count - 1) as nat);
    }
}

} // verus!
