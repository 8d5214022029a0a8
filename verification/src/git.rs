//! The three questions that are put to `git`, and how each answer is read.
//!
//! For every question there is a [`Command`](crate::command::Command) to
//! run and a function here that reads the [`Outcome`] of running it.

use crate::command::{Command, CommandView};
use crate::error::{ErrorKind, ErrorView};
use crate::output::{run_git, run_result, text_result, Outcome, OutcomeView};
use crate::path::{join, joined};
use crate::text::one_line;
use vstd::prelude::*;
use vstd::string::*;

verus! {

/// The value of a result that holds a list of texts.
pub open spec fn texts_result(result: Result<Vec<String>, ErrorKind>) -> Result<
    Seq<Seq<char>>,
    ErrorView,
> {
    match result {
        Ok(texts) => Ok(texts.deep_view()),
        Err(error) => Err(error@),
    }
}

/// Where the repository of `dir` keeps its metadata, given what
/// `git rev-parse --git-dir` came to: the path it printed, seen from `dir`.
pub open spec fn git_dir_result(dir: Seq<char>, outcome: OutcomeView) -> Result<
    Seq<char>,
    ErrorView,
> {
    match run_result(outcome) {
        Ok(path) => Ok(joined(dir, path)),
        Err(error) => Err(error),
    }
}

/// The pieces of `text` between its line feeds.  A text without a line feed
/// is one piece, and a text that ends in a line feed has an empty last
/// piece.
pub open spec fn split_lines(text: Seq<char>) -> Seq<Seq<char>>
    decreases text.len(),
{
    if text.len() == 0 {
        seq![Seq::empty()]
    } else {
        let before = split_lines(text.drop_last());
        if text.last() == '\n' {
            before.push(Seq::empty())
        } else {
            before.drop_last().push(before.last().push(text.last()))
        }
    }
}

/// Holds of a line that is not empty.
pub open spec fn non_empty() -> spec_fn(Seq<char>) -> bool {
    |line: Seq<char>| line.len() > 0
}

/// The lines of `text` that are not empty, in the order in which they
/// stand.
pub open spec fn non_empty_lines(text: Seq<char>) -> Seq<Seq<char>> {
    split_lines(text).filter(non_empty())
}

/// The submodule paths, given what `git submodule foreach` came to: the
/// lines it printed that are not empty, in the order in which it printed
/// them.
pub open spec fn submodules_result(outcome: OutcomeView) -> Result<Seq<Seq<char>>, ErrorView> {
    match run_result(outcome) {
        Ok(text) => Ok(non_empty_lines(text)),
        Err(error) => Err(error),
    }
}

/// The files below the metadata directory `git_dir` that change whenever
/// the described state may have changed: the log of `HEAD` and the index.
pub open spec fn dependency_paths(git_dir: Seq<char>) -> Seq<Seq<char>> {
    seq![joined(git_dir, "logs/HEAD"@), joined(git_dir, "index"@)]
}

/// The words for a command that failed with `error`.  They are those of the
/// error, and where the command is the one that locates the metadata, they
/// say first that the `.git` directory could not be determined.
pub open spec fn failure_text(command: CommandView, error: ErrorView) -> Seq<char> {
    if command.label == "git rev-parse"@ {
        "failed to determine .git directory: "@ + error.message(command.label)
    } else {
        error.message(command.label)
    }
}

/// There is always at least one piece.
pub proof fn lemma_split_lines_len(text: Seq<char>)
    ensures
        split_lines(text).len() >= 1,
    decreases text.len(),
{
    if text.len() > 0 {
        lemma_split_lines_len(text.drop_last());
    }
}

/// A text without a line feed is one line.
pub proof fn lemma_split_single_line(line: Seq<char>)
    requires
        one_line(line),
    ensures
        split_lines(line) == seq![line],
    decreases line.len(),
{
    if line.len() > 0 {
        let before = line.drop_last();
        lemma_split_single_line(before);
        assert(before.push(line.last()) =~= line);
    } else {
        assert(line =~= Seq::empty());
    }
}

/// A line feed parts a text in two, and the lines of the whole are the
/// lines of what stands before it, then the lines of what stands after it.
pub proof fn lemma_split_at_newline(head: Seq<char>, tail: Seq<char>)
    ensures
        split_lines(head.push('\n') + tail) == split_lines(head) + split_lines(tail),
    decreases tail.len(),
{
    let text = head.push('\n') + tail;
    lemma_split_lines_len(head);
    lemma_split_lines_len(tail);
    if tail.len() == 0 {
        assert(text.drop_last() =~= head);
    } else {
        let shorter = tail.drop_last();
        assert(text.drop_last() =~= head.push('\n') + shorter);
        lemma_split_at_newline(head, shorter);
        lemma_split_lines_len(shorter);
    }
}

/// The same of the lines that are not empty.
pub proof fn lemma_lines_at_newline(head: Seq<char>, tail: Seq<char>)
    ensures
        non_empty_lines(head.push('\n') + tail) == non_empty_lines(head) + non_empty_lines(tail),
{
    lemma_split_at_newline(head, tail);
    Seq::filter_distributes_over_add(split_lines(head), split_lines(tail), non_empty());
}

/// A text without a line feed is its own and only line, unless it is
/// empty.
pub proof fn lemma_lines_single_line(line: Seq<char>)
    requires
        one_line(line),
    ensures
        non_empty_lines(line) == (if line.len() > 0 {
            seq![line]
        } else {
            Seq::empty()
        }),
{
    lemma_split_single_line(line);
    reveal_with_fuel(Seq::filter, 2);
}

/// A line feed at the end of a text adds no line.
pub proof fn lemma_lines_ignore_last_newline(text: Seq<char>)
    ensures
        non_empty_lines(text.push('\n')) == non_empty_lines(text),
{
    let nothing = Seq::<char>::empty();
    lemma_lines_at_newline(text, nothing);
    lemma_lines_single_line(nothing);
}

/// No piece holds a line feed.
pub proof fn lemma_split_lines_hold_no_newline(text: Seq<char>)
    ensures
        forall|i: int|
            0 <= i < split_lines(text).len() ==> one_line(#[trigger] split_lines(text)[i]),
    decreases text.len(),
{
    if text.len() > 0 {
        let before = split_lines(text.drop_last());
        lemma_split_lines_hold_no_newline(text.drop_last());
        lemma_split_lines_len(text.drop_last());
    }
}

/// A whole line: it is not empty, and it holds no line feed.
pub open spec fn whole_line(line: Seq<char>) -> bool {
    line.len() > 0 && one_line(line)
}

/// Every line that is kept is a whole line.
pub proof fn lemma_lines_are_whole(text: Seq<char>)
    ensures
        forall|i: int|
            0 <= i < non_empty_lines(text).len() ==> whole_line(#[trigger] non_empty_lines(text)[i]),
{
    let pieces = split_lines(text);
    lemma_split_lines_hold_no_newline(text);
    assert forall|i: int| 0 <= i < non_empty_lines(text).len() implies whole_line(
        #[trigger] non_empty_lines(text)[i],
    ) by {
        let line = non_empty_lines(text)[i];
        pieces.lemma_filter_pred(non_empty(), i);
        pieces.lemma_filter_contains_rev(non_empty(), line);
    }
}

/// Reads the raw version that `git describe` printed.  The text is handed
/// on as it is.
pub fn describe(outcome: Outcome) -> (result: Result<String, ErrorKind>)
    ensures
        text_result(result) == run_result(outcome@),
{
    run_git(outcome)
}

/// Get the git directory for the given directory, from what
/// `git rev-parse --git-dir` came to.
///
/// The path that git printed is resolved against `dir`, never against the
/// directory that the process happens to work in.  Errors are handed on
/// unchanged.
pub fn git_dir(dir: &str, outcome: Outcome) -> (result: Result<String, ErrorKind>)
    ensures
        text_result(result) == git_dir_result(dir@, outcome@),
{
    match run_git(outcome) {
        Ok(path) => Ok(join(dir, path.as_str())),
        Err(error) => Err(error),
    }
}

/// Says in one line of words that `command` failed with `error`.
pub fn failure_message(command: &Command, error: &ErrorKind) -> (text: String)
    ensures
        text@ == failure_text(command@, error@),
{
    let words = error.message(command.label.as_str());
    if command.label == "git rev-parse".to_owned() {
        let mut text = "failed to determine .git directory: ".to_owned();
        text.append(words.as_str());
        text
    } else {
        words
    }
}

/// Names the files on which a version that was read from the repository
/// depends, given its metadata directory.
pub fn git_dependencies(git_dir: &str) -> (paths: Vec<String>)
    ensures
        paths.deep_view() == dependency_paths(git_dir@),
{
    let mut paths: Vec<String> = Vec::new();
    paths.push(join(git_dir, "logs/HEAD"));
    paths.push(join(git_dir, "index"));
    paths
}

/// The lines of `text` that are not empty.
pub fn lines(text: &str) -> (list: Vec<String>)
    ensures
        list.deep_view() == non_empty_lines(text@),
{
    let n: usize = text.unicode_len();
    let mut list: Vec<String> = Vec::new();
    let mut start: usize = 0;
    let mut i: usize = 0;
    proof {
        reveal(Seq::filter);
    }
    for c in it: text.chars()
        invariant
            it.seq() == text@,
            n == text@.len(),
            i == it.index(),
            start <= i <= n,
            split_lines(text@.take(i as int)).last() == text@.subrange(start as int, i as int),
            list.deep_view() == split_lines(text@.take(i as int)).drop_last().filter(non_empty()),
    {
        let ghost seen = text@.take(i as int);
        let ghost next = text@.take(i + 1);
        let ghost done = split_lines(seen).drop_last();
        proof {
            assert(next.drop_last() =~= seen);
            lemma_split_lines_len(seen);
            assert(split_lines(seen) =~= done.push(split_lines(seen).last()));
        }
        if c == '\n' {
            if start < i {
                let line = text.substring_char(start, i).to_owned();
                proof {
                    done.lemma_filter_push(line@, non_empty());
                }
                list.push(line);
            } else {
                proof {
                    done.lemma_filter_push(split_lines(seen).last(), non_empty());
                }
            }
            start = i + 1;
            proof {
                assert(split_lines(next).drop_last() =~= split_lines(seen));
            }
        } else {
            proof {
                assert(split_lines(next).drop_last() =~= done);
                assert(text@.subrange(start as int, i + 1) =~= text@.subrange(
                    start as int,
                    i as int,
                ).push(c));
            }
        }
        i = i + 1;
    }
    let ghost done = split_lines(text@).drop_last();
    proof {
        assert(text@.take(n as int) =~= text@);
        lemma_split_lines_len(text@);
        done.lemma_filter_push(split_lines(text@).last(), non_empty());
    }
    if start < n {
        list.push(text.substring_char(start, n).to_owned());
    }
    list
}

/// Reads the paths of the submodules, from what `git submodule foreach`
/// came to.
///
/// What git printed is cut at its line feeds, and the lines that are empty
/// are dropped.  The paths keep the order in which git printed them: nothing
/// is sorted.  Errors are handed on unchanged.
pub fn get_submodules(outcome: Outcome) -> (result: Result<Vec<String>, ErrorKind>)
    ensures
        texts_result(result) == submodules_result(outcome@),
{
    match run_git(outcome) {
        Ok(text) => Ok(lines(text.as_str())),
        Err(error) => Err(error),
    }
}

} // verus!
