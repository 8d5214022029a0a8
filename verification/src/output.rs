//! What a finished `git` command left behind, and how it is read.
//!
//! The caller starts the process, waits for it and hands the result over as
//! an [`Outcome`].  Nothing in this module touches the operating system.

use crate::error::{lemma_message_is_one_line, ErrorKind, ErrorView};
use crate::text::{one_line, opt_text};
use vstd::prelude::*;
use vstd::utf8::{decode_utf8, decode_utf8_encode_utf8, encode_scalar, encode_utf8, valid_utf8};

verus! {

/// The line feed byte.
pub const NEWLINE: u8 = 10;

/// How a process ended: with an exit code, by a signal, or neither known.
#[derive(Debug, Clone, Copy, PartialEq, Eq)]
pub struct ExitStatus {
    pub code: Option<i32>,
    pub signal: Option<i32>,
}

impl ExitStatus {
    /// A process succeeded when it exited with code zero.
    pub open spec fn spec_success(&self) -> bool {
        self.code == Some(0i32)
    }

    #[verifier::when_used_as_spec(spec_success)]
    pub fn success(&self) -> (yes: bool)
        ensures
            yes == self.spec_success(),
    {
        match self.code {
            Some(code) => code == 0,
            None => false,
        }
    }
}

/// The exit status of a finished process and everything it wrote.
#[derive(Debug, Clone, PartialEq, Eq)]
pub struct Output {
    pub status: ExitStatus,
    pub stdout: Vec<u8>,
    pub stderr: Vec<u8>,
}

/// The mathematical value of an [`Output`].
pub struct OutputView {
    pub status: ExitStatus,
    pub stdout: Seq<u8>,
    pub stderr: Seq<u8>,
}

impl View for Output {
    type V = OutputView;

    open spec fn view(&self) -> OutputView {
        OutputView { status: self.status, stdout: self.stdout@, stderr: self.stderr@ }
    }
}

/// What came of asking the operating system to run a command.
#[derive(Debug, Clone, PartialEq, Eq)]
pub enum Outcome {
    /// The binary was not found.
    NotFound,
    /// The process could not be started or waited for; the text says why.
    NotStarted(String),
    /// The process ran to its end.
    Exited(Output),
}

/// The mathematical value of an [`Outcome`].
pub enum OutcomeView {
    NotFound,
    NotStarted(Seq<char>),
    Exited(OutputView),
}

impl View for Outcome {
    type V = OutcomeView;

    open spec fn view(&self) -> OutcomeView {
        match *self {
            Outcome::NotFound => OutcomeView::NotFound,
            Outcome::NotStarted(why) => OutcomeView::NotStarted(why@),
            Outcome::Exited(output) => OutcomeView::Exited(output@),
        }
    }
}

/// The value of a result that holds bytes.
pub open spec fn bytes_result(result: Result<Vec<u8>, ErrorKind>) -> Result<Seq<u8>, ErrorView> {
    match result {
        Ok(bytes) => Ok(bytes@),
        Err(error) => Err(error@),
    }
}

/// The value of a result that holds text.
pub open spec fn text_result(result: Result<String, ErrorKind>) -> Result<Seq<char>, ErrorView> {
    match result {
        Ok(text) => Ok(text@),
        Err(error) => Err(error@),
    }
}

/// `bytes` without its last byte, if that byte is a line feed.
pub open spec fn stripped(bytes: Seq<u8>) -> Seq<u8> {
    if bytes.len() > 0 && bytes.last() == NEWLINE {
        bytes.drop_last()
    } else {
        bytes
    }
}

/// The bytes before the first line feed, or all of them where there is none.
pub open spec fn first_line(bytes: Seq<u8>) -> Seq<u8> {
    match bytes.index_of_first(NEWLINE) {
        Some(end) => bytes.take(end),
        None => bytes,
    }
}

/// How many line feeds `bytes` begins with: one for each empty line that
/// stands before anything else.
pub open spec fn leading_newlines(bytes: Seq<u8>) -> nat
    decreases bytes.len(),
{
    if bytes.len() > 0 && bytes[0] == NEWLINE {
        1 + leading_newlines(bytes.drop_first())
    } else {
        0
    }
}

/// The first line of `bytes` that is not empty, without its line feed.  It
/// is empty only where every line of `bytes` is.
pub open spec fn first_nonempty_line(bytes: Seq<u8>) -> Seq<u8> {
    first_line(bytes.skip(leading_newlines(bytes) as int))
}

/// The detail of a failure: the first line that is not empty of what the
/// command wrote to standard error, if that line is valid UTF-8.  There is
/// no detail where every line is empty, nor where that line is not valid
/// UTF-8.
pub open spec fn failure_detail(stderr: Seq<u8>) -> Option<Seq<char>> {
    let line = first_nonempty_line(stderr);
    if line.len() > 0 && valid_utf8(line) {
        Some(decode_utf8(line))
    } else {
        None
    }
}

/// What a finished process yields: its standard output if it succeeded, and
/// otherwise the error that its exit status calls for.
pub open spec fn collected(output: OutputView) -> Result<Seq<u8>, ErrorView> {
    if output.status.spec_success() {
        Ok(output.stdout)
    } else if let Some(code) = output.status.code {
        Err(ErrorView::ToolFailed { code: Some(code), detail: failure_detail(output.stderr) })
    } else if let Some(signal) = output.status.signal {
        Err(ErrorView::ToolKilled { signal })
    } else {
        Err(ErrorView::ToolFailed { code: None, detail: None })
    }
}

/// The text that a successful command printed: its standard output without
/// one trailing line feed, read as UTF-8.
pub open spec fn printed(stdout: Seq<u8>) -> Result<Seq<char>, ErrorView> {
    let bytes = stripped(stdout);
    if valid_utf8(bytes) {
        Ok(decode_utf8(bytes))
    } else {
        Err(ErrorView::InvalidOutput)
    }
}

/// What running a command comes to: the text it printed, or the reason why
/// there is none.
pub open spec fn run_result(outcome: OutcomeView) -> Result<Seq<char>, ErrorView> {
    match outcome {
        OutcomeView::NotFound => Err(ErrorView::ToolNotFound),
        OutcomeView::NotStarted(why) => Err(ErrorView::SpawnFailed(why)),
        OutcomeView::Exited(output) => match collected(output) {
            Ok(stdout) => printed(stdout),
            Err(error) => Err(error),
        },
    }
}

/// Stripping changes nothing where there is no trailing line feed.
pub proof fn lemma_strip_without_newline(bytes: Seq<u8>)
    requires
        bytes.len() == 0 || bytes.last() != NEWLINE,
    ensures
        stripped(bytes) == bytes,
{
}

/// Where the output ends in exactly one line feed, stripping it a second
/// time changes nothing.
pub proof fn lemma_strip_twice(bytes: Seq<u8>)
    requires
        bytes.len() > 0,
        bytes.last() == NEWLINE,
        bytes.len() == 1 || bytes[bytes.len() - 2] != NEWLINE,
    ensures
        stripped(stripped(bytes)) == stripped(bytes),
{
}

/// A line feed in a text is a line feed byte in its encoding.
proof fn lemma_newline_is_encoded(chars: Seq<char>, at: int)
    requires
        0 <= at < chars.len(),
        chars[at] == '\n',
    ensures
        encode_utf8(chars).contains(NEWLINE),
    decreases chars.len(),
{
    let first = encode_scalar(chars[0] as u32);
    let rest = encode_utf8(chars.drop_first());
    if at == 0 {
        assert((10u32 & 0x7F) as u8 == 10u8) by (bit_vector);
        assert((first + rest)[0] == NEWLINE);
    } else {
        lemma_newline_is_encoded(chars.drop_first(), at - 1);
        let k = choose|k: int| 0 <= k < rest.len() && rest[k] == NEWLINE;
        assert((first + rest)[first.len() + k] == NEWLINE);
    }
}

/// Bytes without a line feed byte are read as a text in one line.
pub proof fn lemma_decoded_one_line(bytes: Seq<u8>)
    requires
        valid_utf8(bytes),
        !bytes.contains(NEWLINE),
    ensures
        one_line(decode_utf8(bytes)),
{
    let chars = decode_utf8(bytes);
    decode_utf8_encode_utf8(bytes);
    if chars.contains('\n') {
        let at = choose|at: int| 0 <= at < chars.len() && chars[at] == '\n';
        lemma_newline_is_encoded(chars, at);
    }
}

/// Where `bytes` begins with `count` line feeds and goes on with another
/// byte or ends, `count` is the number of its leading line feeds.
pub proof fn lemma_leading_newlines(bytes: Seq<u8>, count: nat)
    requires
        count <= bytes.len(),
        forall|i: int| 0 <= i < count ==> bytes[i] == NEWLINE,
        count == bytes.len() || bytes[count as int] != NEWLINE,
    ensures
        leading_newlines(bytes) == count,
    decreases count,
{
    if count > 0 {
        lemma_leading_newlines(bytes.drop_first(), (count - 1) as nat);
    }
}

/// The first line that is not empty stands where the name says: only line
/// feeds stand before it, it holds no line feed, and a line feed or the end
/// follows it.  It is empty exactly where `bytes` holds line feeds only.
pub proof fn lemma_first_nonempty_line(bytes: Seq<u8>)
    ensures
        ({
            let start = leading_newlines(bytes) as int;
            let line = first_nonempty_line(bytes);
            &&& start + line.len() <= bytes.len()
            &&& forall|i: int| 0 <= i < start ==> bytes[i] == NEWLINE
            &&& line == bytes.subrange(start, start + line.len())
            &&& !line.contains(NEWLINE)
            &&& (start + line.len() == bytes.len() || bytes[start + line.len()] == NEWLINE)
            &&& (line.len() == 0 <==> forall|i: int| 0 <= i < bytes.len() ==> bytes[i] == NEWLINE)
        }),
    decreases bytes.len(),
{
    let start = leading_newlines(bytes) as int;
    if bytes.len() > 0 && bytes[0] == NEWLINE {
        let rest = bytes.drop_first();
        lemma_first_nonempty_line(rest);
        assert(rest.skip(leading_newlines(rest) as int) =~= bytes.skip(start));
        assert forall|i: int| 0 <= i < start implies bytes[i] == NEWLINE by {
            if i > 0 {
                assert(bytes[i] == rest[i - 1]);
            }
        }
        if forall|i: int| 0 <= i < rest.len() ==> rest[i] == NEWLINE {
            assert forall|i: int| 0 <= i < bytes.len() implies bytes[i] == NEWLINE by {
                if i > 0 {
                    assert(bytes[i] == rest[i - 1]);
                }
            }
        }
    } else {
        assert(bytes.skip(0) =~= bytes);
        bytes.index_of_first_ensures(NEWLINE);
    }
}

/// The detail of a failure is one line.
pub proof fn lemma_detail_is_one_line(stderr: Seq<u8>)
    ensures
        failure_detail(stderr) matches Some(detail) ==> one_line(detail),
{
    let line = first_nonempty_line(stderr);
    lemma_first_nonempty_line(stderr);
    if line.len() > 0 && valid_utf8(line) {
        lemma_decoded_one_line(line);
    }
}

/// Whatever a process that was started leaves behind, the words for the
/// error that is read from it stand in one line, provided that the name of
/// the command does.
pub proof fn lemma_failure_is_one_line(output: OutputView, label: Seq<char>)
    requires
        one_line(label),
    ensures
        run_result(OutcomeView::Exited(output)) matches Err(error) ==> one_line(
            error.message(label),
        ),
{
    lemma_detail_is_one_line(output.stderr);
    if let Err(error) = run_result(OutcomeView::Exited(output)) {
        lemma_message_is_one_line(error, label);
    }
}

/// Calls `String::from_utf8` of the standard library, which reads the bytes
/// as UTF-8.  What is said of it here is taken from its documentation and is
/// not proved: there is a string exactly when the bytes are valid UTF-8, and
/// it then holds the characters that they encode.
#[verifier::external_body]
fn from_utf8(bytes: Vec<u8>) -> (text: Option<String>)
    ensures
        text is Some <==> valid_utf8(bytes@),
        text matches Some(string) ==> string@ == decode_utf8(bytes@),
{
    match String::from_utf8(bytes) {
        Ok(string) => Some(string),
        Err(_) => None,
    }
}

/// Remove a trailing newline from a byte string.
///
/// Exactly one line feed is removed, and nothing else is trimmed.
pub fn strip_trailing_newline(input: Vec<u8>) -> (output: Vec<u8>)
    ensures
        output@ == stripped(input@),
{
    let mut input = input;
    let n: usize = input.len();
    if n > 0 && input[n - 1] == NEWLINE {
        input.pop();
    }
    input
}

/// Copies the first line of `bytes` that is not empty, without its line
/// feed.
fn copy_first_nonempty_line(bytes: &Vec<u8>) -> (line: Vec<u8>)
    ensures
        line@ == first_nonempty_line(bytes@),
{
    let mut start: usize = 0;
    while start < bytes.len() && bytes[start] == NEWLINE
        invariant
            start <= bytes.len(),
            forall|j: int| 0 <= j < start ==> bytes@[j] == NEWLINE,
        decreases bytes.len() - start,
    {
        start = start + 1;
    }
    let ghost rest = bytes@.skip(start as int);
    proof {
        lemma_leading_newlines(bytes@, start as nat);
    }
    let mut line: Vec<u8> = Vec::new();
    let mut i: usize = start;
    while i < bytes.len() && bytes[i] != NEWLINE
        invariant
            start <= i <= bytes.len(),
            rest == bytes@.skip(start as int),
            leading_newlines(bytes@) == start,
            line@ == rest.take(i - start),
            forall|j: int| 0 <= j < i - start ==> rest[j] != NEWLINE,
        decreases bytes.len() - i,
    {
        line.push(bytes[i]);
        i = i + 1;
    }
    proof {
        rest.index_of_first_ensures(NEWLINE);
        assert(i < bytes.len() ==> rest[i - start] == NEWLINE);
    }
    line
}

/// The detail that a failed command gave on standard error.
fn read_failure_detail(stderr: &Vec<u8>) -> (detail: Option<String>)
    ensures
        opt_text(detail) == failure_detail(stderr@),
{
    let line = copy_first_nonempty_line(stderr);
    if line.len() == 0 {
        None
    } else {
        from_utf8(line)
    }
}

/// Check if a command ran successfully, and if not, return the error that
/// its exit status calls for.
///
/// A command that exited with code zero yields its standard output as it
/// is.  An exit code other than zero yields [`ErrorKind::ToolFailed`] with
/// that code and, as its detail, the first line of standard error that is
/// not empty; the detail is left out where there is no such line or where
/// the line is not valid UTF-8.  A signal yields [`ErrorKind::ToolKilled`];
/// a status that holds neither yields [`ErrorKind::ToolFailed`] without a
/// code.
pub fn collect_output(output: Output) -> (result: Result<Vec<u8>, ErrorKind>)
    ensures
        bytes_result(result) == collected(output@),
{
    if output.status.success() {
        Ok(output.stdout)
    } else if let Some(code) = output.status.code {
        let detail = read_failure_detail(&output.stderr);
        Err(ErrorKind::ToolFailed { code: Some(code), detail })
    } else if let Some(signal) = output.status.signal {
        Err(ErrorKind::ToolKilled { signal })
    } else {
        Err(ErrorKind::ToolFailed { code: None, detail: None })
    }
}

/// Reads what came of running a `git` command.
///
/// A binary that was not found gives [`ErrorKind::ToolNotFound`], a process
/// that did not start [`ErrorKind::SpawnFailed`].  A finished process is
/// judged by [`collect_output`]; where it succeeded, one trailing line feed
/// is taken off its standard output and the rest is read as UTF-8, which
/// gives the text or [`ErrorKind::InvalidOutput`].
pub fn run_git(outcome: Outcome) -> (result: Result<String, ErrorKind>)
    ensures
        text_result(result) == run_result(outcome@),
{
    match outcome {
        Outcome::NotFound => Err(ErrorKind::ToolNotFound),
        Outcome::NotStarted(why) => Err(ErrorKind::SpawnFailed(why)),
        Outcome::Exited(output) => match collect_output(output) {
            Ok(stdout) => match from_utf8(strip_trailing_newline(stdout)) {
                Some(text) => Ok(text),
                None => Err(ErrorKind::InvalidOutput),
            },
            Err(error) => Err(error),
        },
    }
}

} // verus!
