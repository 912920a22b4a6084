//! What the library asks the outside world to run, and what it is told came of it.
//!
//! The library never starts a process. It hands out a [`Command`]; whoever runs
//! it hands back an [`Outcome`].

use vstd::prelude::*;

verus! {

/// One invocation of a command-line tool.
#[derive(Clone, Debug, PartialEq, Eq)]
pub struct Command {
    /// The executable's name, looked up on the search path.
    pub program: String,
    /// Its arguments, in order.
    pub args: Vec<String>,
    /// Whether the caller waits for the process to end and collects its output.
    /// When `false` the process is only started.
    pub wait: bool,
}

/// A [`Command`] as plain text.
pub struct CommandView {
    pub program: Seq<char>,
    pub args: Seq<Seq<char>>,
    pub wait: bool,
}

/// The texts that a list of strings holds.
pub open spec fn texts(words: Seq<String>) -> Seq<Seq<char>> {
    words.map_values(|word: String| word@)
}

impl View for Command {
    type V = CommandView;

    open spec fn view(&self) -> CommandView {
        CommandView { program: self.program@, args: texts(self.args@), wait: self.wait }
    }
}

/// What came of running a [`Command`].
#[derive(Clone, Debug, PartialEq, Eq)]
pub enum Outcome {
    /// The process could not be started; holds the system's reason.
    NotStarted(String),
    /// The process was started and left to run; how it ends is not observed.
    Launched,
    /// The process ran to its end.
    Exited {
        /// Whether it exited with status zero.
        success: bool,
        /// What it wrote to its standard output.
        stdout: String,
        /// What it wrote to its standard error.
        stderr: String,
    },
}

/// An [`Outcome`] as plain text.
pub enum OutcomeView {
    NotStarted(Seq<char>),
    Launched,
    Exited { success: bool, stdout: Seq<char>, stderr: Seq<char> },
}

impl View for Outcome {
    type V = OutcomeView;

    open spec fn view(&self) -> OutcomeView {
        match self {
            Outcome::NotStarted(reason) => OutcomeView::NotStarted(reason@),
            Outcome::Launched => OutcomeView::Launched,
            Outcome::Exited { success, stdout, stderr } => OutcomeView::Exited {
                success: *success,
                stdout: stdout@,
                stderr: stderr@,
            },
        }
    }
}

impl OutcomeView {
    /// The command counts as done: it exited with status zero, or it was
    /// launched without anyone waiting for its end.
    pub open spec fn succeeded(self) -> bool {
        match self {
            OutcomeView::NotStarted(_) => false,
            OutcomeView::Launched => true,
            OutcomeView::Exited { success, .. } => success,
        }
    }

    /// The standard output that was collected; empty where none was.
    pub open spec fn output(self) -> Seq<char> {
        match self {
            OutcomeView::Exited { stdout, .. } => stdout,
            _ => Seq::empty(),
        }
    }

    /// The text that explains a failure: the system's reason where the process
    /// did not start, its standard error where it did.
    pub open spec fn complaint(self) -> Seq<char> {
        match self {
            OutcomeView::NotStarted(reason) => reason,
            OutcomeView::Launched => Seq::empty(),
            OutcomeView::Exited { stderr, .. } => stderr,
        }
    }
}

/// The text that lossy UTF-8 decoding makes of `bytes`: valid sequences decode
/// to their characters, each invalid one to U+FFFD.
pub uninterp spec fn lossy_text(bytes: Seq<u8>) -> Seq<char>;

/// Trusted: `String::from_utf8_lossy` from the standard library. The contract
/// claims only that the text is a function of the bytes, named [`lossy_text`].
#[verifier::external_body]
fn decode_lossy(bytes: &Vec<u8>) -> (text: String)
    ensures
        text@ == lossy_text(bytes@),
{
    String::from_utf8_lossy(bytes).into_owned()
}

impl Outcome {
    /// The outcome of a process that ran to its end, from its raw output.
    pub fn exited(success: bool, stdout: &Vec<u8>, stderr: &Vec<u8>) -> (outcome: Outcome)
        ensures
            outcome@ == (OutcomeView::Exited {
                success,
                stdout: lossy_text(stdout@),
                stderr: lossy_text(stderr@),
            }),
    {
        Outcome::Exited { success, stdout: decode_lossy(stdout), stderr: decode_lossy(stderr) }
    }
}

/// Appends a copy of `word` to `words`.
pub fn push_word(words: &mut Vec<String>, word: &str)
    ensures
        texts(final(words)@) == texts(old(words)@).push(word@),
{
    words.push(String::from_str(word));
    assert(texts(words@) =~= texts(old(words)@).push(word@));
}

/// Appends `word` to `words`.
pub fn push_text(words: &mut Vec<String>, word: String)
    ensures
        texts(final(words)@) == texts(old(words)@).push(word@),
{
    let ghost text = word@;
    words.push(word);
    assert(texts(words@) =~= texts(old(words)@).push(text));
}

} // verus!
