//! The boundary to the container runtime: what is asked of it and what it
//! hands back, as plain values.

use crate::text::decode;
use vstd::prelude::*;
use vstd::utf8::{decode_utf8, valid_utf8};

verus! {

/// Remembers the name of a container that has to be removed when a scenario
/// is over. Removal is never implicit: the owner asks [`remove_container`]
/// what to do and does it.
#[derive(Clone, Debug, PartialEq)]
pub struct ContainerRemover {
    pub container_name: String,
}

impl ContainerRemover {
    /// A remover for the container with the given name.
    pub fn new(container_name: String) -> (remover: ContainerRemover)
        ensures
            remover.container_name == container_name,
    {
        ContainerRemover { container_name }
    }

    /// What to do with the container at the end of the scenario.
    pub fn removal(&self, debug_containers: bool) -> (order: Option<Removal>)
        ensures
            order.deep_view() == removal_of(self.container_name@, debug_containers),
    {
        remove_container(self.container_name.as_str(), debug_containers)
    }
}

/// An order to remove a container. Removal is always forced, so that a
/// running container goes too.
#[derive(Clone, Debug, PartialEq)]
pub struct Removal {
    pub container_name: String,
    pub force: bool,
}

/// The mathematical value of a [`Removal`].
pub struct RemovalView {
    pub container_name: Seq<char>,
    pub force: bool,
}

impl View for Removal {
    type V = RemovalView;

    open spec fn view(&self) -> RemovalView {
        RemovalView { container_name: self.container_name@, force: self.force }
    }
}

impl DeepView for Removal {
    type V = RemovalView;

    open spec fn deep_view(&self) -> RemovalView {
        self@
    }
}

/// What removing a container comes to: nothing while containers are kept
/// for inspection, a forced removal otherwise.
pub open spec fn removal_of(container_name: Seq<char>, debug_containers: bool) -> Option<
    RemovalView,
> {
    if debug_containers {
        None
    } else {
        Some(RemovalView { container_name, force: true })
    }
}

/// Decides how to remove a container. While `debug_containers` is set,
/// containers are left in place for a post-mortem and nothing is to be done.
/// Whoever executes the order ignores a failure of the runtime: a cleanup
/// must not hide the failure that came before it.
pub fn remove_container(container_name: &str, debug_containers: bool) -> (order: Option<Removal>)
    ensures
        order.deep_view() == removal_of(container_name@, debug_containers),
{
    if debug_containers {
        return None;
    }
    Some(Removal { container_name: container_name.to_owned(), force: true })
}

/// The stream on which a piece of output arrived.
#[derive(Clone, Copy, Debug, PartialEq, Eq, Structural)]
pub enum Stream {
    StdIn,
    StdOut,
    StdErr,
    Console,
}

/// One piece of the output of a command, as the runtime delivered it.
#[derive(Clone, Debug, PartialEq)]
pub struct LogChunk {
    pub stream: Stream,
    pub message: Vec<u8>,
}

/// A choice of streams.
#[derive(Clone, Copy, Debug, PartialEq, Eq, Structural)]
pub enum Streams {
    /// Standard output only.
    StdOut,
    /// Standard error only.
    StdErr,
    /// Standard output and standard error.
    Output,
    /// Every stream.
    All,
}

impl Streams {
    /// Whether the choice includes `stream`.
    pub open spec fn admits(self, stream: Stream) -> bool {
        match self {
            Streams::StdOut => stream == Stream::StdOut,
            Streams::StdErr => stream == Stream::StdErr,
            Streams::Output => stream == Stream::StdOut || stream == Stream::StdErr,
            Streams::All => true,
        }
    }

    /// Whether the choice includes `stream`.
    pub fn includes(self, stream: Stream) -> (yes: bool)
        ensures
            yes == self.admits(stream),
    {
        match self {
            Streams::StdOut => stream == Stream::StdOut,
            Streams::StdErr => stream == Stream::StdErr,
            Streams::Output => stream == Stream::StdOut || stream == Stream::StdErr,
            Streams::All => true,
        }
    }
}

/// The messages of the chunks that arrived on one of the chosen streams, in
/// the order of arrival.
pub open spec fn messages_on(chunks: Seq<LogChunk>, streams: Streams) -> Seq<Seq<u8>>
    decreases chunks.len(),
{
    if chunks.len() == 0 {
        Seq::empty()
    } else if streams.admits(chunks.last().stream) {
        messages_on(chunks.drop_last(), streams).push(chunks.last().message@)
    } else {
        messages_on(chunks.drop_last(), streams)
    }
}

fn copy_bytes(bytes: &Vec<u8>) -> (out: Vec<u8>)
    ensures
        out@ == bytes@,
{
    let mut out: Vec<u8> = Vec::with_capacity(bytes.len());
    let mut i: usize = 0;
    while i < bytes.len()
        invariant
            i <= bytes.len(),
            out@ == bytes@.take(i as int),
        decreases bytes.len() - i,
    {
        out.push(bytes[i]);
        i += 1;
    }
    assert(bytes@.take(i as int) == bytes@);
    out
}

/// Picks the messages that arrived on one of the chosen streams, in the
/// order of arrival.
pub fn messages(chunks: &Vec<LogChunk>, streams: Streams) -> (out: Vec<Vec<u8>>)
    ensures
        out.deep_view() == messages_on(chunks@, streams),
{
    let mut out: Vec<Vec<u8>> = Vec::new();
    let mut i: usize = 0;
    assert(out.deep_view() =~= messages_on(chunks@.take(0), streams));
    while i < chunks.len()
        invariant
            i <= chunks.len(),
            out.deep_view() == messages_on(chunks@.take(i as int), streams),
        decreases chunks.len() - i,
    {
        assert(chunks@.take(i + 1).drop_last() == chunks@.take(i as int));
        if streams.includes(chunks[i].stream) {
            let ghost before = out.deep_view();
            let message = copy_bytes(&chunks[i].message);
            out.push(message);
            assert(out.deep_view() =~~= before.push(chunks@[i as int].message@));
        }
        i += 1;
    }
    assert(chunks@.take(i as int) == chunks@);
    out
}

/// The text of the last piece that arrived on one of the chosen streams, if
/// there is one and it is text.
pub open spec fn last_text_on(chunks: Seq<LogChunk>, streams: Streams) -> Result<
    Option<Seq<char>>,
    ExecError,
> {
    let chosen = messages_on(chunks, streams);
    if chosen.len() == 0 {
        Ok(None)
    } else if !valid_utf8(chosen.last()) {
        Err(ExecError::NotText)
    } else {
        Ok(Some(decode_utf8(chosen.last())))
    }
}

/// Reads the last piece that arrived on one of the chosen streams as text.
/// Gives `None` when nothing arrived on them, and fails with
/// [`ExecError::NotText`] exactly when the piece is not well-formed UTF-8.
pub fn last_text(
    chunks: &Vec<LogChunk>,
    streams: Streams,
) -> (text: Result<Option<String>, ExecError>)
    ensures
        match text {
            Ok(Some(line)) => last_text_on(chunks@, streams) == Ok::<
                Option<Seq<char>>,
                ExecError,
            >(Some(line@)),
            Ok(None) => last_text_on(chunks@, streams) == Ok::<Option<Seq<char>>, ExecError>(None),
            Err(error) => last_text_on(chunks@, streams) == Err::<Option<Seq<char>>, ExecError>(
                error,
            ),
        },
{
    let mut chosen = messages(chunks, streams);
    let ghost all = chosen.deep_view();
    match chosen.pop() {
        None => Ok(None),
        Some(last) => {
            assert(last@ =~= all.last());
            match decode(last) {
                None => Err(ExecError::NotText),
                Some(line) => Ok(Some(line)),
            }
        },
    }
}

/// The output of a command that ran to its end: what it wrote to standard
/// output and to standard error, each as the pieces in which it arrived.
/// The pieces are not interpreted.
#[derive(Clone, Debug, PartialEq, Default)]
pub struct CapturedOutput {
    pub stdout: Vec<Vec<u8>>,
    pub stderr: Vec<Vec<u8>>,
}

/// Sorts the pieces of output by stream, keeping the order of arrival within
/// each stream.
pub fn capture(chunks: &Vec<LogChunk>) -> (output: CapturedOutput)
    ensures
        output.stdout.deep_view() == messages_on(chunks@, Streams::StdOut),
        output.stderr.deep_view() == messages_on(chunks@, Streams::StdErr),
{
    CapturedOutput {
        stdout: messages(chunks, Streams::StdOut),
        stderr: messages(chunks, Streams::StdErr),
    }
}

/// Why the output of a command could not be used.
#[derive(Clone, Copy, Debug, PartialEq, Eq, Structural)]
pub enum ExecError {
    /// The container runtime could not run the command: the container is
    /// not running, or the call to the runtime failed.
    NotRun,
    /// The command wrote nothing on the stream that carries its answer.
    NoOutput,
    /// A piece of output is not well-formed UTF-8.
    NotText,
}

impl ExecError {
    /// The failure in words.
    pub open spec fn name(self) -> Seq<char> {
        match self {
            ExecError::NotRun => "the command could not be run"@,
            ExecError::NoOutput => "the command wrote nothing"@,
            ExecError::NotText => "the command wrote what is no text"@,
        }
    }

    /// The failure in words.
    pub fn describe(self) -> (name: &'static str)
        ensures
            name@ == self.name(),
    {
        match self {
            ExecError::NotRun => "the command could not be run",
            ExecError::NoOutput => "the command wrote nothing",
            ExecError::NotText => "the command wrote what is no text",
        }
    }
}

/// Whether every message is well-formed UTF-8.
pub open spec fn all_text(messages: Seq<Seq<u8>>) -> bool {
    forall|i: int| 0 <= i < messages.len() ==> valid_utf8(#[trigger] messages[i])
}

/// The texts that the messages encode.
pub open spec fn texts_of(messages: Seq<Seq<u8>>) -> Seq<Seq<char>> {
    Seq::new(messages.len(), |i: int| decode_utf8(messages[i]))
}

/// Reads every message as text. Fails with [`ExecError::NotText`] exactly
/// when one of them is not well-formed UTF-8.
pub fn decode_all(messages: &Vec<Vec<u8>>) -> (texts: Result<Vec<String>, ExecError>)
    ensures
        match texts {
            Ok(lines) => all_text(messages.deep_view()) && lines.deep_view() == texts_of(
                messages.deep_view(),
            ),
            Err(error) => !all_text(messages.deep_view()) && error == ExecError::NotText,
        },
{
    let mut lines: Vec<String> = Vec::new();
    let mut i: usize = 0;
    while i < messages.len()
        invariant
            i <= messages.len(),
            lines.len() == i,
            forall|k: int| 0 <= k < i ==> valid_utf8(#[trigger] messages.deep_view()[k]),
            forall|k: int| 0 <= k < i ==> #[trigger] lines[k]@ == decode_utf8(messages[k]@),
        decreases messages.len() - i,
    {
        assert(messages.deep_view()[i as int] == messages[i as int]@);
        match decode(copy_bytes(&messages[i])) {
            Some(text) => {
                lines.push(text);
            },
            None => {
                return Err(ExecError::NotText);
            },
        }
        i += 1;
    }
    assert(lines.deep_view() =~= texts_of(messages.deep_view())) by {
        assert forall|k: int| 0 <= k < lines.len() implies lines.deep_view()[k] == texts_of(
            messages.deep_view(),
        )[k] by {
            assert(lines.deep_view()[k] == lines[k]@);
            assert(messages.deep_view()[k] == messages[k]@);
        }
    }
    Ok(lines)
}

} // verus!
