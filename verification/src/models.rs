//! The output-stream and error model: the dual-channel result of one
//! command, the write-mode and target-stream tags for redirections, and
//! the tagged error unions.

use vstd::prelude::*;

verus! {

/// Which output channel a redirection diverts.
#[derive(Clone, Copy, PartialEq, Eq, Structural, Debug)]
pub enum IOStreamType {
    StdErr,
    StdOut,
}

/// Whether a redirection target file must be fresh or is appended to.
#[derive(Clone, Copy, PartialEq, Eq, Structural, Debug)]
pub enum WriteMode {
    AppendExisting,
    CreateNew,
}

/// A failure below the command layer: a bad directory, or an operating
/// system error carried as its rendered text.
#[derive(Debug)]
pub enum IOError {
    NoSuchDir(String),
    StdError(String),
}

/// A failure of one command dispatch. `ComposableError` surfaces an
/// `IOError` through the parse-level channel so the caller prints one
/// uniform type.
#[derive(Debug)]
pub enum CommandParseError {
    ComposableError(IOError),
    CommandNotFound(String),
    WrongArgsNum,
}

impl IOError {
    /// The text the interpreter prints for this failure.
    pub open spec fn spec_message(&self) -> Seq<char> {
        match self {
            IOError::NoSuchDir(s) => s@,
            IOError::StdError(s) => s@,
        }
    }

    /// Renders the failure for the terminal.
    pub fn message(&self) -> (r: String)
        ensures
            r@ == self.spec_message(),
    {
        match self {
            IOError::NoSuchDir(s) => s.clone(),
            IOError::StdError(s) => s.clone(),
        }
    }
}

impl CommandParseError {
    /// The text the interpreter prints for this failure; a wrong
    /// argument count prints as an empty line.
    pub open spec fn spec_message(&self) -> Seq<char> {
        match self {
            CommandParseError::ComposableError(e) => e.spec_message(),
            CommandParseError::CommandNotFound(s) => s@,
            CommandParseError::WrongArgsNum => Seq::empty(),
        }
    }

    /// Renders the failure for the terminal.
    pub fn message(&self) -> (r: String)
        ensures
            r@ == self.spec_message(),
    {
        match self {
            CommandParseError::ComposableError(e) => e.message(),
            CommandParseError::CommandNotFound(s) => s.clone(),
            CommandParseError::WrongArgsNum => String::new(),
        }
    }
}

/// An empty captured text is stored as an absent channel, never as a
/// present empty string.
pub open spec fn norm_channel(s: Seq<char>) -> Option<Seq<char>> {
    if s.len() == 0 {
        None
    } else {
        Some(s)
    }
}

/// The contents of an optional channel, seen as an optional character
/// sequence.
pub open spec fn channel_view(o: Option<String>) -> Option<Seq<char>> {
    match o {
        Some(s) => Some(s@),
        None => None,
    }
}

/// The dual-channel (stdout/stderr) result of one command's execution.
#[derive(Debug)]
pub struct IOStream {
    pub stdout: Option<String>,
    pub stderr: Option<String>,
}

impl IOStream {
    /// The normalization invariant: a present channel is never empty, so
    /// "produced no output" and "produced an empty line" stay distinct.
    pub open spec fn wf(&self) -> bool {
        &&& (self.stdout is Some ==> self.stdout->0@.len() > 0)
        &&& (self.stderr is Some ==> self.stderr->0@.len() > 0)
    }

    /// The channel a write for `t` selects, an absent channel reading as
    /// empty text.
    pub open spec fn spec_channel_text(&self, t: IOStreamType) -> Seq<char> {
        match t {
            IOStreamType::StdOut => {
                match self.stdout {
                    Some(s) => s@,
                    None => Seq::empty(),
                }
            },
            IOStreamType::StdErr => {
                match self.stderr {
                    Some(s) => s@,
                    None => Seq::empty(),
                }
            },
        }
    }

    /// Builds a stream from captured texts, normalizing empty captures
    /// to absent channels.
    pub fn new(stdout: &str, stderr: &str) -> (r: IOStream)
        ensures
            channel_view(r.stdout) == norm_channel(stdout@),
            channel_view(r.stderr) == norm_channel(stderr@),
            r.wf(),
    {
        IOStream {
            stdout: if stdout.is_empty() {
                None
            } else {
                Some(String::from_str(stdout))
            },
            stderr: if stderr.is_empty() {
                None
            } else {
                Some(String::from_str(stderr))
            },
        }
    }

    /// Builds a stream from already-optional channels, as given.
    pub fn from_options(stdout: Option<String>, stderr: Option<String>) -> (r: IOStream)
        ensures
            r.stdout == stdout,
            r.stderr == stderr,
    {
        IOStream { stdout, stderr }
    }

    /// A stream with both channels absent.
    pub fn new_empty() -> (r: IOStream)
        ensures
            r.stdout is None,
            r.stderr is None,
            r.wf(),
    {
        IOStream { stdout: None, stderr: None }
    }

    /// A copy of the stdout channel.
    pub fn get_stdout(&self) -> (r: Option<String>)
        ensures
            r == self.stdout,
    {
        match &self.stdout {
            Some(s) => Some(s.clone()),
            None => None,
        }
    }

    /// A copy of the stderr channel.
    pub fn get_stderr(&self) -> (r: Option<String>)
        ensures
            r == self.stderr,
    {
        match &self.stderr {
            Some(s) => Some(s.clone()),
            None => None,
        }
    }

    /// Selects the text to show on the terminal: stdout when present,
    /// else stderr when present, else nothing. An absent stdout and an
    /// absent stderr print nothing.
    pub fn print(&self) -> (r: Option<&String>)
        ensures
            self.stdout is Some ==> r is Some && r->0@ == self.stdout->0@,
            self.stdout is None && self.stderr is Some ==> r is Some && r->0@ == self.stderr->0@,
            self.stdout is None && self.stderr is None ==> r is None,
    {
        match &self.stdout {
            Some(s) => Some(s),
            None => match &self.stderr {
                Some(s) => Some(s),
                None => None,
            },
        }
    }

    /// The text a file write for channel `target` takes from this
    /// stream; an absent channel writes as empty text.
    pub fn select_content(&self, target: &IOStreamType) -> (r: String)
        ensures
            r@ == self.spec_channel_text(*target),
    {
        match target {
            IOStreamType::StdOut => {
                match &self.stdout {
                    Some(s) => s.clone(),
                    None => String::new(),
                }
            },
            IOStreamType::StdErr => {
                match &self.stderr {
                    Some(s) => s.clone(),
                    None => String::new(),
                }
            },
        }
    }

    /// The stream after its `target` channel was written to a file: that
    /// channel is cleared so the caller does not also print it, the
    /// other channel is kept untouched.
    pub fn narrow(&self, target: &IOStreamType) -> (r: IOStream)
        ensures
            *target == IOStreamType::StdOut ==> r.stdout is None && r.stderr == self.stderr,
            *target == IOStreamType::StdErr ==> r.stderr is None && r.stdout == self.stdout,
    {
        match target {
            IOStreamType::StdOut => IOStream { stdout: None, stderr: self.get_stderr() },
            IOStreamType::StdErr => IOStream { stdout: self.get_stdout(), stderr: None },
        }
    }
}

/// The exact bytes-as-text a redirection write carries: the content as
/// is into a freshly created file, and a separating newline before it
/// when the file already existed.
pub fn redirect_payload(content: &str, fresh: bool) -> (r: String)
    ensures
        fresh ==> r@ == content@,
        !fresh ==> r@ == seq!['\n'] + content@,
{
    if fresh {
        String::from_str(content)
    } else {
        let mut s = String::new();
        s.push('\n');
        s.append(content);
        proof {
            assert(s@ =~= seq!['\n'] + content@);
        }
        s
    }
}

/// An executable discovered on the search path: its bare name and its
/// full path.
pub struct Binary {
    pub path: String,
    pub name: String,
}

impl Binary {
    /// Packs a discovered executable's path and name.
    pub fn new(path: String, name: String) -> (r: Binary)
        ensures
            r.path == path,
            r.name == name,
    {
        Binary { path, name }
    }
}

} // verus!
