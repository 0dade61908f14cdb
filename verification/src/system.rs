//! The boundary to the operating system.
//!
//! Nothing in this crate reads or changes the machine. An action names the
//! operation it needs as a [`Request`]; the driver performs it and reports a
//! [`Response`]. Both are plain data, and each has a mathematical view over
//! which the contracts of the crate are stated.

use vstd::prelude::*;

verus! {

/// An error reported by the operating system.
#[derive(Debug)]
pub struct OsError {
    /// The raw error number, where the system gave one.
    pub code: Option<i32>,
    /// The system's description of the error.
    pub message: String,
}

/// The view of an [`OsError`].
pub struct OsErrorView {
    pub code: Option<i32>,
    pub message: Seq<char>,
}

impl View for OsError {
    type V = OsErrorView;

    open spec fn view(&self) -> OsErrorView {
        OsErrorView { code: self.code, message: self.message@ }
    }
}

impl DeepView for OsError {
    type V = OsErrorView;

    open spec fn deep_view(&self) -> OsErrorView {
        self@
    }
}

impl Clone for OsError {
    fn clone(&self) -> (copy: Self)
        ensures
            copy@ == self@,
    {
        OsError { code: self.code, message: self.message.clone() }
    }
}

/// What the logic reads of a file's metadata.
#[derive(Clone, Copy, Debug, PartialEq, Eq, Structural)]
pub struct Metadata {
    /// Whether the path names a directory.
    pub is_dir: bool,
}

/// Copies a list of strings.
fn clone_strings(strings: &Vec<String>) -> (copy: Vec<String>)
    ensures
        copy.deep_view() == strings.deep_view(),
{
    let mut copy: Vec<String> = Vec::new();
    let mut i: usize = 0;
    while i < strings.len()
        invariant
            i <= strings.len(),
            copy.len() == i,
            forall|j: int| 0 <= j < i ==> copy[j]@ == strings[j]@,
        decreases strings.len() - i,
    {
        copy.push(strings[i].clone());
        i += 1;
    }
    assert(copy.deep_view() =~= strings.deep_view());
    copy
}

/// Copies a list of bytes.
fn clone_bytes(bytes: &Vec<u8>) -> (copy: Vec<u8>)
    ensures
        copy@ == bytes@,
{
    let mut copy: Vec<u8> = Vec::new();
    let mut i: usize = 0;
    while i < bytes.len()
        invariant
            i <= bytes.len(),
            copy.len() == i,
            forall|j: int| 0 <= j < i ==> copy[j] == bytes[j],
        decreases bytes.len() - i,
    {
        copy.push(bytes[i]);
        i += 1;
    }
    assert(copy@ =~= bytes@);
    copy
}

/// An external command, exactly as it is to be started.
#[derive(Debug)]
pub struct CommandLine {
    /// The program to start.
    pub program: String,
    /// Its arguments, in order.
    pub args: Vec<String>,
    /// The process group to put the child in, if any.
    pub process_group: Option<i32>,
    /// Whether the child's standard input is closed.
    pub stdin_null: bool,
}

/// The view of a [`CommandLine`].
pub struct CommandLineView {
    pub program: Seq<char>,
    pub args: Seq<Seq<char>>,
    pub process_group: Option<i32>,
    pub stdin_null: bool,
}

impl View for CommandLine {
    type V = CommandLineView;

    open spec fn view(&self) -> CommandLineView {
        CommandLineView {
            program: self.program@,
            args: self.args.deep_view(),
            process_group: self.process_group,
            stdin_null: self.stdin_null,
        }
    }
}

impl DeepView for CommandLine {
    type V = CommandLineView;

    open spec fn deep_view(&self) -> CommandLineView {
        self@
    }
}

impl Clone for CommandLine {
    fn clone(&self) -> (copy: Self)
        ensures
            copy@ == self@,
    {
        CommandLine {
            program: self.program.clone(),
            args: clone_strings(&self.args),
            process_group: self.process_group,
            stdin_null: self.stdin_null,
        }
    }
}

/// What a finished command left behind.
#[derive(Debug)]
pub struct CommandOutput {
    /// The exit code; `None` where the process was ended by a signal.
    pub code: Option<i32>,
    /// What the command wrote to standard output.
    pub stdout: Vec<u8>,
    /// What the command wrote to standard error.
    pub stderr: Vec<u8>,
}

/// The view of a [`CommandOutput`].
pub struct CommandOutputView {
    pub code: Option<i32>,
    pub stdout: Seq<u8>,
    pub stderr: Seq<u8>,
}

impl CommandOutputView {
    /// A command succeeded exactly when it exited with code zero.
    pub open spec fn success(self) -> bool {
        self.code == Some(0i32)
    }
}

impl View for CommandOutput {
    type V = CommandOutputView;

    open spec fn view(&self) -> CommandOutputView {
        CommandOutputView { code: self.code, stdout: self.stdout@, stderr: self.stderr@ }
    }
}

impl DeepView for CommandOutput {
    type V = CommandOutputView;

    open spec fn deep_view(&self) -> CommandOutputView {
        self@
    }
}

impl Clone for CommandOutput {
    fn clone(&self) -> (copy: Self)
        ensures
            copy@ == self@,
    {
        CommandOutput {
            code: self.code,
            stdout: clone_bytes(&self.stdout),
            stderr: clone_bytes(&self.stderr),
        }
    }
}

impl CommandOutput {
    /// Whether the command exited with code zero.
    pub fn success(&self) -> (ok: bool)
        ensures
            ok == self@.success(),
    {
        match self.code {
            Some(code) => code == 0,
            None => false,
        }
    }
}

/// One interaction with the operating system that an action asks for.
#[derive(Debug)]
pub enum Request {
    /// Read the metadata of `path`, following symbolic links.
    Metadata { path: String },
    /// Find out whether `path` exists.
    TryExists { path: String },
    /// Create the directory `path` and every missing parent.
    CreateDirAll { path: String },
    /// Rename `from` to `to` in one step.
    Rename { from: String, to: String },
    /// Write `contents` to the file `path`, replacing what it held.
    Write { path: String, contents: String },
    /// Remove the file `path`.
    RemoveFile { path: String },
    /// Run `command` to its end and capture what it prints.
    Run { command: CommandLine },
}

/// The view of a [`Request`].
pub enum RequestView {
    Metadata { path: Seq<char> },
    TryExists { path: Seq<char> },
    CreateDirAll { path: Seq<char> },
    Rename { from: Seq<char>, to: Seq<char> },
    Write { path: Seq<char>, contents: Seq<char> },
    RemoveFile { path: Seq<char> },
    Run { command: CommandLineView },
}

impl View for Request {
    type V = RequestView;

    open spec fn view(&self) -> RequestView {
        match self {
            Request::Metadata { path } => RequestView::Metadata { path: path@ },
            Request::TryExists { path } => RequestView::TryExists { path: path@ },
            Request::CreateDirAll { path } => RequestView::CreateDirAll { path: path@ },
            Request::Rename { from, to } => RequestView::Rename { from: from@, to: to@ },
            Request::Write { path, contents } => RequestView::Write {
                path: path@,
                contents: contents@,
            },
            Request::RemoveFile { path } => RequestView::RemoveFile { path: path@ },
            Request::Run { command } => RequestView::Run { command: command@ },
        }
    }
}

impl DeepView for Request {
    type V = RequestView;

    open spec fn deep_view(&self) -> RequestView {
        self@
    }
}

/// What the driver reports after it performed a [`Request`].
#[derive(Debug)]
pub enum Response {
    /// The answer to [`Request::Metadata`].
    Metadata(Result<Metadata, OsError>),
    /// The answer to [`Request::TryExists`].
    Exists(Result<bool, OsError>),
    /// The answer to a request that changes the file system.
    Done(Result<(), OsError>),
    /// The answer to [`Request::Run`]; `Err` where the command could not be
    /// started.
    Ran(Result<CommandOutput, OsError>),
}

/// The view of a [`Response`].
pub enum ResponseView {
    Metadata(Result<Metadata, OsErrorView>),
    Exists(Result<bool, OsErrorView>),
    Done(Result<(), OsErrorView>),
    Ran(Result<CommandOutputView, OsErrorView>),
}

impl View for Response {
    type V = ResponseView;

    open spec fn view(&self) -> ResponseView {
        match self {
            Response::Metadata(Ok(metadata)) => ResponseView::Metadata(Ok(*metadata)),
            Response::Metadata(Err(error)) => ResponseView::Metadata(Err(error@)),
            Response::Exists(Ok(exists)) => ResponseView::Exists(Ok(*exists)),
            Response::Exists(Err(error)) => ResponseView::Exists(Err(error@)),
            Response::Done(Ok(())) => ResponseView::Done(Ok(())),
            Response::Done(Err(error)) => ResponseView::Done(Err(error@)),
            Response::Ran(Ok(output)) => ResponseView::Ran(Ok(output@)),
            Response::Ran(Err(error)) => ResponseView::Ran(Err(error@)),
        }
    }
}

impl DeepView for Response {
    type V = ResponseView;

    open spec fn deep_view(&self) -> ResponseView {
        self@
    }
}

} // verus!
