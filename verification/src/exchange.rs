//! What the library asks of its surroundings, and what it is told.
//!
//! The library performs no input or output. A computation that needs some hands out an [`Action`],
//! and goes on with the [`Event`] that tells how the action went.
use crate::dbus::{reply_view, BodyView, CallView, MethodCall, Reply, ReplyView};
use procfs::ProcError;
use std::io;
use std::path::PathBuf;
use vstd::prelude::*;

verus! {

/// The identity of a file: the number of its device, and of its inode there. Two paths lead to the
/// same file if and only if the identities behind them are equal.
#[derive(Debug, Clone, Copy, PartialEq, Eq, Structural)]
pub struct FileId {
    pub dev: u64,
    pub ino: u64,
}

/// A failed attempt to open a file.
#[derive(Debug)]
pub struct OpenFailure {
    /// Whether the file failed to open because it does not exist.
    pub not_found: bool,
    pub source: io::Error,
}

/// Something for the surroundings to do.
#[derive(Debug)]
pub enum Action {
    /// Resolve a path to its canonical, absolute form.
    Canonicalize { path: PathBuf },
    /// Open the file at a path and tell its identity.
    Identify { path: PathBuf },
    /// Connect to the session message bus.
    Connect,
    /// Send a method call and wait for the reply.
    Call { call: MethodCall },
    /// Open a handle to the process with an ID.
    OpenProcess { pid: i32 },
    /// Read the current working directory of the process, through the handle that was opened.
    ReadCwd { pid: i32 },
    /// Read the start time of the process, through the handle that was opened.
    ReadStarttime { pid: i32 },
    /// Create a temporary file whose name begins with a prefix, and tell its path.
    CreateTempfile { prefix: String },
    /// Render the script that activates the windows of a process to the temporary file at a path.
    RenderScript { file: PathBuf, owner: u32 },
    /// Launch a program with an option that names a directory, cut off from the standard streams.
    Launch { program: String, option: String, directory: PathBuf },
}

/// Something for the surroundings to do, with its text.
pub enum ActionView {
    Canonicalize { path: PathBuf },
    Identify { path: PathBuf },
    Connect,
    Call { call: CallView },
    OpenProcess { pid: i32 },
    ReadCwd { pid: i32 },
    ReadStarttime { pid: i32 },
    CreateTempfile { prefix: Seq<char> },
    RenderScript { file: PathBuf, owner: u32 },
    Launch { program: Seq<char>, option: Seq<char>, directory: PathBuf },
}

impl View for Action {
    type V = ActionView;

    open spec fn view(&self) -> ActionView {
        match self {
            Action::Canonicalize { path } => ActionView::Canonicalize { path: *path },
            Action::Identify { path } => ActionView::Identify { path: *path },
            Action::Connect => ActionView::Connect,
            Action::Call { call } => ActionView::Call { call: call@ },
            Action::OpenProcess { pid } => ActionView::OpenProcess { pid: *pid },
            Action::ReadCwd { pid } => ActionView::ReadCwd { pid: *pid },
            Action::ReadStarttime { pid } => ActionView::ReadStarttime { pid: *pid },
            Action::CreateTempfile { prefix } => ActionView::CreateTempfile { prefix: prefix@ },
            Action::RenderScript { file, owner } => ActionView::RenderScript { file: *file, owner: *owner },
            Action::Launch { program, option, directory } => ActionView::Launch {
                program: program@,
                option: option@,
                directory: *directory,
            },
        }
    }
}

/// How an action went. There is one event for each action, of the same name.
#[derive(Debug)]
pub enum Event {
    Canonicalize(Result<PathBuf, io::Error>),
    Identify(Result<FileId, OpenFailure>),
    Connect(Result<(), zbus::Error>),
    Call(Result<Reply, zbus::Error>),
    OpenProcess(Result<(), ProcError>),
    ReadCwd(Result<PathBuf, ProcError>),
    ReadStarttime(Result<u64, ProcError>),
    CreateTempfile(Result<PathBuf, io::Error>),
    RenderScript(Result<(), io::Error>),
    Launch(Result<u32, io::Error>),
}

/// What became of the attempt to identify a file.
pub enum Identity {
    Found(FileId),
    NotFound,
    Failed,
}

/// How an action went, with its text, and without the error where it failed.
pub enum EventView {
    Canonicalize(Option<PathBuf>),
    Identify(Identity),
    Connect(bool),
    Call(Option<ReplyView>),
    OpenProcess(bool),
    ReadCwd(Option<PathBuf>),
    ReadStarttime(Option<u64>),
    CreateTempfile(Option<PathBuf>),
    RenderScript(bool),
    Launch(Option<u32>),
}

impl View for Event {
    type V = EventView;

    open spec fn view(&self) -> EventView {
        match self {
            Event::Canonicalize(res) => EventView::Canonicalize(res.ok()),
            Event::Identify(Ok(id)) => EventView::Identify(Identity::Found(*id)),
            Event::Identify(Err(e)) => EventView::Identify(
                if e.not_found {
                    Identity::NotFound
                } else {
                    Identity::Failed
                },
            ),
            Event::Connect(res) => EventView::Connect(res is Ok),
            Event::Call(res) => EventView::Call(reply_view(*res)),
            Event::OpenProcess(res) => EventView::OpenProcess(res is Ok),
            Event::ReadCwd(res) => EventView::ReadCwd(res.ok()),
            Event::ReadStarttime(res) => EventView::ReadStarttime(res.ok()),
            Event::CreateTempfile(res) => EventView::CreateTempfile(res.ok()),
            Event::RenderScript(res) => EventView::RenderScript(res is Ok),
            Event::Launch(res) => EventView::Launch(res.ok()),
        }
    }
}

/// Whether an event tells how an action of the given kind went.
pub open spec fn answers(action: ActionView, event: EventView) -> bool {
    match action {
        ActionView::Canonicalize { .. } => event is Canonicalize,
        ActionView::Identify { .. } => event is Identify,
        ActionView::Connect => event is Connect,
        ActionView::Call { .. } => event is Call,
        ActionView::OpenProcess { .. } => event is OpenProcess,
        ActionView::ReadCwd { .. } => event is ReadCwd,
        ActionView::ReadStarttime { .. } => event is ReadStarttime,
        ActionView::CreateTempfile { .. } => event is CreateTempfile,
        ActionView::RenderScript { .. } => event is RenderScript,
        ActionView::Launch { .. } => event is Launch,
    }
}

/// How far a computation has come: it waits in a state for an action to be performed, or it has
/// finished with a result.
#[derive(Debug)]
pub enum Progress<S, T> {
    Pending(S, Action),
    Finished(T),
}

/// How far a computation has come, in terms of the views of state, action and result.
pub enum ProgressView<S, T> {
    Pending(S, ActionView),
    Finished(T),
}

/// Whether an action is a method call to a member of an interface of an object at a destination.
pub open spec fn calls(
    action: ActionView,
    destination: Seq<char>,
    path: Seq<char>,
    interface: Seq<char>,
    member: Seq<char>,
    body: BodyView,
) -> bool {
    action == (ActionView::Call { call: CallView { destination, path, interface, member, body } })
}

/// An action is shown with all that it holds.
pub proof fn law_actions_are_shown_in_full(action: Action)
    ensures
        match action {
            Action::Canonicalize { path } => action@ == (ActionView::Canonicalize { path }),
            Action::Identify { path } => action@ == (ActionView::Identify { path }),
            Action::Connect => action@ == ActionView::Connect,
            Action::Call { call } => calls(
                action@,
                call.destination@,
                call.path@,
                call.interface@,
                call.member@,
                call.body@,
            ),
            Action::OpenProcess { pid } => action@ == (ActionView::OpenProcess { pid }),
            Action::ReadCwd { pid } => action@ == (ActionView::ReadCwd { pid }),
            Action::ReadStarttime { pid } => action@ == (ActionView::ReadStarttime { pid }),
            Action::CreateTempfile { prefix } => action@ == (ActionView::CreateTempfile { prefix: prefix@ }),
            Action::RenderScript { file, owner } => action@ == (ActionView::RenderScript { file, owner }),
            Action::Launch { program, option, directory } => action@ == (ActionView::Launch {
                program: program@,
                option: option@,
                directory,
            }),
        },
{
}

/// An event is shown with all that it holds, but for the error of an action that failed.
pub proof fn law_events_are_shown_without_their_error(event: Event)
    ensures
        match event {
            Event::Canonicalize(Ok(path)) => event@ == EventView::Canonicalize(Some(path)),
            Event::Canonicalize(Err(_)) => event@ == EventView::Canonicalize(None),
            Event::Identify(Ok(id)) => event@ == EventView::Identify(Identity::Found(id)),
            Event::Identify(Err(e)) => event@ == EventView::Identify(
                if e.not_found {
                    Identity::NotFound
                } else {
                    Identity::Failed
                },
            ),
            Event::Connect(res) => event@ == EventView::Connect(res is Ok),
            Event::Call(Ok(reply)) => event@ == EventView::Call(Some(reply@)),
            Event::Call(Err(_)) => event@ == EventView::Call(None),
            Event::OpenProcess(res) => event@ == EventView::OpenProcess(res is Ok),
            Event::ReadCwd(Ok(path)) => event@ == EventView::ReadCwd(Some(path)),
            Event::ReadCwd(Err(_)) => event@ == EventView::ReadCwd(None),
            Event::ReadStarttime(Ok(starttime)) => event@ == EventView::ReadStarttime(Some(starttime)),
            Event::ReadStarttime(Err(_)) => event@ == EventView::ReadStarttime(None),
            Event::CreateTempfile(Ok(path)) => event@ == EventView::CreateTempfile(Some(path)),
            Event::CreateTempfile(Err(_)) => event@ == EventView::CreateTempfile(None),
            Event::RenderScript(res) => event@ == EventView::RenderScript(res is Ok),
            Event::Launch(Ok(pid)) => event@ == EventView::Launch(Some(pid)),
            Event::Launch(Err(_)) => event@ == EventView::Launch(None),
        },
{
}

} // verus!
