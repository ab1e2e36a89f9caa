//! The file access, as far as it decides anything: which dialog or file
//! operation a command of the session needs next, and which message answers
//! the command once the user and the file system have done their part.
//!
//! Whoever drives it starts with [`begin`], does what the task says, hands
//! what happened to [`proceed`], and goes on until the task is finished.

use crate::error::{Error, FailureKind};
use crate::session::{Command, CommandView, Message, MessageView};
use vstd::prelude::*;
use vstd::string::StringExecFns;

verus! {

/// Where the file that is read at startup lies below the root directory.
pub open spec fn default_file_below_root() -> Seq<char> {
    "/src/main.rs"@
}

/// The location of the file that is read at startup, for the given root
/// directory.
pub fn default_file(root: &str) -> (location: String)
    ensures
        location@ == root@ + default_file_below_root(),
{
    let mut location = root.to_owned();
    location.append("/src/main.rs");
    location
}

/// What the file access does next for a command.
#[derive(Debug, PartialEq, Eq)]
pub enum Task {
    /// Let the user choose a file to open.
    AskOpen,
    /// Let the user choose where to save `content`.
    AskSave { content: String },
    /// Read the file at `location`.
    Read { location: String },
    /// Write `content` to the file at `location`.
    Write { location: String, content: String },
    /// Nothing is left to do but to hand the message, if there is one, to
    /// the session.
    Finished(Option<Message>),
}

/// A task with its texts as sequences of characters.
pub enum TaskView {
    AskOpen,
    AskSave { content: Seq<char> },
    Read { location: Seq<char> },
    Write { location: Seq<char>, content: Seq<char> },
    Finished(Option<MessageView>),
}

impl View for Task {
    type V = TaskView;

    open spec fn view(&self) -> TaskView {
        match *self {
            Task::AskOpen => TaskView::AskOpen,
            Task::AskSave { content } => TaskView::AskSave { content: content@ },
            Task::Read { location } => TaskView::Read { location: location@ },
            Task::Write { location, content } => TaskView::Write {
                location: location@,
                content: content@,
            },
            Task::Finished(Some(message)) => TaskView::Finished(Some(message@)),
            Task::Finished(None) => TaskView::Finished(None),
        }
    }
}

/// What the user or the file system did for a task.
#[derive(Debug, PartialEq, Eq)]
pub enum Event {
    /// A dialog was closed: with the location that the user chose, or
    /// without one.
    Chosen(Option<String>),
    /// A read ended: with the content of the file, or with the kind of its
    /// failure.
    Read(Result<String, std::io::ErrorKind>),
    /// A write ended: well, or with the kind of its failure.
    Written(Result<(), std::io::ErrorKind>),
}

/// An event with its texts as sequences of characters.
pub enum EventView {
    Chosen(Option<Seq<char>>),
    Read(Result<Seq<char>, std::io::ErrorKind>),
    Written(Result<(), std::io::ErrorKind>),
}

impl View for Event {
    type V = EventView;

    open spec fn view(&self) -> EventView {
        match *self {
            Event::Chosen(Some(location)) => EventView::Chosen(Some(location@)),
            Event::Chosen(None) => EventView::Chosen(None),
            Event::Read(Ok(content)) => EventView::Read(Ok(content@)),
            Event::Read(Err(kind)) => EventView::Read(Err(kind)),
            Event::Written(outcome) => EventView::Written(outcome),
        }
    }
}

/// The message that reports the failure of a read.
pub open spec fn read_failed(kind: std::io::ErrorKind) -> MessageView {
    MessageView::FileOpened(Err(Error::IOFailed(FailureKind::classify(kind))))
}

/// The message that reports the failure of a write.
pub open spec fn write_failed(kind: std::io::ErrorKind) -> MessageView {
    MessageView::FileSaved(Err(Error::IOFailed(FailureKind::classify(kind))))
}

/// The first task of a command: an open starts with its dialog, the read at
/// startup with the read, a save with the write where the session has a
/// location and with the dialog where it has none.
pub open spec fn first_task(command: CommandView) -> TaskView {
    match command {
        CommandView::Nothing => TaskView::Finished(None),
        CommandView::PickAndRead => TaskView::AskOpen,
        CommandView::Read(location) => TaskView::Read { location },
        CommandView::ResolveAndWrite { location: Some(location), content } => TaskView::Write {
            location,
            content,
        },
        CommandView::ResolveAndWrite { location: None, content } => TaskView::AskSave { content },
    }
}

/// The task after `event`. A dialog closed without a choice ends the command
/// with `DialogClosed`; a choice leads to the read or the write. A read or a
/// write ends the command: with what was read and where, with where it was
/// written, or with the failure of the file system. An event that does not
/// answer the task leaves the task as it is.
pub open spec fn next_task(task: TaskView, event: EventView) -> TaskView {
    match (task, event) {
        (TaskView::AskOpen, EventView::Chosen(Some(location))) => TaskView::Read { location },
        (TaskView::AskOpen, EventView::Chosen(None)) => TaskView::Finished(
            Some(MessageView::FileOpened(Err(Error::DialogClosed))),
        ),
        (TaskView::AskSave { content }, EventView::Chosen(Some(location))) => TaskView::Write {
            location,
            content,
        },
        (TaskView::AskSave { .. }, EventView::Chosen(None)) => TaskView::Finished(
            Some(MessageView::FileSaved(Err(Error::DialogClosed))),
        ),
        (TaskView::Read { location }, EventView::Read(Ok(content))) => TaskView::Finished(
            Some(MessageView::FileOpened(Ok((location, content)))),
        ),
        (TaskView::Read { .. }, EventView::Read(Err(kind))) => TaskView::Finished(
            Some(read_failed(kind)),
        ),
        (TaskView::Write { location, .. }, EventView::Written(Ok(_))) => TaskView::Finished(
            Some(MessageView::FileSaved(Ok(location))),
        ),
        (TaskView::Write { .. }, EventView::Written(Err(kind))) => {
            TaskView::Finished(Some(write_failed(kind)))
        },
        _ => task,
    }
}

/// The first task of `command`.
pub fn begin(command: Command) -> (task: Task)
    ensures
        task@ == first_task(command@),
{
    match command {
        Command::Nothing => Task::Finished(None),
        Command::PickAndRead => Task::AskOpen,
        Command::Read(location) => Task::Read { location },
        Command::ResolveAndWrite { location: Some(location), content } => Task::Write {
            location,
            content,
        },
        Command::ResolveAndWrite { location: None, content } => Task::AskSave { content },
    }
}

/// The task that follows `task` after `event`.
pub fn proceed(task: Task, event: Event) -> (next: Task)
    ensures
        next@ == next_task(task@, event@),
{
    match (task, event) {
        (Task::AskOpen, Event::Chosen(Some(location))) => Task::Read { location },
        (Task::AskOpen, Event::Chosen(None)) => Task::Finished(
            Some(Message::FileOpened(Err(Error::DialogClosed))),
        ),
        (Task::AskSave { content }, Event::Chosen(Some(location))) => Task::Write {
            location,
            content,
        },
        (Task::AskSave { .. }, Event::Chosen(None)) => Task::Finished(
            Some(Message::FileSaved(Err(Error::DialogClosed))),
        ),
        (Task::Read { location }, Event::Read(Ok(content))) => Task::Finished(
            Some(Message::FileOpened(Ok((location, content)))),
        ),
        (Task::Read { .. }, Event::Read(Err(kind))) => Task::Finished(
            Some(Message::FileOpened(Err(Error::IOFailed(FailureKind::of(kind))))),
        ),
        (Task::Write { location, .. }, Event::Written(Ok(_))) => Task::Finished(
            Some(Message::FileSaved(Ok(location))),
        ),
        (Task::Write { .. }, Event::Written(Err(kind))) => Task::Finished(
            Some(Message::FileSaved(Err(Error::IOFailed(FailureKind::of(kind))))),
        ),
        (task, _) => task,
    }
}

} // verus!
