//! The editor session: one document, the file it belongs to, whether it has
//! unsaved changes, the last failure, and the operation in flight. Messages
//! change it one at a time; what they ask of the file access comes back as a
//! command.

use crate::document::{Action, Document, DocumentView};
use crate::error::Error;
use crate::laws::lemma_step_wf;
use vstd::prelude::*;

verus! {

/// An operation that the file access carries out while the session goes on.
#[derive(Clone, Copy, Debug, PartialEq, Eq, Structural)]
pub enum Operation {
    /// A file is being chosen and read.
    Opening,
    /// The document is being written.
    Saving,
}

/// Whether the session waits for the file access.
#[derive(Clone, Copy, Debug, PartialEq, Eq, Structural)]
pub enum Activity {
    /// No operation was begun that has not been answered.
    Idle,
    /// The operation most recently begun, as long as its kind has not been
    /// answered.
    Busy(Operation),
}

/// What happens to a session: a request of the user, or the answer of the
/// file access to an earlier command.
#[derive(Debug, PartialEq, Eq)]
pub enum Message {
    /// The user acted on the document.
    Edit(Action),
    /// The user asked for an empty document.
    New,
    /// The user asked to open a file.
    Open,
    /// The user asked to save the document.
    Save,
    /// An open ended: with the location and the content of the file, or with
    /// the reason why there is none.
    FileOpened(Result<(String, String), Error>),
    /// A save ended: with the location that was written, or with the reason
    /// why nothing was.
    FileSaved(Result<String, Error>),
}

/// A message with its texts as sequences of characters.
pub enum MessageView {
    Edit(Action),
    New,
    Open,
    Save,
    FileOpened(Result<(Seq<char>, Seq<char>), Error>),
    FileSaved(Result<Seq<char>, Error>),
}

impl View for Message {
    type V = MessageView;

    open spec fn view(&self) -> MessageView {
        match *self {
            Message::Edit(action) => MessageView::Edit(action),
            Message::New => MessageView::New,
            Message::Open => MessageView::Open,
            Message::Save => MessageView::Save,
            Message::FileOpened(Ok((location, content))) => MessageView::FileOpened(
                Ok((location@, content@)),
            ),
            Message::FileOpened(Err(error)) => MessageView::FileOpened(Err(error)),
            Message::FileSaved(Ok(location)) => MessageView::FileSaved(Ok(location@)),
            Message::FileSaved(Err(error)) => MessageView::FileSaved(Err(error)),
        }
    }
}

impl Clone for Message {
    fn clone(&self) -> (copy: Message)
        ensures
            copy@ == self@,
    {
        match self {
            Message::Edit(action) => Message::Edit(*action),
            Message::New => Message::New,
            Message::Open => Message::Open,
            Message::Save => Message::Save,
            Message::FileOpened(Ok((location, content))) => Message::FileOpened(
                Ok((location.clone(), content.clone())),
            ),
            Message::FileOpened(Err(error)) => Message::FileOpened(Err(*error)),
            Message::FileSaved(Ok(location)) => Message::FileSaved(Ok(location.clone())),
            Message::FileSaved(Err(error)) => Message::FileSaved(Err(*error)),
        }
    }
}

impl MessageView {
    /// The message says that a file was read or written.
    pub open spec fn succeeded(self) -> bool {
        self matches MessageView::FileOpened(Ok(_)) || self matches MessageView::FileSaved(Ok(_))
    }

    /// The message is an action that counts as a change of the content.
    pub open spec fn modifies(self) -> bool {
        self matches MessageView::Edit(action) && action.modifies()
    }
}

/// What the session asks of the file access in answer to a message. The
/// answer to the command comes back as a message.
#[derive(Debug, PartialEq, Eq)]
pub enum Command {
    /// Nothing.
    Nothing,
    /// Let the user choose a file and read it; answer with `FileOpened`.
    PickAndRead,
    /// Read the file at the location, without asking; answer with
    /// `FileOpened`.
    Read(String),
    /// Write `content` to `location`, or, where there is none, to a location
    /// that the user chooses; answer with `FileSaved`.
    ResolveAndWrite { location: Option<String>, content: String },
}

/// A command with its texts as sequences of characters.
pub enum CommandView {
    Nothing,
    PickAndRead,
    Read(Seq<char>),
    ResolveAndWrite { location: Option<Seq<char>>, content: Seq<char> },
}

impl View for Command {
    type V = CommandView;

    open spec fn view(&self) -> CommandView {
        match *self {
            Command::Nothing => CommandView::Nothing,
            Command::PickAndRead => CommandView::PickAndRead,
            Command::Read(location) => CommandView::Read(location@),
            Command::ResolveAndWrite { location: Some(location), content } => {
                CommandView::ResolveAndWrite { location: Some(location@), content: content@ }
            },
            Command::ResolveAndWrite { location: None, content } => {
                CommandView::ResolveAndWrite { location: None, content: content@ }
            },
        }
    }
}

/// The words of the status line for a document that belongs to no file.
pub open spec fn new_file_label() -> Seq<char> {
    "New File"@
}

/// What a session is.
pub struct SessionView {
    /// Where the document was last read from or written to, if anywhere.
    pub path: Option<Seq<char>>,
    pub document: DocumentView,
    /// The document may differ from what the file at `path` holds.
    pub is_dirty: bool,
    /// The failure of the last open or save that failed, until the next edit.
    pub last_error: Option<Error>,
    pub activity: Activity,
}

impl SessionView {
    /// The session at its start: an empty document that belongs to no file
    /// and counts as unsaved, no failure, nothing in flight.
    pub open spec fn initial() -> SessionView {
        SessionView {
            path: None,
            document: DocumentView::empty(),
            is_dirty: true,
            last_error: None,
            activity: Activity::Idle,
        }
    }

    /// The session is valid: its document is.
    pub open spec fn wf(self) -> bool {
        self.document.wf()
    }

    /// The activity after an operation of kind `ended` was answered.
    pub open spec fn settled(self, ended: Operation) -> Activity {
        if self.activity == Activity::Busy(ended) {
            Activity::Idle
        } else {
            self.activity
        }
    }

    /// The session after `message`.
    ///
    /// An edit changes the document, marks it unsaved if the action counts
    /// as a change, and clears the failure. `New` puts an empty document in
    /// its place that belongs to no file and counts as unsaved. `Open` and
    /// `Save` only note what is begun; they are accepted while another
    /// operation is in flight. An answer is applied whenever it arrives: a
    /// successful open replaces document and location, marks the document
    /// saved and clears the failure; a successful save sets the location and
    /// marks the document saved; a failed one records the failure and
    /// changes nothing else but the activity.
    pub open spec fn step(self, message: MessageView) -> SessionView {
        match message {
            MessageView::Edit(action) => SessionView {
                document: self.document.apply(action),
                is_dirty: self.is_dirty || action.modifies(),
                last_error: None,
                ..self
            },
            MessageView::New => SessionView {
                path: None,
                document: DocumentView::empty(),
                is_dirty: true,
                ..self
            },
            MessageView::Open => SessionView {
                activity: Activity::Busy(Operation::Opening),
                ..self
            },
            MessageView::Save => SessionView {
                activity: Activity::Busy(Operation::Saving),
                ..self
            },
            MessageView::FileOpened(Ok((location, content))) => SessionView {
                path: Some(location),
                document: DocumentView::of(content),
                is_dirty: false,
                last_error: None,
                activity: self.settled(Operation::Opening),
            },
            MessageView::FileOpened(Err(error)) => SessionView {
                last_error: Some(error),
                activity: self.settled(Operation::Opening),
                ..self
            },
            MessageView::FileSaved(Ok(location)) => SessionView {
                path: Some(location),
                is_dirty: false,
                activity: self.settled(Operation::Saving),
                ..self
            },
            MessageView::FileSaved(Err(error)) => SessionView {
                last_error: Some(error),
                activity: self.settled(Operation::Saving),
                ..self
            },
        }
    }

    /// What `message` asks of the file access: `Open` a choice and a read,
    /// `Save` a write of the whole text to the session's location, any other
    /// message nothing.
    pub open spec fn command(self, message: MessageView) -> CommandView {
        match message {
            MessageView::Open => CommandView::PickAndRead,
            MessageView::Save => CommandView::ResolveAndWrite {
                location: self.path,
                content: self.document.text(),
            },
            _ => CommandView::Nothing,
        }
    }

    /// The words of the status line: the failure if there is one, else the
    /// location of the file, else the label of a new file.
    pub open spec fn status(self) -> Seq<char> {
        match self.last_error {
            Some(error) => error.text(),
            None => match self.path {
                Some(location) => location,
                None => new_file_label(),
            },
        }
    }
}

/// One open document and what the editor knows about it.
pub struct EditorSession {
    path: Option<String>,
    document: Document,
    is_dirty: bool,
    last_error: Option<Error>,
    activity: Activity,
}

impl View for EditorSession {
    type V = SessionView;

    closed spec fn view(&self) -> SessionView {
        SessionView {
            path: match self.path {
                Some(location) => Some(location@),
                None => None,
            },
            document: self.document@,
            is_dirty: self.is_dirty,
            last_error: self.last_error,
            activity: self.activity,
        }
    }
}

impl EditorSession {
    /// A session at its start, and the command to read the file at
    /// `default_location` into it. If that read fails, the answer reports it
    /// as any failed open is reported.
    pub fn new(default_location: String) -> (start: (EditorSession, Command))
        ensures
            start.0@ == SessionView::initial(),
            start.0@.wf(),
            start.1@ == CommandView::Read(default_location@),
    {
        let session = EditorSession {
            path: None,
            document: Document::new(),
            is_dirty: true,
            last_error: None,
            activity: Activity::Idle,
        };
        (session, Command::Read(default_location))
    }

    /// Applies `message` and returns what it asks of the file access. A
    /// valid session stays valid.
    pub fn update(&mut self, message: Message) -> (command: Command)
        ensures
            final(self)@ == old(self)@.step(message@),
            command@ == old(self)@.command(message@),
            old(self)@.wf() ==> final(self)@.wf(),
    {
        proof {
            if self@.wf() {
                lemma_step_wf(self@, message@);
            }
        }
        match message {
            Message::Edit(action) => {
                let modified = self.document.apply(action);
                self.is_dirty = self.is_dirty || modified;
                self.last_error = None;
                Command::Nothing
            },
            Message::New => {
                self.path = None;
                self.document = Document::new();
                self.is_dirty = true;
                Command::Nothing
            },
            Message::Open => {
                self.activity = Activity::Busy(Operation::Opening);
                Command::PickAndRead
            },
            Message::Save => {
                self.activity = Activity::Busy(Operation::Saving);
                let location = match &self.path {
                    Some(location) => Some(location.clone()),
                    None => None,
                };
                Command::ResolveAndWrite { location, content: self.document.text() }
            },
            Message::FileOpened(Ok((location, content))) => {
                self.document.load(content.as_str());
                self.path = Some(location);
                self.is_dirty = false;
                self.last_error = None;
                self.settle(Operation::Opening);
                Command::Nothing
            },
            Message::FileOpened(Err(error)) => {
                self.last_error = Some(error);
                self.settle(Operation::Opening);
                Command::Nothing
            },
            Message::FileSaved(Ok(location)) => {
                self.path = Some(location);
                self.is_dirty = false;
                self.settle(Operation::Saving);
                Command::Nothing
            },
            Message::FileSaved(Err(error)) => {
                self.last_error = Some(error);
                self.settle(Operation::Saving);
                Command::Nothing
            },
        }
    }

    fn settle(&mut self, ended: Operation)
        ensures
            final(self)@ == (SessionView { activity: old(self)@.settled(ended), ..old(self)@ }),
    {
        let waits = match self.activity {
            Activity::Busy(begun) => begun == ended,
            Activity::Idle => false,
        };
        if waits {
            self.activity = Activity::Idle;
        }
    }

    /// The location of the file that the document belongs to, if any.
    pub fn path(&self) -> (location: Option<&String>)
        ensures
            location is Some <==> self@.path is Some,
            location matches Some(l) ==> self@.path == Some(l@),
    {
        match &self.path {
            Some(location) => Some(location),
            None => None,
        }
    }

    /// The document.
    pub fn document(&self) -> (document: &Document)
        ensures
            document@ == self@.document,
    {
        &self.document
    }

    /// Whether the document may differ from what its file holds.
    pub fn is_dirty(&self) -> (dirty: bool)
        ensures
            dirty == self@.is_dirty,
    {
        self.is_dirty
    }

    /// The failure of the last open or save that failed, if no edit came
    /// after it.
    pub fn last_error(&self) -> (error: Option<Error>)
        ensures
            error == self@.last_error,
    {
        self.last_error
    }

    /// Whether the session waits for the file access, and for what.
    pub fn state(&self) -> (activity: Activity)
        ensures
            activity == self@.activity,
    {
        self.activity
    }

    /// Whether the save command is offered: only while there are unsaved
    /// changes.
    pub fn can_save(&self) -> (offered: bool)
        ensures
            offered == self@.is_dirty,
    {
        self.is_dirty
    }

    /// The words of the status line.
    pub fn status(&self) -> (words: String)
        ensures
            words@ == self@.status(),
    {
        match self.last_error {
            Some(error) => error.message().to_owned(),
            None => match &self.path {
                Some(location) => location.clone(),
                None => "New File".to_owned(),
            },
        }
    }
}

} // verus!
