//! What holds of every session, whatever messages it gets.

use crate::document::{lemma_apply_wf, Action, DocumentView};
use crate::error::Error;
use crate::gateway::{first_task, next_task, EventView, TaskView};
use crate::session::{MessageView, Operation, SessionView};
use crate::text::{lemma_join_split, lemma_split_lines_shape};
use vstd::prelude::*;

verus! {

/// The session after each of `messages` in turn.
pub open spec fn run(session: SessionView, messages: Seq<MessageView>) -> SessionView
    decreases messages.len(),
{
    if messages.len() == 0 {
        session
    } else {
        run(session, messages.drop_last()).step(messages.last())
    }
}

/// A document that is loaded from a text is valid and has that very text:
/// loading and reading back loses nothing.
pub proof fn lemma_load_then_text(text: Seq<char>)
    ensures
        DocumentView::of(text).wf(),
        DocumentView::of(text).text() == text,
{
    lemma_split_lines_shape(text);
    lemma_join_split(text);
}

/// An action that does not count as a change leaves the lines as they are.
pub proof fn lemma_movement_keeps_text(document: DocumentView, action: Action)
    requires
        !action.modifies(),
    ensures
        document.apply(action).lines == document.lines,
{
}

/// An action that counts as a change leaves the session with unsaved
/// changes, whatever it was before.
pub proof fn lemma_edit_marks_dirty(session: SessionView, action: Action)
    requires
        action.modifies(),
    ensures
        session.step(MessageView::Edit(action)).is_dirty,
{
}

/// An action that does not count as a change leaves the mark of unsaved
/// changes, the location and the text as they are.
pub proof fn lemma_movement_keeps_dirty(session: SessionView, action: Action)
    requires
        !action.modifies(),
    ensures
        session.step(MessageView::Edit(action)).is_dirty == session.is_dirty,
        session.step(MessageView::Edit(action)).path == session.path,
        session.step(MessageView::Edit(action)).document.lines == session.document.lines,
{
}

/// Only an open or a save that succeeded marks a session as saved, and each
/// of them does.
pub proof fn lemma_clean_only_after_success(session: SessionView, message: MessageView)
    ensures
        message.succeeded() ==> !session.step(message).is_dirty,
        session.is_dirty && !message.succeeded() ==> session.step(message).is_dirty,
{
}

/// A session with unsaved changes keeps them through any messages among
/// which no open or save succeeds.
pub proof fn lemma_dirty_until_success(session: SessionView, messages: Seq<MessageView>)
    requires
        session.is_dirty,
        forall|i: int| 0 <= i < messages.len() ==> !(#[trigger] messages[i]).succeeded(),
    ensures
        run(session, messages).is_dirty,
    decreases messages.len(),
{
    if messages.len() > 0 {
        let front = messages.drop_last();
        assert forall|i: int| 0 <= i < front.len() implies !(#[trigger] front[i]).succeeded() by {
            assert(front[i] == messages[i]);
        }
        lemma_dirty_until_success(session, front);
        lemma_clean_only_after_success(run(session, front), messages.last());
    }
}

/// Once an action that counts as a change was applied, the session has
/// unsaved changes for as long as no open or save succeeds after it.
pub proof fn lemma_dirty_since_edit(session: SessionView, messages: Seq<MessageView>, edit: int)
    requires
        0 <= edit < messages.len(),
        messages[edit].modifies(),
        forall|i: int| edit < i < messages.len() ==> !(#[trigger] messages[i]).succeeded(),
    ensures
        run(session, messages).is_dirty,
    decreases messages.len(),
{
    let front = messages.drop_last();
    if edit < messages.len() - 1 {
        assert(front[edit] == messages[edit]);
        assert forall|i: int| edit < i < front.len() implies !(#[trigger] front[i]).succeeded() by {
            assert(front[i] == messages[i]);
        }
        lemma_dirty_since_edit(session, front, edit);
        lemma_clean_only_after_success(run(session, front), messages.last());
    }
}

/// Every message leaves a valid session valid: after it the cursor and the
/// selection are within the text.
pub proof fn lemma_step_wf(session: SessionView, message: MessageView)
    requires
        session.wf(),
    ensures
        session.step(message).wf(),
{
    match message {
        MessageView::Edit(action) => {
            lemma_apply_wf(session.document, action);
        },
        MessageView::FileOpened(Ok((location, content))) => {
            lemma_load_then_text(content);
        },
        _ => {},
    }
}

/// Any messages leave a valid session valid.
pub proof fn lemma_run_wf(session: SessionView, messages: Seq<MessageView>)
    requires
        session.wf(),
    ensures
        run(session, messages).wf(),
    decreases messages.len(),
{
    if messages.len() > 0 {
        lemma_run_wf(session, messages.drop_last());
        lemma_step_wf(run(session, messages.drop_last()), messages.last());
    }
}

/// A failure is shown until the next edit: an edit clears it, and a later
/// failure takes its place.
pub proof fn lemma_failure_until_edit(session: SessionView, action: Action, error: Error)
    ensures
        session.step(MessageView::Edit(action)).last_error is None,
        session.step(MessageView::FileOpened(Err(error))).last_error == Some(error),
        session.step(MessageView::FileSaved(Err(error))).last_error == Some(error),
{
}

/// A failed open or save changes neither the document nor its location nor
/// the mark of unsaved changes.
pub proof fn lemma_failure_keeps_document(session: SessionView, error: Error)
    ensures
        session.step(MessageView::FileOpened(Err(error))).document == session.document,
        session.step(MessageView::FileOpened(Err(error))).path == session.path,
        session.step(MessageView::FileOpened(Err(error))).is_dirty == session.is_dirty,
        session.step(MessageView::FileSaved(Err(error))).document == session.document,
        session.step(MessageView::FileSaved(Err(error))).path == session.path,
        session.step(MessageView::FileSaved(Err(error))).is_dirty == session.is_dirty,
{
}

/// A save of a document that belongs to no file asks the user for a
/// location. If the user closes the dialog, the save is answered with
/// `DialogClosed`, and after the answer the session shows that failure,
/// still has no location, and its document and mark of unsaved changes are
/// what they were before the save.
pub proof fn lemma_cancelled_save(session: SessionView)
    requires
        session.path is None,
    ensures
        first_task(session.command(MessageView::Save)) == (TaskView::AskSave {
            content: session.document.text(),
        }),
        next_task(first_task(session.command(MessageView::Save)), EventView::Chosen(None))
            == TaskView::Finished(Some(MessageView::FileSaved(Err(Error::DialogClosed)))),
        ({
            let after = session.step(MessageView::Save).step(
                MessageView::FileSaved(Err(Error::DialogClosed)),
            );
            &&& after.last_error == Some(Error::DialogClosed)
            &&& after.path is None
            &&& after.is_dirty == session.is_dirty
            &&& after.document == session.document
        }),
{
}

/// The event is of the kind that the task waits for.
pub open spec fn answers(task: TaskView, event: EventView) -> bool {
    match task {
        TaskView::AskOpen | TaskView::AskSave { .. } => event is Chosen,
        TaskView::Read { .. } => event is Read,
        TaskView::Write { .. } => event is Written,
        TaskView::Finished(_) => false,
    }
}

/// How many events a task may still need before it is finished.
pub open spec fn events_needed(task: TaskView) -> nat {
    match task {
        TaskView::AskOpen | TaskView::AskSave { .. } => 2,
        TaskView::Read { .. } | TaskView::Write { .. } => 1,
        TaskView::Finished(_) => 0,
    }
}

/// The operation that a task belongs to, and that its answer must name.
pub open spec fn serves(task: TaskView) -> Option<Operation> {
    match task {
        TaskView::AskOpen | TaskView::Read { .. } => Some(Operation::Opening),
        TaskView::AskSave { .. } | TaskView::Write { .. } => Some(Operation::Saving),
        TaskView::Finished(Some(MessageView::FileOpened(_))) => Some(Operation::Opening),
        TaskView::Finished(Some(MessageView::FileSaved(_))) => Some(Operation::Saving),
        TaskView::Finished(_) => None,
    }
}

/// Each event that a task waits for brings it nearer to its end, so that at
/// most two events finish any command; any other event changes nothing. A
/// task stays with its operation: an open is answered by `FileOpened` and a
/// save by `FileSaved`.
pub proof fn lemma_tasks_end(task: TaskView, event: EventView)
    ensures
        answers(task, event) ==> events_needed(next_task(task, event)) < events_needed(task),
        !answers(task, event) ==> next_task(task, event) == task,
        serves(next_task(task, event)) == serves(task),
        events_needed(task) == 0 <==> task is Finished,
{
}

/// The first task of a command belongs to the operation that the command
/// begins, and only the command `Nothing` is finished at once, without a
/// message.
pub proof fn lemma_first_task_serves(session: SessionView, message: MessageView)
    ensures
        message is Open ==> serves(first_task(session.command(message))) == Some(
            Operation::Opening,
        ),
        message is Save ==> serves(first_task(session.command(message))) == Some(
            Operation::Saving,
        ),
        !(message is Open || message is Save) ==> first_task(session.command(message))
            == TaskView::Finished(None),
{
}

} // verus!
