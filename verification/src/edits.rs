//! The edit actions, seen from the text as a whole: what they do to the text
//! before the cursor and to the text after it, whatever the lines are.

use crate::document::{
    lemma_apply_wf, lemma_break_line_wf, lemma_cut_wf, lemma_selection_bounds, Action,
    DocumentView, Point,
};
use crate::text::{
    glue, lemma_join_concat, lemma_join_glue, lemma_join_grow, lemma_join_push, LINE_BREAK,
};
use vstd::prelude::*;

verus! {

/// The text is what stands before a place of it, followed by what stands
/// from that place on.
pub proof fn lemma_text_around(doc: DocumentView, p: Point)
    requires
        doc.holds(p),
    ensures
        doc.text() == doc.text_before(p) + doc.text_after(p),
{
    let line = doc.lines[p.line];
    assert(line.take(p.column) + line.skip(p.column) =~= line);
    assert(glue(doc.lines_before(p), doc.lines_after(p)) =~~= doc.lines);
    lemma_join_glue(doc.lines_before(p), doc.lines_after(p));
}

/// Nothing stands before the start of the document, and only there.
pub proof fn lemma_nothing_before_start(doc: DocumentView, p: Point)
    requires
        doc.holds(p),
    ensures
        doc.text_before(p).len() == 0 <==> p == (Point { line: 0, column: 0 }),
{
    if p.line > 0 {
        lemma_join_push(doc.lines.take(p.line), doc.lines[p.line].take(p.column));
    }
}

/// Nothing stands after the end of the document, and only there.
pub proof fn lemma_nothing_after_end(doc: DocumentView, p: Point)
    requires
        doc.holds(p),
    ensures
        doc.text_after(p).len() == 0 <==> p == (Point {
            line: doc.lines.len() - 1,
            column: doc.lines.last().len() as int,
        }),
{
    let below = doc.lines.skip(p.line + 1);
    if below.len() > 0 {
        lemma_join_concat(seq![doc.lines[p.line].skip(p.column)], below);
    }
}

/// Removing the selection leaves the text before its start and the text
/// after its end, with the cursor between the two.
pub proof fn lemma_cut_text(doc: DocumentView)
    requires
        doc.wf(),
    ensures
        doc.cut().text_before(doc.cut().cursor) == doc.text_before(doc.start()),
        doc.cut().text_after(doc.cut().cursor) == doc.text_after(doc.end()),
        doc.cut().text() == doc.text_before(doc.start()) + doc.text_after(doc.end()),
{
    lemma_selection_bounds(doc);
    lemma_cut_wf(doc);
    let after = doc.cut();
    assert(after.lines_before(after.cursor) =~~= doc.lines_before(doc.start()));
    assert(after.lines_after(after.cursor) =~~= doc.lines_after(doc.end()));
    lemma_text_around(after, after.cursor);
}

/// Breaking the line puts a line break where the selection was, or at the
/// cursor, and the cursor right after it.
pub proof fn lemma_break_line_text(doc: DocumentView)
    requires
        doc.wf(),
    ensures
        doc.break_line().text_before(doc.break_line().cursor) == doc.text_before(doc.start()).push(
            LINE_BREAK,
        ),
        doc.break_line().text_after(doc.break_line().cursor) == doc.text_after(doc.end()),
        doc.break_line().text() == doc.text_before(doc.start()).push(LINE_BREAK) + doc.text_after(
            doc.end(),
        ),
{
    lemma_cut_wf(doc);
    lemma_cut_text(doc);
    lemma_break_line_wf(doc);
    let base = doc.cut();
    let at = base.cursor;
    let after = doc.break_line();
    assert(after.lines_before(after.cursor) =~~= base.lines_before(at).push(Seq::<char>::empty()));
    lemma_join_push(base.lines_before(at), Seq::<char>::empty());
    assert(after.lines_after(after.cursor) =~~= base.lines_after(at));
    lemma_text_around(after, after.cursor);
}

/// Typing a character puts it where the selection was, or at the cursor, and
/// the cursor right after it. Nothing else of the text changes.
pub proof fn lemma_insert_text(doc: DocumentView, c: char)
    requires
        doc.wf(),
    ensures
        doc.insert(c).text_before(doc.insert(c).cursor) == doc.text_before(doc.start()).push(c),
        doc.insert(c).text_after(doc.insert(c).cursor) == doc.text_after(doc.end()),
        doc.insert(c).text() == doc.text_before(doc.start()).push(c) + doc.text_after(doc.end()),
{
    if c == LINE_BREAK {
        lemma_break_line_text(doc);
    } else {
        lemma_cut_wf(doc);
        lemma_cut_text(doc);
        lemma_apply_wf(doc, Action::InsertCharacter(c));
        let base = doc.cut();
        let at = base.cursor;
        let after = doc.insert(c);
        let before = base.lines_before(at);
        assert(after.lines_before(after.cursor) =~~= before.update(
            before.len() - 1,
            before.last().push(c),
        ));
        lemma_join_grow(before, c);
        assert(after.lines_after(after.cursor) =~~= base.lines_after(at));
        lemma_text_around(after, after.cursor);
    }
}

/// A backward delete with nothing selected removes the last character of
/// the text before the cursor, which is a line break at the start of a line,
/// and nothing where no text is before the cursor. The text after the cursor
/// stays.
pub proof fn lemma_delete_backward_text(doc: DocumentView)
    requires
        doc.wf(),
        doc.anchor is None,
    ensures
        doc.text_before(doc.cursor).len() == 0 ==> doc.delete_backward() == doc,
        doc.text_before(doc.cursor).len() > 0 ==> doc.delete_backward().text_before(
            doc.delete_backward().cursor,
        ) == doc.text_before(doc.cursor).drop_last(),
        doc.delete_backward().text_after(doc.delete_backward().cursor) == doc.text_after(
            doc.cursor,
        ),
{
    let at = doc.cursor;
    let after = doc.delete_backward();
    lemma_nothing_before_start(doc, at);
    lemma_apply_wf(doc, Action::DeleteBackward);
    if at.column > 0 {
        let shorter = after.lines_before(after.cursor);
        let removed = doc.lines[at.line][at.column - 1];
        assert(doc.lines_before(at) =~~= shorter.update(
            shorter.len() - 1,
            shorter.last().push(removed),
        ));
        lemma_join_grow(shorter, removed);
        assert(after.lines_after(after.cursor) =~~= doc.lines_after(at));
    } else if at.line > 0 {
        let shorter = after.lines_before(after.cursor);
        assert(doc.lines_before(at) =~~= shorter.push(Seq::<char>::empty()));
        lemma_join_push(shorter, Seq::<char>::empty());
        assert(after.lines_after(after.cursor) =~~= doc.lines_after(at));
    }
}

/// A forward delete with nothing selected removes the first character of
/// the text after the cursor, which is a line break at the end of a line,
/// and nothing where no text is after the cursor. The text before the cursor
/// stays, and so does the cursor.
pub proof fn lemma_delete_forward_text(doc: DocumentView)
    requires
        doc.wf(),
        doc.anchor is None,
    ensures
        doc.text_after(doc.cursor).len() == 0 ==> doc.delete_forward() == doc,
        doc.text_after(doc.cursor).len() > 0 ==> doc.delete_forward().text_after(doc.cursor)
            == doc.text_after(doc.cursor).drop_first(),
        doc.delete_forward().text_before(doc.cursor) == doc.text_before(doc.cursor),
        doc.delete_forward().cursor == doc.cursor,
{
    let at = doc.cursor;
    let after = doc.delete_forward();
    lemma_nothing_after_end(doc, at);
    lemma_apply_wf(doc, Action::DeleteForward);
    let below = doc.lines.skip(at.line + 1);
    if at.column < doc.lines[at.line].len() {
        assert(after.lines_before(at) =~~= doc.lines_before(at));
        let rest = doc.lines[at.line].skip(at.column);
        assert(after.lines_after(at) =~~= seq![rest.drop_first()] + below);
        if below.len() > 0 {
            lemma_join_concat(seq![rest], below);
            lemma_join_concat(seq![rest.drop_first()], below);
        }
    } else if at.line + 1 < doc.lines.len() {
        assert(after.lines_before(at) =~~= doc.lines_before(at));
        assert(after.lines_after(at) =~~= below);
        assert(doc.lines_after(at) =~~= seq![Seq::<char>::empty()] + below);
        lemma_join_concat(seq![Seq::<char>::empty()], below);
    }
}

} // verus!
