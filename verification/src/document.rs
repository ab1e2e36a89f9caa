//! The document: the lines of a text, a cursor in it and an optional
//! selection, and the edit actions that change them.

use crate::text::{join, join_lines, lemma_split_lines_shape, rows, split, split_lines, unbroken, LINE_BREAK};
use vstd::prelude::*;

verus! {

/// A place in a document, as callers give and get it: a line and a column in
/// that line, both counted from 0. The column counts characters.
#[derive(Clone, Copy, Debug, PartialEq, Eq, Structural)]
pub struct Position {
    pub line: usize,
    pub column: usize,
}

/// A place in a document, as the contracts speak of it.
pub struct Point {
    pub line: int,
    pub column: int,
}

impl View for Position {
    type V = Point;

    open spec fn view(&self) -> Point {
        Point { line: self.line as int, column: self.column as int }
    }
}

impl Point {
    /// `self` is not after `other` in reading order.
    pub open spec fn precedes(self, other: Point) -> bool {
        self.line < other.line || (self.line == other.line && self.column <= other.column)
    }

    /// The earlier of the two in reading order.
    pub open spec fn earlier(self, other: Point) -> Point {
        if self.precedes(other) {
            self
        } else {
            other
        }
    }

    /// The later of the two in reading order.
    pub open spec fn later(self, other: Point) -> Point {
        if self.precedes(other) {
            other
        } else {
            self
        }
    }
}

/// Where a cursor movement goes.
#[derive(Clone, Copy, Debug, PartialEq, Eq, Structural)]
pub enum Direction {
    /// One character back, over the line break at the start of a line.
    Left,
    /// One character on, over the line break at the end of a line.
    Right,
    /// To the same column of the line above, or to its end if it is shorter.
    Up,
    /// To the same column of the line below, or to its end if it is shorter.
    Down,
    /// To the start of the line.
    Home,
    /// To the end of the line.
    End,
    /// To the start of the document.
    DocumentStart,
    /// To the end of the document.
    DocumentEnd,
}

/// One action of the user on a document.
#[derive(Clone, Copy, Debug, PartialEq, Eq, Structural)]
pub enum Action {
    /// Put a character at the cursor, in place of the selection if there is
    /// one. A line break breaks the line.
    InsertCharacter(char),
    /// Break the line at the cursor, in place of the selection if there is one.
    InsertNewline,
    /// Remove the selection, or else the character before the cursor.
    DeleteBackward,
    /// Remove the selection, or else the character at the cursor.
    DeleteForward,
    /// Move the cursor. With `extend` the selection grows or shrinks with it;
    /// without, the selection is dropped.
    MoveCursor { direction: Direction, extend: bool },
    /// Select from `anchor` to `head` and leave the cursor at `head`. Places
    /// outside the text are moved to the nearest place in it.
    SelectRange { anchor: Position, head: Position },
}

impl Action {
    /// Whether the action counts as a change of the content: the four that
    /// insert or delete do, whatever they find to change; movements and
    /// selections do not.
    pub open spec fn modifies(self) -> bool {
        self is InsertCharacter || self is InsertNewline || self is DeleteBackward
            || self is DeleteForward
    }

    /// Whether the action counts as a change of the content.
    pub fn is_edit(&self) -> (edit: bool)
        ensures
            edit == self.modifies(),
    {
        match self {
            Action::InsertCharacter(_) => true,
            Action::InsertNewline => true,
            Action::DeleteBackward => true,
            Action::DeleteForward => true,
            Action::MoveCursor { .. } => false,
            Action::SelectRange { .. } => false,
        }
    }
}

/// What a document is: its lines, the cursor, and the other end of the
/// selection where something is selected.
pub struct DocumentView {
    pub lines: Seq<Seq<char>>,
    pub cursor: Point,
    pub anchor: Option<Point>,
}

impl DocumentView {
    /// The document of one empty line, with the cursor at its start.
    pub open spec fn empty() -> DocumentView {
        DocumentView {
            lines: seq![Seq::<char>::empty()],
            cursor: Point { line: 0, column: 0 },
            anchor: None,
        }
    }

    /// The document that holds `text`, with the cursor at its start.
    pub open spec fn of(text: Seq<char>) -> DocumentView {
        DocumentView {
            lines: split_lines(text),
            cursor: Point { line: 0, column: 0 },
            anchor: None,
        }
    }

    /// `p` is a place of the text: on one of its lines, and within that line
    /// or at its end.
    pub open spec fn holds(self, p: Point) -> bool {
        0 <= p.line < self.lines.len() && 0 <= p.column <= self.lines[p.line].len()
    }

    /// The document is valid: no line holds a line break, the cursor is a
    /// place of the text, and so is the anchor of a selection, which is never
    /// where the cursor is.
    pub open spec fn wf(self) -> bool {
        &&& unbroken(self.lines)
        &&& self.holds(self.cursor)
        &&& self.anchor matches Some(a) ==> self.holds(a) && a != self.cursor
    }

    /// The whole content as one text.
    pub open spec fn text(self) -> Seq<char> {
        join_lines(self.lines)
    }

    /// The lines up to `p`: the lines above it, and its own line as far as
    /// `p`.
    pub open spec fn lines_before(self, p: Point) -> Seq<Seq<char>> {
        self.lines.take(p.line).push(self.lines[p.line].take(p.column))
    }

    /// The lines from `p` on: what follows `p` on its line, and the lines
    /// below it.
    pub open spec fn lines_after(self, p: Point) -> Seq<Seq<char>> {
        seq![self.lines[p.line].skip(p.column)] + self.lines.skip(p.line + 1)
    }

    /// The text that stands before `p`.
    pub open spec fn text_before(self, p: Point) -> Seq<char> {
        join_lines(self.lines_before(p))
    }

    /// The text that stands from `p` on.
    pub open spec fn text_after(self, p: Point) -> Seq<char> {
        join_lines(self.lines_after(p))
    }

    /// Where the selection starts; the cursor where nothing is selected.
    pub open spec fn start(self) -> Point {
        match self.anchor {
            Some(a) => a.earlier(self.cursor),
            None => self.cursor,
        }
    }

    /// Where the selection ends; the cursor where nothing is selected.
    pub open spec fn end(self) -> Point {
        match self.anchor {
            Some(a) => a.later(self.cursor),
            None => self.cursor,
        }
    }

    /// The place of the text nearest to `p`: on the last line if `p` is below
    /// it, at the end of its line if `p` is beyond it.
    pub open spec fn nearest(self, p: Point) -> Point {
        let line = if p.line < 0 {
            0
        } else if p.line < self.lines.len() {
            p.line
        } else {
            self.lines.len() - 1
        };
        let column = if p.column < 0 {
            0
        } else if p.column <= self.lines[line].len() {
            p.column
        } else {
            self.lines[line].len() as int
        };
        Point { line, column }
    }

    /// Where a movement in `direction` from `from` ends. At the bounds of the
    /// text the movement stops: it goes as far as the text does.
    pub open spec fn target(self, from: Point, direction: Direction) -> Point {
        let here = self.lines[from.line].len() as int;
        match direction {
            Direction::Left => if from.column > 0 {
                Point { line: from.line, column: from.column - 1 }
            } else if from.line > 0 {
                Point { line: from.line - 1, column: self.lines[from.line - 1].len() as int }
            } else {
                from
            },
            Direction::Right => if from.column < here {
                Point { line: from.line, column: from.column + 1 }
            } else if from.line + 1 < self.lines.len() {
                Point { line: from.line + 1, column: 0 }
            } else {
                from
            },
            Direction::Up => if from.line > 0 {
                self.nearest(Point { line: from.line - 1, column: from.column })
            } else {
                from
            },
            Direction::Down => if from.line + 1 < self.lines.len() {
                self.nearest(Point { line: from.line + 1, column: from.column })
            } else {
                from
            },
            Direction::Home => Point { line: from.line, column: 0 },
            Direction::End => Point { line: from.line, column: here },
            Direction::DocumentStart => Point { line: 0, column: 0 },
            Direction::DocumentEnd => Point {
                line: self.lines.len() - 1,
                column: self.lines.last().len() as int,
            },
        }
    }

    /// The document with the cursor at `cursor` and the selection reaching
    /// from `anchor` to it; nothing is selected where the two are the same.
    pub open spec fn selecting(self, anchor: Point, cursor: Point) -> DocumentView {
        DocumentView {
            lines: self.lines,
            cursor,
            anchor: if anchor == cursor {
                None
            } else {
                Some(anchor)
            },
        }
    }

    /// The document without what is selected: the text before the selection
    /// and the text after it meet on one line, and the cursor stands where
    /// they meet.
    pub open spec fn cut(self) -> DocumentView {
        let start = self.start();
        let end = self.end();
        let joined = self.lines[start.line].take(start.column) + self.lines[end.line].skip(
            end.column,
        );
        DocumentView {
            lines: self.lines.take(start.line).push(joined) + self.lines.skip(end.line + 1),
            cursor: start,
            anchor: None,
        }
    }

    /// The document after `c` was typed: the selection is gone, `c` stands
    /// where the cursor was and the cursor right after it. A line break
    /// breaks the line instead.
    pub open spec fn insert(self, c: char) -> DocumentView {
        if c == LINE_BREAK {
            self.break_line()
        } else {
            let base = self.cut();
            let at = base.cursor;
            DocumentView {
                lines: base.lines.update(at.line, base.lines[at.line].insert(at.column, c)),
                cursor: Point { line: at.line, column: at.column + 1 },
                anchor: None,
            }
        }
    }

    /// The document after a line break was typed: the selection is gone, the
    /// line of the cursor ends where the cursor was, what followed on it is a
    /// new line below, and the cursor stands at the start of that line.
    pub open spec fn break_line(self) -> DocumentView {
        let base = self.cut();
        let at = base.cursor;
        let line = base.lines[at.line];
        DocumentView {
            lines: base.lines.update(at.line, line.take(at.column)).insert(
                at.line + 1,
                line.skip(at.column),
            ),
            cursor: Point { line: at.line + 1, column: 0 },
            anchor: None,
        }
    }

    /// The document after a backward delete: without the selection if there
    /// was one; else without the character before the cursor, or, at the
    /// start of a line, with that line joined to the one above. At the start
    /// of the document nothing changes.
    pub open spec fn delete_backward(self) -> DocumentView {
        let at = self.cursor;
        if self.anchor is Some {
            self.cut()
        } else if at.column > 0 {
            DocumentView {
                lines: self.lines.update(at.line, self.lines[at.line].remove(at.column - 1)),
                cursor: Point { line: at.line, column: at.column - 1 },
                anchor: None,
            }
        } else if at.line > 0 {
            let above = self.lines[at.line - 1];
            DocumentView {
                lines: self.lines.update(at.line - 1, above + self.lines[at.line]).remove(at.line),
                cursor: Point { line: at.line - 1, column: above.len() as int },
                anchor: None,
            }
        } else {
            self
        }
    }

    /// The document after a forward delete: without the selection if there
    /// was one; else without the character at the cursor, or, at the end of a
    /// line, with the line below joined to it. At the end of the document
    /// nothing changes. The cursor stays where it is.
    pub open spec fn delete_forward(self) -> DocumentView {
        let at = self.cursor;
        if self.anchor is Some {
            self.cut()
        } else if at.column < self.lines[at.line].len() {
            DocumentView {
                lines: self.lines.update(at.line, self.lines[at.line].remove(at.column)),
                cursor: at,
                anchor: None,
            }
        } else if at.line + 1 < self.lines.len() {
            DocumentView {
                lines: self.lines.update(at.line, self.lines[at.line] + self.lines[at.line + 1])
                    .remove(at.line + 1),
                cursor: at,
                anchor: None,
            }
        } else {
            self
        }
    }

    /// The document after a movement of the cursor. With `extend` the anchor
    /// stays, or is set where the cursor was, and the cursor moves. Without
    /// it the selection is dropped; a movement by one character or one line
    /// then puts the cursor at the end of the former selection that lies in
    /// its direction, and any other movement starts from the cursor.
    pub open spec fn moved(self, direction: Direction, extend: bool) -> DocumentView {
        if extend {
            let anchor = match self.anchor {
                Some(a) => a,
                None => self.cursor,
            };
            self.selecting(anchor, self.target(self.cursor, direction))
        } else {
            let to = if self.anchor is Some && (direction is Left || direction is Up) {
                self.start()
            } else if self.anchor is Some && (direction is Right || direction is Down) {
                self.end()
            } else {
                self.target(self.cursor, direction)
            };
            self.selecting(to, to)
        }
    }

    /// The document after `action`.
    pub open spec fn apply(self, action: Action) -> DocumentView {
        match action {
            Action::InsertCharacter(c) => self.insert(c),
            Action::InsertNewline => self.break_line(),
            Action::DeleteBackward => self.delete_backward(),
            Action::DeleteForward => self.delete_forward(),
            Action::MoveCursor { direction, extend } => self.moved(direction, extend),
            Action::SelectRange { anchor, head } => self.selecting(
                self.nearest(anchor@),
                self.nearest(head@),
            ),
        }
    }
}

/// A selection's two ends are places of the text, in reading order.
pub proof fn lemma_selection_bounds(doc: DocumentView)
    requires
        doc.wf(),
    ensures
        doc.holds(doc.start()),
        doc.holds(doc.end()),
        doc.start().precedes(doc.end()),
        doc.anchor is None ==> doc.start() == doc.cursor && doc.end() == doc.cursor,
{
}

/// The nearest place of the text is a place of the text, and a place of the
/// text is its own nearest place.
pub proof fn lemma_nearest_holds(doc: DocumentView, p: Point)
    requires
        doc.lines.len() >= 1,
    ensures
        doc.holds(doc.nearest(p)),
        doc.holds(p) ==> doc.nearest(p) == p,
{
}

/// A movement from a place of the text ends at a place of the text.
pub proof fn lemma_target_holds(doc: DocumentView, from: Point, direction: Direction)
    requires
        doc.holds(from),
    ensures
        doc.holds(doc.target(from, direction)),
{
}

/// Removing the selection leaves a valid document with nothing selected; one
/// with nothing selected it leaves as it is.
pub proof fn lemma_cut_wf(doc: DocumentView)
    requires
        doc.wf(),
    ensures
        doc.cut().wf(),
        doc.cut().anchor is None,
        doc.anchor is None ==> doc.cut() == doc,
{
    if doc.anchor is None {
        let at = doc.cursor;
        assert(doc.lines[at.line].take(at.column) + doc.lines[at.line].skip(at.column)
            =~= doc.lines[at.line]);
        assert(doc.cut().lines =~= doc.lines);
    }
}

/// Breaking the line at the cursor leaves a valid document valid.
pub proof fn lemma_break_line_wf(doc: DocumentView)
    requires
        doc.wf(),
    ensures
        doc.break_line().wf(),
{
    lemma_cut_wf(doc);
}

/// Typing a character leaves a valid document valid.
pub proof fn lemma_insert_wf(doc: DocumentView, c: char)
    requires
        doc.wf(),
    ensures
        doc.insert(c).wf(),
{
    lemma_cut_wf(doc);
    lemma_break_line_wf(doc);
}

/// A backward delete leaves a valid document valid.
pub proof fn lemma_delete_backward_wf(doc: DocumentView)
    requires
        doc.wf(),
    ensures
        doc.delete_backward().wf(),
{
    lemma_cut_wf(doc);
}

/// A forward delete leaves a valid document valid.
pub proof fn lemma_delete_forward_wf(doc: DocumentView)
    requires
        doc.wf(),
    ensures
        doc.delete_forward().wf(),
{
    lemma_cut_wf(doc);
}

/// Every action leaves a valid document valid: the cursor and the selection
/// stay within the text, whatever the action and wherever it was asked to go.
pub proof fn lemma_apply_wf(doc: DocumentView, action: Action)
    requires
        doc.wf(),
    ensures
        doc.apply(action).wf(),
{
    match action {
        Action::InsertCharacter(c) => lemma_insert_wf(doc, c),
        Action::InsertNewline => lemma_break_line_wf(doc),
        Action::DeleteBackward => lemma_delete_backward_wf(doc),
        Action::DeleteForward => lemma_delete_forward_wf(doc),
        Action::MoveCursor { direction, extend } => {
            lemma_selection_bounds(doc);
            lemma_target_holds(doc, doc.cursor, direction);
        },
        Action::SelectRange { anchor, head } => {
            lemma_nearest_holds(doc, anchor@);
            lemma_nearest_holds(doc, head@);
        },
    }
}

/// The parts of a document, as the edit actions work on them. Nothing keeps
/// a buffer valid but the contracts of its methods.
struct Buffer {
    lines: Vec<Vec<char>>,
    cursor: Position,
    anchor: Option<Position>,
}

impl View for Buffer {
    type V = DocumentView;

    closed spec fn view(&self) -> DocumentView {
        DocumentView {
            lines: rows(self.lines@),
            cursor: self.cursor@,
            anchor: match self.anchor {
                Some(a) => Some(a@),
                None => None,
            },
        }
    }
}

impl Buffer {
    fn new() -> (buffer: Buffer)
        ensures
            buffer@ == DocumentView::empty(),
    {
        let mut lines: Vec<Vec<char>> = Vec::new();
        lines.push(Vec::new());
        let buffer = Buffer { lines, cursor: Position { line: 0, column: 0 }, anchor: None };
        assert(buffer@.lines =~= DocumentView::empty().lines);
        buffer
    }

    fn of(content: &str) -> (buffer: Buffer)
        ensures
            buffer@ == DocumentView::of(content@),
    {
        Buffer { lines: split(content), cursor: Position { line: 0, column: 0 }, anchor: None }
    }

    fn bounds(&self) -> (ends: (Position, Position))
        ensures
            ends.0@ == self@.start(),
            ends.1@ == self@.end(),
    {
        let at = self.cursor;
        match self.anchor {
            None => (at, at),
            Some(a) => {
                if a.line < at.line || (a.line == at.line && a.column <= at.column) {
                    (a, at)
                } else {
                    (at, a)
                }
            },
        }
    }

    fn nearest(&self, p: Position) -> (near: Position)
        requires
            self@.wf(),
        ensures
            near@ == self@.nearest(p@),
    {
        let line = if p.line < self.lines.len() {
            p.line
        } else {
            self.lines.len() - 1
        };
        let length = self.lines[line].len();
        let column = if p.column <= length {
            p.column
        } else {
            length
        };
        Position { line, column }
    }

    fn target(&self, from: Position, direction: Direction) -> (to: Position)
        requires
            self@.wf(),
            self@.holds(from@),
        ensures
            to@ == self@.target(from@, direction),
    {
        let here = self.lines[from.line].len();
        let count = self.lines.len();
        match direction {
            Direction::Left => {
                if from.column > 0 {
                    Position { line: from.line, column: from.column - 1 }
                } else if from.line > 0 {
                    Position { line: from.line - 1, column: self.lines[from.line - 1].len() }
                } else {
                    from
                }
            },
            Direction::Right => {
                if from.column < here {
                    Position { line: from.line, column: from.column + 1 }
                } else if from.line + 1 < count {
                    Position { line: from.line + 1, column: 0 }
                } else {
                    from
                }
            },
            Direction::Up => {
                if from.line > 0 {
                    self.nearest(Position { line: from.line - 1, column: from.column })
                } else {
                    from
                }
            },
            Direction::Down => {
                if from.line + 1 < count {
                    self.nearest(Position { line: from.line + 1, column: from.column })
                } else {
                    from
                }
            },
            Direction::Home => Position { line: from.line, column: 0 },
            Direction::End => Position { line: from.line, column: here },
            Direction::DocumentStart => Position { line: 0, column: 0 },
            Direction::DocumentEnd => {
                Position { line: count - 1, column: self.lines[count - 1].len() }
            },
        }
    }

    fn select(&mut self, anchor: Position, cursor: Position)
        ensures
            final(self)@ == old(self)@.selecting(anchor@, cursor@),
    {
        self.cursor = cursor;
        self.anchor = if anchor.line == cursor.line && anchor.column == cursor.column {
            None
        } else {
            Some(anchor)
        };
    }

    fn move_cursor(&mut self, direction: Direction, extend: bool)
        requires
            old(self)@.wf(),
        ensures
            final(self)@ == old(self)@.moved(direction, extend),
    {
        if extend {
            let anchor = match self.anchor {
                Some(a) => a,
                None => self.cursor,
            };
            let to = self.target(self.cursor, direction);
            self.select(anchor, to);
        } else {
            let (start, end) = self.bounds();
            let selected = self.anchor.is_some();
            let to = match direction {
                Direction::Left | Direction::Up => if selected {
                    start
                } else {
                    self.target(self.cursor, direction)
                },
                Direction::Right | Direction::Down => if selected {
                    end
                } else {
                    self.target(self.cursor, direction)
                },
                _ => self.target(self.cursor, direction),
            };
            self.select(to, to);
        }
    }

    fn cut(&mut self)
        requires
            old(self)@.wf(),
        ensures
            final(self)@ == old(self)@.cut(),
            final(self)@.wf(),
    {
        proof {
            lemma_selection_bounds(self@);
            lemma_cut_wf(self@);
        }
        if self.anchor.is_some() {
            let (start, end) = self.bounds();
            assert(end.line < self.lines.len());
            let mut rest = self.lines.split_off(end.line + 1);
            let mut tail = self.lines[end.line].split_off(end.column);
            self.lines.truncate(start.line + 1);
            self.lines[start.line].truncate(start.column);
            self.lines[start.line].append(&mut tail);
            self.lines.append(&mut rest);
            self.cursor = start;
            self.anchor = None;
            assert(self@.lines =~~= old(self)@.cut().lines);
        }
    }

    fn insert(&mut self, c: char)
        requires
            old(self)@.wf(),
        ensures
            final(self)@ == old(self)@.insert(c),
    {
        if c == LINE_BREAK {
            self.break_line();
        } else {
            self.cut();
            let at = self.cursor;
            self.lines[at.line].insert(at.column, c);
            assert(at.column < self.lines[at.line as int].len());
            self.cursor = Position { line: at.line, column: at.column + 1 };
            assert(self@.lines =~~= old(self)@.insert(c).lines);
        }
    }

    fn break_line(&mut self)
        requires
            old(self)@.wf(),
        ensures
            final(self)@ == old(self)@.break_line(),
    {
        self.cut();
        let at = self.cursor;
        assert(at.line < self.lines.len());
        let below = self.lines[at.line].split_off(at.column);
        self.lines.insert(at.line + 1, below);
        self.cursor = Position { line: at.line + 1, column: 0 };
        assert(self@.lines =~~= old(self)@.break_line().lines);
    }

    fn delete_backward(&mut self)
        requires
            old(self)@.wf(),
        ensures
            final(self)@ == old(self)@.delete_backward(),
    {
        let at = self.cursor;
        if self.anchor.is_some() {
            self.cut();
        } else if at.column > 0 {
            self.lines[at.line].remove(at.column - 1);
            self.cursor = Position { line: at.line, column: at.column - 1 };
            assert(self@.lines =~~= old(self)@.delete_backward().lines);
        } else if at.line > 0 {
            let mut below = self.lines.remove(at.line);
            let length = self.lines[at.line - 1].len();
            self.lines[at.line - 1].append(&mut below);
            self.cursor = Position { line: at.line - 1, column: length };
            assert(self@.lines =~~= old(self)@.delete_backward().lines);
        }
    }

    fn delete_forward(&mut self)
        requires
            old(self)@.wf(),
        ensures
            final(self)@ == old(self)@.delete_forward(),
    {
        let at = self.cursor;
        let count = self.lines.len();
        if self.anchor.is_some() {
            self.cut();
        } else if at.column < self.lines[at.line].len() {
            self.lines[at.line].remove(at.column);
            assert(self@.lines =~~= old(self)@.delete_forward().lines);
        } else if at.line + 1 < count {
            let mut below = self.lines.remove(at.line + 1);
            self.lines[at.line].append(&mut below);
            assert(self@.lines =~~= old(self)@.delete_forward().lines);
        }
    }

    fn apply(&mut self, action: Action)
        requires
            old(self)@.wf(),
        ensures
            final(self)@ == old(self)@.apply(action),
    {
        match action {
            Action::InsertCharacter(c) => self.insert(c),
            Action::InsertNewline => self.break_line(),
            Action::DeleteBackward => self.delete_backward(),
            Action::DeleteForward => self.delete_forward(),
            Action::MoveCursor { direction, extend } => self.move_cursor(direction, extend),
            Action::SelectRange { anchor, head } => {
                let from = self.nearest(anchor);
                let to = self.nearest(head);
                self.select(from, to);
            },
        }
    }
}

/// A text with a cursor and an optional selection in it. A document is valid
/// at all times: see [`DocumentView::wf`].
pub struct Document {
    buffer: Buffer,
}

impl View for Document {
    type V = DocumentView;

    closed spec fn view(&self) -> DocumentView {
        self.buffer@
    }
}

impl Document {
    #[verifier::type_invariant]
    spec fn valid(self) -> bool {
        self.buffer@.wf()
    }

    /// An empty document: one empty line, the cursor at its start.
    pub fn new() -> (doc: Document)
        ensures
            doc@ == DocumentView::empty(),
            doc@.wf(),
    {
        Document { buffer: Buffer::new() }
    }

    /// Replaces the whole content by `content` and puts the cursor at the
    /// start. Nothing of `content` is changed or dropped on the way.
    pub fn load(&mut self, content: &str)
        ensures
            final(self)@ == DocumentView::of(content@),
            final(self)@.wf(),
    {
        proof {
            lemma_split_lines_shape(content@);
        }
        self.buffer = Buffer::of(content);
    }

    /// The whole content as one string: the lines, joined by line breaks.
    pub fn text(&self) -> (content: String)
        ensures
            content@ == self@.text(),
    {
        join(&self.buffer.lines)
    }

    /// The number of lines, which is at least one.
    pub fn line_count(&self) -> (count: usize)
        ensures
            count == self@.lines.len(),
            count >= 1,
    {
        proof {
            use_type_invariant(self);
        }
        self.buffer.lines.len()
    }

    /// Where the cursor is, counted from 0.
    pub fn cursor(&self) -> (at: Position)
        ensures
            at@ == self@.cursor,
            self@.holds(at@),
    {
        proof {
            use_type_invariant(self);
        }
        self.buffer.cursor
    }

    /// Where the cursor is, as a status line shows it: the line and the
    /// column, counted from 1. A column that no `usize` can hold is given as
    /// the largest one.
    pub fn cursor_position(&self) -> (at: (usize, usize))
        ensures
            at.0 == self@.cursor.line + 1,
            at.1 == if self@.cursor.column < usize::MAX {
                self@.cursor.column + 1
            } else {
                usize::MAX as int
            },
    {
        proof {
            use_type_invariant(self);
        }
        assert(self.buffer.cursor.line < self.buffer.lines.len());
        (self.buffer.cursor.line + 1, self.buffer.cursor.column.saturating_add(1))
    }

    /// The two ends of the selection in reading order, if anything is
    /// selected.
    pub fn selection(&self) -> (ends: Option<(Position, Position)>)
        ensures
            ends is Some <==> self@.anchor is Some,
            ends matches Some(pair) ==> pair.0@ == self@.start() && pair.1@ == self@.end(),
    {
        if self.buffer.anchor.is_some() {
            Some(self.buffer.bounds())
        } else {
            None
        }
    }

    /// Applies `action` and says whether it counts as a change of the
    /// content.
    pub fn apply(&mut self, action: Action) -> (modified: bool)
        ensures
            final(self)@ == old(self)@.apply(action),
            final(self)@.wf(),
            modified == action.modifies(),
    {
        proof {
            use_type_invariant(&*self);
            lemma_apply_wf(self@, action);
        }
        let mut buffer = Buffer::new();
        std::mem::swap(&mut self.buffer, &mut buffer);
        buffer.apply(action);
        self.buffer = buffer;
        action.is_edit()
    }
}

} // verus!
