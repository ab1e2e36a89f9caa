//! Text as lines: splitting a string at its line breaks and joining the lines
//! again, with the proofs that the two undo each other.

use vstd::prelude::*;
use vstd::std_specs::iter::IteratorSpec;

verus! {

/// The character that separates two lines.
pub const LINE_BREAK: char = '\n';

/// The lines of `text`: the pieces between its line breaks, in order. A text
/// with `n` line breaks has `n + 1` lines, so the empty text has one empty
/// line and a text that ends in a line break has an empty last line.
pub open spec fn split_lines(text: Seq<char>) -> Seq<Seq<char>>
    decreases text.len(),
{
    if text.len() == 0 {
        seq![Seq::<char>::empty()]
    } else {
        let before = split_lines(text.drop_last());
        if text.last() == LINE_BREAK {
            before.push(Seq::<char>::empty())
        } else {
            before.update(before.len() - 1, before.last().push(text.last()))
        }
    }
}

/// The text of `lines`: the lines in order, with one line break between each
/// two neighbours and none after the last.
pub open spec fn join_lines(lines: Seq<Seq<char>>) -> Seq<char>
    decreases lines.len(),
{
    if lines.len() == 0 {
        Seq::<char>::empty()
    } else if lines.len() == 1 {
        lines[0]
    } else {
        join_lines(lines.drop_last()) + seq![LINE_BREAK] + lines.last()
    }
}

/// No line of `lines` holds a line break.
pub open spec fn unbroken(lines: Seq<Seq<char>>) -> bool {
    forall|i: int, j: int|
        0 <= i < lines.len() && 0 <= j < lines[i].len() ==> #[trigger] lines[i][j] != LINE_BREAK
}

/// What a vector of lines holds, as a sequence of sequences.
pub open spec fn rows(lines: Seq<Vec<char>>) -> Seq<Seq<char>> {
    lines.map_values(|line: Vec<char>| line@)
}

/// Splitting gives at least one line, and no line holds a line break.
pub proof fn lemma_split_lines_shape(text: Seq<char>)
    ensures
        split_lines(text).len() >= 1,
        unbroken(split_lines(text)),
    decreases text.len(),
{
    if text.len() > 0 {
        lemma_split_lines_shape(text.drop_last());
    }
}

/// Joining the lines of a text gives the text back: nothing is lost or added
/// by splitting.
pub proof fn lemma_join_split(text: Seq<char>)
    ensures
        join_lines(split_lines(text)) == text,
    decreases text.len(),
{
    if text.len() > 0 {
        let shorter = text.drop_last();
        let before = split_lines(shorter);
        lemma_split_lines_shape(shorter);
        lemma_join_split(shorter);
        if text.last() == LINE_BREAK {
            lemma_join_push(before, Seq::<char>::empty());
        } else {
            lemma_join_grow(before, text.last());
        }
    }
}

/// Splitting the text of at least one line, none of which holds a line break,
/// gives the same lines back: such lines are the only ones with that text.
pub proof fn lemma_split_join(lines: Seq<Seq<char>>)
    requires
        lines.len() >= 1,
        unbroken(lines),
    ensures
        split_lines(join_lines(lines)) == lines,
    decreases lines.len(),
{
    if lines.len() == 1 {
        lemma_split_unbroken(lines[0]);
    } else {
        let front = lines.drop_last();
        assert(unbroken(front)) by {
            assert forall|i: int, j: int|
                0 <= i < front.len() && 0 <= j < front[i].len() implies #[trigger] front[i][j]
                != LINE_BREAK by {
                assert(front[i][j] == lines[i][j]);
            }
        }
        lemma_split_join(front);
        lemma_split_append(join_lines(front), lines.last());
    }
}

/// A text without a line break is one line.
pub proof fn lemma_split_unbroken(line: Seq<char>)
    requires
        forall|j: int| 0 <= j < line.len() ==> line[j] != LINE_BREAK,
    ensures
        split_lines(line) == seq![line],
    decreases line.len(),
{
    if line.len() == 0 {
        assert(line =~= Seq::<char>::empty());
    } else {
        lemma_split_unbroken(line.drop_last());
        assert(line.drop_last().push(line.last()) =~= line);
    }
}

/// A line break and a line without one, put after a text, add that line to
/// the text's lines.
pub proof fn lemma_split_append(text: Seq<char>, line: Seq<char>)
    requires
        forall|j: int| 0 <= j < line.len() ==> line[j] != LINE_BREAK,
    ensures
        split_lines(text + seq![LINE_BREAK] + line) == split_lines(text).push(line),
    decreases line.len(),
{
    let whole = text + seq![LINE_BREAK] + line;
    if line.len() == 0 {
        assert(whole.drop_last() =~= text);
        assert(line =~= Seq::<char>::empty());
    } else {
        let shorter = line.drop_last();
        lemma_split_append(text, shorter);
        assert(whole.drop_last() =~= text + seq![LINE_BREAK] + shorter);
        assert(shorter.push(line.last()) =~= line);
    }
}

/// The text of a line put after some lines is their text, a line break and
/// the line.
pub proof fn lemma_join_push(lines: Seq<Seq<char>>, line: Seq<char>)
    requires
        lines.len() >= 1,
    ensures
        join_lines(lines.push(line)) == join_lines(lines) + seq![LINE_BREAK] + line,
{
    assert(lines.push(line).drop_last() =~= lines);
}

/// A character put at the end of the last line comes at the end of the text.
pub proof fn lemma_join_grow(lines: Seq<Seq<char>>, c: char)
    requires
        lines.len() >= 1,
    ensures
        join_lines(lines.update(lines.len() - 1, lines.last().push(c))) == join_lines(lines).push(
            c,
        ),
{
    let grown = lines.update(lines.len() - 1, lines.last().push(c));
    if lines.len() > 1 {
        assert(grown.drop_last() =~= lines.drop_last());
    }
    assert(join_lines(grown) =~= join_lines(lines).push(c));
}

/// The text of two runs of lines, one after the other, is the text of the
/// first, a line break and the text of the second.
pub proof fn lemma_join_concat(first: Seq<Seq<char>>, second: Seq<Seq<char>>)
    requires
        first.len() >= 1,
        second.len() >= 1,
    ensures
        join_lines(first + second) == join_lines(first) + seq![LINE_BREAK] + join_lines(second),
    decreases second.len(),
{
    if second.len() == 1 {
        assert(first + second =~= first.push(second[0]));
        lemma_join_push(first, second[0]);
    } else {
        let front = second.drop_last();
        lemma_join_concat(first, front);
        assert(first + second =~= (first + front).push(second.last()));
        lemma_join_push(first + front, second.last());
    }
}

/// Two runs of lines of which the last line of the first and the first line
/// of the second are made one line: what they hold when the two texts are
/// written one after the other without a line break between them.
pub open spec fn glue(first: Seq<Seq<char>>, second: Seq<Seq<char>>) -> Seq<Seq<char>> {
    first.drop_last().push(first.last() + second[0]) + second.drop_first()
}

/// The text of two glued runs of lines is the text of the first followed by
/// the text of the second.
pub proof fn lemma_join_glue(first: Seq<Seq<char>>, second: Seq<Seq<char>>)
    requires
        first.len() >= 1,
        second.len() >= 1,
    ensures
        join_lines(glue(first, second)) == join_lines(first) + join_lines(second),
{
    let middle = first.last() + second[0];
    let head = first.drop_last();
    let tail = second.drop_first();
    let rest = seq![middle] + tail;
    assert(glue(first, second) =~= head + rest);
    assert(join_lines(rest) =~= first.last() + join_lines(second)) by {
        if tail.len() > 0 {
            lemma_join_concat(seq![middle], tail);
            lemma_join_concat(seq![second[0]], tail);
            assert(seq![second[0]] + tail =~= second);
        }
    }
    if head.len() > 0 {
        lemma_join_concat(head, rest);
    }
}

/// `String::push` of std puts the character at the end of the string and
/// leaves the characters before it as they were.
pub assume_specification[ String::push ](s: &mut String, ch: char)
    ensures
        final(s)@ == old(s)@.push(ch),
;

/// Splits `content` into its lines.
pub fn split(content: &str) -> (lines: Vec<Vec<char>>)
    ensures
        rows(lines@) == split_lines(content@),
{
    broadcast use vstd::string::group_string_axioms;

    let mut lines: Vec<Vec<char>> = Vec::new();
    lines.push(Vec::new());
    for c in it: content.chars()
        invariant
            it.seq() == content@,
            rows(lines@) == split_lines(it.seq().take(it.index())),
    {
        let ghost read = it.seq().take(it.index());
        let ghost grown = it.seq().take(it.index() + 1);
        proof {
            lemma_split_lines_shape(read);
            assert(grown.drop_last() =~= read);
        }
        if c == LINE_BREAK {
            lines.push(Vec::new());
        } else {
            let last = lines.len() - 1;
            lines[last].push(c);
        }
        assert(rows(lines@) =~= split_lines(grown));
    }
    assert(content@.take(content@.len() as int) =~= content@);
    lines
}

/// Joins `lines` into one string.
pub fn join(lines: &Vec<Vec<char>>) -> (content: String)
    ensures
        content@ == join_lines(rows(lines@)),
{
    let mut content = String::new();
    let mut i: usize = 0;
    while i < lines.len()
        invariant
            i <= lines.len(),
            content@ == join_lines(rows(lines@).take(i as int)),
        decreases lines.len() - i,
    {
        let ghost front = rows(lines@).take(i as int);
        let ghost grown = rows(lines@).take(i + 1);
        proof {
            assert(grown.drop_last() =~= front);
            assert(grown.last() == lines@[i as int]@);
        }
        if i > 0 {
            content.push(LINE_BREAK);
        }
        let ghost start = content@;
        let line = &lines[i];
        let mut j: usize = 0;
        while j < line.len()
            invariant
                j <= line.len(),
                content@ == start + line@.take(j as int),
            decreases line.len() - j,
        {
            content.push(line[j]);
            assert(line@.take(j + 1) =~= line@.take(j as int).push(line@[j as int]));
            j += 1;
        }
        assert(line@.take(line.len() as int) =~= line@);
        assert(content@ =~= join_lines(grown));
        i += 1;
    }
    assert(rows(lines@).take(lines.len() as int) =~= rows(lines@));
    content
}

} // verus!
