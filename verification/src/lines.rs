//! Lines of `KEY=VALUE`, and the text that they make.

use vstd::prelude::*;

verus! {

/// The line that gives `key` the value `value`.
pub open spec fn assignment(key: Seq<char>, value: Seq<char>) -> Seq<char> {
    key + seq!['='] + value
}

/// Whether `line` gives a value to `key`.
pub open spec fn has_key(line: Seq<char>, key: Seq<char>) -> bool {
    key.len() < line.len() && line.take(key.len() as int) == key && line[key.len() as int] == '='
}

/// Whether `s` holds no line feed.
pub open spec fn is_one_line(s: Seq<char>) -> bool {
    forall|i: int| 0 <= i < s.len() ==> #[trigger] s[i] != '\n'
}

/// The lines one after the other, each ended by a line feed.
pub open spec fn terminated(lines: Seq<Seq<char>>) -> Seq<char>
    decreases lines.len(),
{
    if lines.len() == 0 {
        Seq::empty()
    } else {
        terminated(lines.drop_last()) + lines.last() + seq!['\n']
    }
}

/// The place of the first line feed of `text`, or its length where it has
/// none.
pub open spec fn line_end(text: Seq<char>) -> int
    decreases text.len(),
{
    if text.len() == 0 || text[0] == '\n' {
        0
    } else {
        1 + line_end(text.skip(1))
    }
}

/// The lines of a text: what stands before each of its line feeds, and what
/// is left behind the last one, if anything is.
pub open spec fn lines_of(text: Seq<char>) -> Seq<Seq<char>>
    decreases text.len(),
{
    let end = line_end(text);
    if text.len() == 0 {
        Seq::empty()
    } else if 0 <= end < text.len() {
        seq![text.take(end)] + lines_of(text.skip(end + 1))
    } else {
        seq![text]
    }
}

/// A text that begins with a line and a line feed has its first line end
/// where that line ends.
pub proof fn lemma_line_end(line: Seq<char>, rest: Seq<char>)
    requires
        is_one_line(line),
    ensures
        line_end(line + seq!['\n'] + rest) == line.len(),
    decreases line.len(),
{
    let text = line + seq!['\n'] + rest;
    if line.len() == 0 {
        assert(text[0] == '\n');
    } else {
        assert(text[0] == line[0]);
        assert(text.skip(1) =~= line.skip(1) + seq!['\n'] + rest);
        assert forall|i: int| 0 <= i < line.skip(1).len() implies #[trigger] line.skip(1)[i]
            != '\n' by {
            assert(line.skip(1)[i] == line[i + 1]);
        }
        lemma_line_end(line.skip(1), rest);
    }
}

/// Ending each line by a line feed can be done from the front as well.
pub proof fn lemma_terminated_from_the_front(lines: Seq<Seq<char>>)
    requires
        lines.len() > 0,
    ensures
        terminated(lines) == lines[0] + seq!['\n'] + terminated(lines.skip(1)),
    decreases lines.len(),
{
    if lines.len() == 1 {
        assert(lines.drop_last() =~= Seq::<Seq<char>>::empty());
        assert(lines.skip(1) =~= Seq::<Seq<char>>::empty());
        assert(terminated(lines.drop_last()) =~= Seq::<char>::empty());
        assert(terminated(lines) =~= lines[0] + seq!['\n'] + terminated(lines.skip(1)));
    } else {
        lemma_terminated_from_the_front(lines.drop_last());
        assert(lines.drop_last().skip(1) =~= lines.skip(1).drop_last());
        assert(lines.drop_last()[0] == lines[0]);
        assert(lines.skip(1).last() == lines.last());
        assert(terminated(lines) =~= lines[0] + seq!['\n'] + terminated(lines.skip(1)));
    }
}

/// Lines that hold no line feed are the lines of the text that they make.
pub proof fn lemma_lines_of_terminated(lines: Seq<Seq<char>>)
    requires
        forall|i: int| 0 <= i < lines.len() ==> is_one_line(#[trigger] lines[i]),
    ensures
        lines_of(terminated(lines)) == lines,
    decreases lines.len(),
{
    if lines.len() == 0 {
        assert(lines_of(terminated(lines)) =~= lines);
    } else {
        let text = terminated(lines);
        let rest = terminated(lines.skip(1));
        lemma_terminated_from_the_front(lines);
        lemma_line_end(lines[0], rest);
        assert(text.take(lines[0].len() as int) =~= lines[0]);
        assert(text.skip(lines[0].len() as int + 1) =~= rest);
        assert forall|i: int| 0 <= i < lines.skip(1).len() implies is_one_line(
            #[trigger] lines.skip(1)[i],
        ) by {
            assert(lines.skip(1)[i] == lines[i + 1]);
        }
        lemma_lines_of_terminated(lines.skip(1));
        assert(lines_of(text) =~= seq![lines[0]] + lines.skip(1));
        assert(seq![lines[0]] + lines.skip(1) =~= lines);
    }
}

/// A line that gives a value to a key begins with the key's first character,
/// and the line made for a key gives it a value.
pub proof fn lemma_assignment_has_its_key(key: Seq<char>, value: Seq<char>, other: Seq<char>)
    ensures
        has_key(assignment(key, value), key),
        key.len() > 0 && other.len() > 0 && key[0] != other[0] ==> !has_key(
            assignment(key, value),
            other,
        ),
{
    let line = assignment(key, value);
    assert(line.take(key.len() as int) =~= key);
    if key.len() > 0 && other.len() > 0 && has_key(line, other) {
        assert(line.take(other.len() as int)[0] == other[0]);
    }
}

} // verus!
