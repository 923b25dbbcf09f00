//! Lines and white space in text.

use vstd::prelude::*;
use vstd::string::StrSliceExecFns;

verus! {

/// The characters that Unicode calls white space.
pub open spec fn is_white_space(c: char) -> bool {
    ||| '\u{9}' <= c <= '\u{d}'
    ||| c == ' '
    ||| c == '\u{85}'
    ||| c == '\u{a0}'
    ||| c == '\u{1680}'
    ||| '\u{2000}' <= c <= '\u{200a}'
    ||| c == '\u{2028}'
    ||| c == '\u{2029}'
    ||| c == '\u{202f}'
    ||| c == '\u{205f}'
    ||| c == '\u{3000}'
}

/// Where the first line of a text ends: at its first line feed, or with the
/// text.
pub open spec fn line_end(text: Seq<char>) -> int
    decreases text.len(),
{
    if text.len() == 0 || text[0] == '\n' {
        0
    } else {
        1 + line_end(text.drop_first())
    }
}

/// A line without the carriage return that stood before its line feed.
pub open spec fn without_carriage_return(line: Seq<char>) -> Seq<char> {
    if line.len() > 0 && line.last() == '\r' {
        line.drop_last()
    } else {
        line
    }
}

/// The lines of a text. A line ends with a line feed, or with a carriage return
/// and a line feed; the last line need not end so.
pub open spec fn lines(text: Seq<char>) -> Seq<Seq<char>>
    decreases text.len(),
{
    let end = line_end(text);
    if text.len() == 0 {
        Seq::empty()
    } else if 0 <= end < text.len() {
        seq![without_carriage_return(text.take(end))] + lines(text.skip(end + 1))
    } else {
        seq![text]
    }
}

/// A text without the white space at its start.
pub open spec fn trim_start(text: Seq<char>) -> Seq<char>
    decreases text.len(),
{
    if text.len() > 0 && is_white_space(text[0]) {
        trim_start(text.drop_first())
    } else {
        text
    }
}

/// A text without the white space at its end.
pub open spec fn trim_end(text: Seq<char>) -> Seq<char>
    decreases text.len(),
{
    if text.len() > 0 && is_white_space(text.last()) {
        trim_end(text.drop_last())
    } else {
        text
    }
}

/// A text without the white space around it.
pub open spec fn trimmed(text: Seq<char>) -> Seq<char> {
    trim_end(trim_start(text))
}

fn white_space(c: char) -> (white: bool)
    ensures
        white == is_white_space(c),
{
    ('\u{9}' <= c && c <= '\u{d}') || c == ' ' || c == '\u{85}' || c == '\u{a0}'
        || c == '\u{1680}' || ('\u{2000}' <= c && c <= '\u{200a}') || c == '\u{2028}'
        || c == '\u{2029}' || c == '\u{202f}' || c == '\u{205f}' || c == '\u{3000}'
}

fn characters(text: &str) -> (chars: Vec<char>)
    ensures
        chars@ == text@,
{
    let mut chars: Vec<char> = Vec::new();
    for c in it: text.chars()
        invariant
            it.seq() == text@,
            chars@ == it.seq().take(it.index()),
    {
        assert(it.seq().take(it.index() + 1) =~= it.seq().take(it.index()).push(c));
        chars.push(c);
    }
    assert(text@.take(text@.len() as int) =~= text@);
    chars
}

proof fn lemma_line_end(text: Seq<char>)
    ensures
        0 <= line_end(text) <= text.len(),
        forall|i: int| 0 <= i < line_end(text) ==> text[i] != '\n',
        line_end(text) < text.len() ==> text[line_end(text)] == '\n',
    decreases text.len(),
{
    if text.len() > 0 && text[0] != '\n' {
        let rest = text.drop_first();
        lemma_line_end(rest);
        assert forall|i: int| 0 <= i < line_end(text) implies text[i] != '\n' by {
            if i > 0 {
                assert(text[i] == rest[i - 1]);
            }
        }
    }
}

proof fn lemma_line_end_is(text: Seq<char>, end: int)
    requires
        0 <= end <= text.len(),
        forall|i: int| 0 <= i < end ==> text[i] != '\n',
        end < text.len() ==> text[end] == '\n',
    ensures
        line_end(text) == end,
{
    lemma_line_end(text);
}

/// The lines of a text, one after another.
pub fn split_lines(text: &str) -> (found: Vec<String>)
    ensures
        found@.len() == lines(text@).len(),
        forall|i: int| 0 <= i < found@.len() ==> (#[trigger] found@[i])@ == lines(text@)[i],
{
    let chars = characters(text);
    let mut found: Vec<String> = Vec::new();
    let mut start: usize = 0;
    assert(text@.skip(0) =~= text@);
    while start < chars.len()
        invariant
            chars@ == text@,
            start <= chars@.len(),
            found@.len() + lines(text@.skip(start as int)).len() == lines(text@).len(),
            forall|i: int| 0 <= i < found@.len() ==> (#[trigger] found@[i])@ == lines(text@)[i],
            forall|i: int|
                #![trigger lines(text@.skip(start as int))[i]]
                0 <= i < lines(text@.skip(start as int)).len() ==> lines(text@)[found@.len() + i]
                    == lines(text@.skip(start as int))[i],
        decreases chars@.len() - start,
    {
        let ghost rest = text@.skip(start as int);
        let ghost before = found@;
        let mut end: usize = start;
        while end < chars.len() && chars[end] != '\n'
            invariant
                chars@ == text@,
                start <= end <= chars@.len(),
                forall|i: int| start <= i < end ==> chars@[i] != '\n',
            decreases chars@.len() - end,
        {
            end += 1;
        }
        proof {
            lemma_line_end_is(rest, end - start);
        }
        if end < chars.len() {
            let mut stop: usize = end;
            if end > start && chars[end - 1] == '\r' {
                stop = end - 1;
            }
            let line = text.substring_char(start, stop).to_owned();
            assert(line@ =~= without_carriage_return(rest.take(end - start)));
            found.push(line);
            assert(rest.skip(end - start + 1) =~= text@.skip(end + 1));
            assert(lines(rest) == seq![line@] + lines(text@.skip(end + 1)));
            assert(lines(rest)[0] == line@);
            assert forall|i: int|
                #![trigger lines(text@.skip(end + 1))[i]]
                0 <= i < lines(text@.skip(end + 1)).len() implies lines(text@)[found@.len() + i]
                == lines(text@.skip(end + 1))[i] by {
                assert(lines(rest)[i + 1] == lines(text@.skip(end + 1))[i]);
            }
            start = end + 1;
        } else {
            let line = text.substring_char(start, end).to_owned();
            assert(line@ =~= rest);
            found.push(line);
            assert(lines(rest) == seq![rest]);
            assert(lines(rest)[0] == line@);
            assert(text@.skip(end as int) =~= Seq::<char>::empty());
            start = end;
        }
    }
    found
}

/// A text without the white space around it.
pub fn trim(text: &str) -> (rest: String)
    ensures
        rest@ == trimmed(text@),
{
    let chars = characters(text);
    let mut start: usize = 0;
    assert(text@.skip(0) =~= text@);
    while start < chars.len() && white_space(chars[start])
        invariant
            chars@ == text@,
            start <= chars@.len(),
            trim_start(text@) == trim_start(text@.skip(start as int)),
        decreases chars@.len() - start,
    {
        assert(text@.skip(start as int).drop_first() =~= text@.skip(start + 1));
        start += 1;
    }
    let ghost body = text@.skip(start as int);
    assert(trim_start(text@) == body);
    let mut end: usize = chars.len();
    assert(body =~= text@.subrange(start as int, end as int));
    while end > start && white_space(chars[end - 1])
        invariant
            chars@ == text@,
            start <= end <= chars@.len(),
            trim_end(body) == trim_end(text@.subrange(start as int, end as int)),
        decreases end,
    {
        assert(text@.subrange(start as int, end as int).drop_last() =~= text@.subrange(
            start as int,
            end - 1,
        ));
        end -= 1;
    }
    text.substring_char(start, end).to_owned()
}

/// What trimming leaves neither starts nor ends with white space, and was in
/// the text.
pub proof fn law_trimming_leaves_no_outer_white_space(text: Seq<char>)
    ensures
        trimmed(text).len() > 0 ==> !is_white_space(trimmed(text)[0]) && !is_white_space(
            trimmed(text).last(),
        ),
        exists|from: int, to: int|
            0 <= from <= to <= text.len() && trimmed(text) == #[trigger] text.subrange(from, to),
{
    lemma_trim_start(text);
    let from = choose|from: int|
        0 <= from <= text.len() && trim_start(text) == #[trigger] text.skip(from);
    lemma_trim_end(trim_start(text));
    let to = choose|to: int|
        0 <= to <= trim_start(text).len() && trim_end(trim_start(text))
            == #[trigger] trim_start(text).take(to);
    assert(trimmed(text) =~= text.subrange(from, from + to));
}

proof fn lemma_trim_start(text: Seq<char>)
    ensures
        trim_start(text).len() > 0 ==> !is_white_space(trim_start(text)[0]),
        exists|from: int|
            0 <= from <= text.len() && trim_start(text) == #[trigger] text.skip(from),
    decreases text.len(),
{
    if text.len() > 0 && is_white_space(text[0]) {
        lemma_trim_start(text.drop_first());
        let from = choose|from: int|
            0 <= from <= text.len() - 1 && trim_start(text.drop_first())
                == #[trigger] text.drop_first().skip(from);
        assert(text.drop_first().skip(from) =~= text.skip(from + 1));
    } else {
        assert(text.skip(0) =~= text);
    }
}

proof fn lemma_trim_end(text: Seq<char>)
    ensures
        trim_end(text).len() > 0 ==> !is_white_space(trim_end(text).last()),
        exists|to: int| 0 <= to <= text.len() && trim_end(text) == #[trigger] text.take(to),
        trim_end(text).len() > 0 ==> trim_end(text)[0] == text[0],
    decreases text.len(),
{
    if text.len() > 0 && is_white_space(text.last()) {
        lemma_trim_end(text.drop_last());
        let to = choose|to: int|
            0 <= to <= text.len() - 1 && trim_end(text.drop_last())
                == #[trigger] text.drop_last().take(to);
        assert(text.drop_last().take(to) =~= text.take(to));
    } else {
        assert(text.take(text.len() as int) =~= text);
    }
}

} // verus!
