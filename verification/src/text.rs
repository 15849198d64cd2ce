//! Decoding of process output and its division into lines.

use vstd::prelude::*;
use vstd::string::*;
use vstd::utf8::*;

verus! {

/// The text that lossy UTF-8 decoding makes of a byte sequence: valid parts
/// decode as they are, each invalid part becomes U+FFFD.
pub uninterp spec fn lossy_utf8(bytes: Seq<u8>) -> Seq<char>;

/// `String::from_utf8_lossy`, which never fails. The result is the lossy
/// decoding of `bytes`; where `bytes` is valid UTF-8 nothing is replaced and
/// the result is the text that `bytes` encodes.
#[verifier::external_body]
pub(crate) fn decode_lossy(bytes: &[u8]) -> (text: String)
    ensures
        text@ == lossy_utf8(bytes@),
        valid_utf8(bytes@) ==> text@ == decode_utf8(bytes@),
{
    String::from_utf8_lossy(bytes).into_owned()
}

/// The text that `Debug` writes for a `str`: the text in double quotes, with
/// escapes for what cannot stand there as it is.
pub uninterp spec fn debug_quoted(text: Seq<char>) -> Seq<char>;

/// The `Debug` formatting of a `str`. The result is the quoted form of `text`.
#[verifier::external_body]
pub(crate) fn quote(text: &str) -> (quoted: String)
    ensures
        quoted@ == debug_quoted(text@),
{
    format!("{:?}", text)
}

/// `String::push`: appends one character.
pub assume_specification[ String::push ](text: &mut String, ch: char)
    ensures
        final(text)@ == old(text)@.push(ch),
;

/// Index of the first line feed of `text`, or `text.len()` where it has none.
pub open spec fn first_line_feed(text: Seq<char>) -> int
    decreases text.len(),
{
    if text.len() == 0 || text[0] == '\n' {
        0
    } else {
        1 + first_line_feed(text.drop_first())
    }
}

/// A line as it stood before its line feed, without the carriage return of a
/// `\r\n` ending.
pub open spec fn without_carriage_return(line: Seq<char>) -> Seq<char> {
    if line.len() > 0 && line.last() == '\r' {
        line.drop_last()
    } else {
        line
    }
}

/// The lines of a text. A line ends at `\n` or `\r\n`; the ending is not part
/// of the line. What follows the last line feed is a line of its own unless it
/// is empty, and keeps a trailing carriage return.
pub open spec fn lines_of(text: Seq<char>) -> Seq<Seq<char>>
    decreases text.len(),
{
    if text.len() == 0 {
        Seq::empty()
    } else {
        let end = first_line_feed(text);
        if end >= text.len() {
            seq![text]
        } else {
            proof {
                lemma_first_line_feed_bounds(text);
            }
            seq![without_carriage_return(text.subrange(0, end))] + lines_of(
                text.subrange(end + 1, text.len() as int),
            )
        }
    }
}

/// The texts that a vector of strings holds, in order.
pub open spec fn texts_of(lines: Seq<String>) -> Seq<Seq<char>> {
    Seq::new(lines.len(), |i: int| lines[i]@)
}

/// The first line feed lies within the text or at its end; where it lies
/// within, a line feed stands there, and none stands before it.
pub proof fn lemma_first_line_feed_bounds(text: Seq<char>)
    ensures
        0 <= first_line_feed(text) <= text.len(),
        first_line_feed(text) < text.len() ==> text[first_line_feed(text)] == '\n',
        forall|i: int| 0 <= i < first_line_feed(text) ==> text[i] != '\n',
    decreases text.len(),
{
    if text.len() == 0 || text[0] == '\n' {
    } else {
        let rest = text.drop_first();
        lemma_first_line_feed_bounds(rest);
        assert forall|i: int| 0 <= i < first_line_feed(text) implies text[i] != '\n' by {
            if i > 0 {
                assert(text[i] == rest[i - 1]);
            }
        }
    }
}

/// The first line feed of `text` is at `end` when none stands before `end`
/// and one stands at `end`, or `end` is the length of `text`.
pub proof fn lemma_first_line_feed_at(text: Seq<char>, end: int)
    requires
        0 <= end <= text.len(),
        forall|i: int| 0 <= i < end ==> text[i] != '\n',
        end < text.len() ==> text[end] == '\n',
    ensures
        first_line_feed(text) == end,
    decreases text.len(),
{
    if end > 0 {
        let rest = text.drop_first();
        assert forall|i: int| 0 <= i < end - 1 implies rest[i] != '\n' by {
            assert(rest[i] == text[i + 1]);
        }
        lemma_first_line_feed_at(rest, end - 1);
    }
}

/// Divides `text` into its lines.
pub fn split_lines(text: &str) -> (lines: Vec<String>)
    ensures
        texts_of(lines@) == lines_of(text@),
{
    let mut lines: Vec<String> = Vec::new();
    let mut line = String::new();
    // A carriage return that was read and is kept back until the next
    // character shows whether it belongs to a line ending.
    let mut pending_cr = false;
    let mut open = false;
    let ghost mut start: int = 0;
    proof {
        assert(text@.subrange(0, text@.len() as int) == text@);
        assert(texts_of(lines@) + lines_of(text@) == lines_of(text@));
        assert(line@ == text@.subrange(0, 0));
    }
    for c in it: text.chars()
        invariant
            it.seq() == text@,
            0 <= start <= it.index() <= text@.len(),
            forall|i: int| start <= i < it.index() ==> text@[i] != '\n',
            texts_of(lines@) + lines_of(text@.subrange(start, text@.len() as int)) == lines_of(
                text@,
            ),
            open == (start < it.index()),
            pending_cr ==> open && text@[it.index() - 1] == '\r' && line@ == text@.subrange(
                start,
                it.index() - 1,
            ),
            !pending_cr ==> line@ == text@.subrange(start, it.index() as int),
            !pending_cr && open ==> text@[it.index() - 1] != '\r',
    {
        let ghost at = it.index();
        let ghost rest = text@.subrange(start, text@.len() as int);
        if c == '\n' {
            proof {
                lemma_first_line_feed_at(rest, at - start);
                assert(rest.subrange(0, at - start) == text@.subrange(start, at));
                assert(rest.subrange(at - start + 1, rest.len() as int) == text@.subrange(
                    at + 1,
                    text@.len() as int,
                ));
                assert(without_carriage_return(text@.subrange(start, at)) == line@);
                assert(texts_of(lines@.push(line)) == texts_of(lines@) + seq![line@]);
            }
            lines.push(line);
            line = String::new();
            pending_cr = false;
            open = false;
            proof {
                start = at + 1;
                assert(line@ == text@.subrange(start, start));
            }
        } else {
            if pending_cr {
                line.push('\r');
                assert(line@ == text@.subrange(start, at));
            }
            if c == '\r' {
                pending_cr = true;
            } else {
                pending_cr = false;
                line.push(c);
                assert(line@ == text@.subrange(start, at + 1));
            }
            open = true;
        }
    }
    if open {
        if pending_cr {
            line.push('\r');
        }
        proof {
            let rest = text@.subrange(start, text@.len() as int);
            assert(line@ == rest);
            lemma_first_line_feed_at(rest, rest.len() as int);
            assert(texts_of(lines@.push(line)) == texts_of(lines@) + seq![line@]);
        }
        lines.push(line);
    }
    lines
}

/// The parts in a row, with one space between each two of them.
pub open spec fn spaced(parts: Seq<Seq<char>>) -> Seq<char>
    decreases parts.len(),
{
    if parts.len() == 0 {
        Seq::empty()
    } else if parts.len() == 1 {
        parts[0]
    } else {
        spaced(parts.drop_last()) + " "@ + parts.last()
    }
}

/// Writes the parts in a row, with one space between each two of them.
pub fn join_spaced(parts: &Vec<String>) -> (text: String)
    ensures
        text@ == spaced(texts_of(parts@)),
{
    let mut text = String::new();
    let mut i: usize = 0;
    while i < parts.len()
        invariant
            i <= parts.len(),
            text@ == spaced(texts_of(parts@.subrange(0, i as int))),
        decreases parts.len() - i,
    {
        let ghost done = texts_of(parts@.subrange(0, i as int));
        let ghost next = texts_of(parts@.subrange(0, i + 1));
        proof {
            assert(next.drop_last() == done);
            assert(next.last() == parts@[i as int]@);
        }
        if i > 0 {
            text.append(" ");
        } else {
            assert(text@ + parts@[i as int]@ == parts@[i as int]@);
        }
        text.append(parts[i].as_str());
        i += 1;
    }
    assert(parts@.subrange(0, parts@.len() as int) == parts@);
    text
}

} // verus!
