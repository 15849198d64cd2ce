//! The bounded history of console lines.

use std::collections::VecDeque;
use vstd::prelude::*;

use crate::text::texts_of;

verus! {

/// The number of lines that a history keeps.
pub const MAX_LINES: usize = 100;

/// The last `limit` items of `lines`, in their order; all of them where there
/// are no more than `limit`.
pub open spec fn most_recent<T>(lines: Seq<T>, limit: nat) -> Seq<T> {
    if lines.len() <= limit {
        lines
    } else {
        lines.subrange(lines.len() - limit, lines.len() as int)
    }
}

/// The recent lines of console output, oldest first. It never holds more than
/// [`MAX_LINES`] lines: a line that is added to a full history drives out the
/// oldest one.
pub struct OutputHistory {
    lines: VecDeque<String>,
}

impl View for OutputHistory {
    type V = Seq<Seq<char>>;

    closed spec fn view(&self) -> Seq<Seq<char>> {
        texts_of(self.lines@)
    }
}

impl OutputHistory {
    /// Whether the history is within its limit. Every history that this
    /// module hands out is.
    pub open spec fn bounded(&self) -> bool {
        self@.len() <= MAX_LINES
    }

    /// An empty history.
    pub fn new() -> (history: OutputHistory)
        ensures
            history@ == Seq::<Seq<char>>::empty(),
            history.bounded(),
    {
        OutputHistory { lines: VecDeque::new() }
    }

    /// The lines that are kept, oldest first.
    pub fn lines(&self) -> (lines: &VecDeque<String>)
        ensures
            texts_of(lines@) == self@,
    {
        &self.lines
    }

    /// The number of lines that are kept.
    pub fn len(&self) -> (len: usize)
        ensures
            len == self@.len(),
    {
        self.lines.len()
    }

    /// Drops the oldest lines until the history is within its limit.
    fn trim(&mut self)
        ensures
            final(self)@ == most_recent(old(self)@, MAX_LINES as nat),
            final(self).bounded(),
    {
        let ghost before = self.lines@;
        while self.lines.len() > MAX_LINES
            invariant
                self.lines@.len() <= before.len(),
                self.lines@ == before.subrange(
                    before.len() - self.lines@.len(),
                    before.len() as int,
                ),
                self.lines@.len() == before.len() || self.lines@.len() >= MAX_LINES,
            decreases self.lines@.len(),
        {
            self.lines.pop_front();
        }
        assert(self@ =~= most_recent(texts_of(before), MAX_LINES as nat));
    }

    /// Adds `line` as the newest line; a full history loses its oldest line.
    pub fn push_line(&mut self, line: String)
        ensures
            final(self)@ == most_recent(old(self)@.push(line@), MAX_LINES as nat),
            final(self).bounded(),
    {
        self.lines.push_back(line);
        assert(self@ =~= old(self)@.push(line@));
        self.trim();
    }

    /// Adds `lines` in their order, the last of them as the newest line, and
    /// keeps the most recent lines of the whole.
    pub fn append(&mut self, lines: Vec<String>)
        ensures
            final(self)@ == most_recent(old(self)@ + texts_of(lines@), MAX_LINES as nat),
            final(self).bounded(),
    {
        for line in it: lines
            invariant
                it.seq() == lines@,
                self@ == old(self)@ + texts_of(lines@.subrange(0, it.index())),
        {
            let ghost done = lines@.subrange(0, it.index());
            let ghost held = self@;
            self.lines.push_back(line);
            proof {
                assert(lines@.subrange(0, it.index() + 1) == done.push(line));
                assert(texts_of(done.push(line)) == texts_of(done).push(line@));
                assert(self@ == held.push(line@));
                assert(held.push(line@) == old(self)@ + texts_of(done).push(line@));
            }
        }
        assert(lines@.subrange(0, lines@.len() as int) == lines@);
        self.trim();
    }
}

/// A history that is cut to its limit after each batch of lines holds what a
/// single cut after the last batch would leave: the most recent lines of all
/// that were ever added, in their order, and never more than the limit.
pub proof fn lemma_most_recent_batches<T>(lines: Seq<T>, batch: Seq<T>, limit: nat)
    ensures
        most_recent(most_recent(lines, limit) + batch, limit) == most_recent(lines + batch, limit),
        most_recent(lines, limit).len() <= limit,
{
}

} // verus!
