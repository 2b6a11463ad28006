//! The bounded log of one plugin instance.
use std::collections::VecDeque;
use vstd::prelude::*;

verus! {

/// The latest output lines of a plugin. A full buffer loses its oldest line for each new one.
pub struct LogBuffer {
    lines: VecDeque<String>,
    max_lines: usize,
}

/// The buffer contents after one more line.
pub open spec fn after_line(lines: Seq<Seq<char>>, line: Seq<char>, max_lines: nat) -> Seq<
    Seq<char>,
> {
    if lines.len() >= max_lines && lines.len() > 0 {
        lines.skip(1).push(line)
    } else {
        lines.push(line)
    }
}

/// The buffer contents after every line of `written`, from an empty buffer.
pub open spec fn after_lines(written: Seq<Seq<char>>, max_lines: nat) -> Seq<Seq<char>>
    decreases written.len(),
{
    if written.len() == 0 {
        Seq::empty()
    } else {
        after_line(after_lines(written.drop_last(), max_lines), written.last(), max_lines)
    }
}

/// The last `n` lines of `written`, or all of them where there are fewer.
pub open spec fn latest(written: Seq<Seq<char>>, n: nat) -> Seq<Seq<char>> {
    if written.len() <= n {
        written
    } else {
        written.skip(written.len() - n)
    }
}

/// The number of lines that a buffer made for `max_lines` can hold: it always has room
/// for the newest line.
pub open spec fn room(max_lines: nat) -> nat {
    if max_lines == 0 {
        1
    } else {
        max_lines
    }
}

/// A buffer holds exactly the latest lines written to it, as many as it has room for.
pub proof fn law_log_keeps_the_latest_lines(written: Seq<Seq<char>>, max_lines: nat)
    ensures
        after_lines(written, max_lines) == latest(written, room(max_lines)),
        after_lines(written, max_lines).len() <= room(max_lines),
    decreases written.len(),
{
    if written.len() > 0 {
        law_log_keeps_the_latest_lines(written.drop_last(), max_lines);
        assert(after_lines(written, max_lines) =~= latest(written, room(max_lines)));
    }
}

impl View for LogBuffer {
    type V = Seq<Seq<char>>;

    closed spec fn view(&self) -> Seq<Seq<char>> {
        self.lines@.map_values(|s: String| s@)
    }
}

impl LogBuffer {
    /// The number of lines that the buffer was made for.
    pub closed spec fn capacity(&self) -> nat {
        self.max_lines as nat
    }

    /// An empty buffer for `max_lines` lines.
    pub fn new(max_lines: usize) -> (r: Self)
        ensures
            r@ == Seq::<Seq<char>>::empty(),
            r.capacity() == max_lines,
    {
        let r = LogBuffer { lines: VecDeque::new(), max_lines };
        assert(r@ =~= Seq::<Seq<char>>::empty());
        r
    }

    /// Adds a line; drops the oldest one first where the buffer is full.
    pub fn push(&mut self, line: String)
        ensures
            final(self)@ == after_line(old(self)@, line@, old(self).capacity()),
            final(self).capacity() == old(self).capacity(),
    {
        if self.lines.len() >= self.max_lines {
            let _ = self.lines.pop_front();
        }
        self.lines.push_back(line);
        assert(self@ =~= after_line(old(self)@, line@, old(self).capacity()));
    }

    /// The lines, oldest first.
    pub fn lines(&self) -> (r: Vec<String>)
        ensures
            r.deep_view() == self@,
    {
        let mut r: Vec<String> = Vec::new();
        let mut i: usize = 0;
        while i < self.lines.len()
            invariant
                i <= self.lines@.len(),
                r@ == self.lines@.take(i as int),
            decreases self.lines@.len() - i,
        {
            r.push(self.lines[i].clone());
            assert(self.lines@.take(i + 1) =~= self.lines@.take(i as int).push(
                self.lines@[i as int],
            ));
            i = i + 1;
        }
        assert(r.deep_view() =~= self@);
        r
    }
}

} // verus!
