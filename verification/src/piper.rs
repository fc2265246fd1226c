//! Line-oriented splitting of one output stream.
//!
//! A supervised process's stdout and stderr are each read as a byte stream
//! and delivered line by line, in stream order. One `LinePiper` serves one
//! stream; the two streams of a process never share a piper, so their line
//! sequences stay independent.

use vstd::prelude::*;

verus! {

/// The line-feed byte that ends a line.
pub const NL: u8 = 10;

/// The carriage-return byte stripped from the end of a newline-terminated
/// line.
pub const CR: u8 = 13;

/// The delivered content of one newline-terminated chunk: a carriage return
/// standing last is stripped, so both bare and carriage-return line endings
/// deliver the same text.
pub open spec fn line_content(raw: Seq<u8>) -> Seq<u8> {
    if raw.len() > 0 && raw.last() == CR {
        raw.drop_last()
    } else {
        raw
    }
}

/// The bytes of `s` after its last newline: the partial line still pending.
pub open spec fn pending_of(s: Seq<u8>) -> Seq<u8>
    decreases s.len(),
{
    if s.len() == 0 {
        Seq::empty()
    } else if s.last() == NL {
        Seq::empty()
    } else {
        pending_of(s.drop_last()).push(s.last())
    }
}

/// The complete lines of `s`: the content of each newline-terminated chunk,
/// in stream order.
pub open spec fn lines_of(s: Seq<u8>) -> Seq<Seq<u8>>
    decreases s.len(),
{
    if s.len() == 0 {
        Seq::empty()
    } else if s.last() == NL {
        lines_of(s.drop_last()).push(line_content(pending_of(s.drop_last())))
    } else {
        lines_of(s.drop_last())
    }
}

/// Everything a stream delivers once it has ended: its complete lines, then
/// the unterminated tail as one last line if any bytes remain after the last
/// newline.
pub open spec fn delivered_of(s: Seq<u8>) -> Seq<Seq<u8>> {
    if pending_of(s).len() == 0 {
        lines_of(s)
    } else {
        lines_of(s).push(pending_of(s))
    }
}

/// The byte stream a program produces by writing `lines` in order, each
/// terminated by one newline.
pub open spec fn encode_lines(lines: Seq<Seq<u8>>) -> Seq<u8>
    decreases lines.len(),
{
    if lines.len() == 0 {
        Seq::empty()
    } else {
        encode_lines(lines.drop_last()) + lines.last().push(NL)
    }
}

/// Feeding bytes that hold no newline completes no line: they only extend
/// the pending tail.
pub proof fn lemma_feed_without_newline(s: Seq<u8>, t: Seq<u8>)
    requires
        !t.contains(NL),
    ensures
        lines_of(s + t) == lines_of(s),
        pending_of(s + t) == pending_of(s) + t,
    decreases t.len(),
{
    if t.len() == 0 {
        assert(s + t =~= s);
        assert(pending_of(s) + t =~= pending_of(s));
    } else {
        assert(!t.drop_last().contains(NL)) by {
            if t.drop_last().contains(NL) {
                let i = choose|i: int| 0 <= i < t.drop_last().len() && t.drop_last()[i] == NL;
                assert(t[i] == NL);
            }
        }
        lemma_feed_without_newline(s, t.drop_last());
        let u = s + t;
        assert(t.last() == t[t.len() - 1]);
        assert(u.last() == t.last());
        assert(u.last() != NL);
        assert(u.drop_last() =~= s + t.drop_last());
        assert(lines_of(u) == lines_of(s));
        assert(pending_of(u) =~= pending_of(s) + t);
    }
}

/// A program that writes `lines` to one stream in order, each line free of
/// newlines and not ending in a carriage return, and terminates each with a
/// newline, has exactly those lines delivered, in the same order, and leaves
/// nothing pending. This holds of each stream on its own, whatever the other
/// stream does: the two streams of a process are split by separate pipers.
pub proof fn lemma_lines_delivered_in_order(lines: Seq<Seq<u8>>)
    requires
        forall|i: int|
            0 <= i < lines.len() ==> !(#[trigger] lines[i]).contains(NL) && (lines[i].len() == 0
                || lines[i].last() != CR),
    ensures
        lines_of(encode_lines(lines)) == lines,
        pending_of(encode_lines(lines)) == Seq::<u8>::empty(),
        delivered_of(encode_lines(lines)) == lines,
    decreases lines.len(),
{
    if lines.len() == 0 {
        assert(lines_of(encode_lines(lines)) =~= lines);
    } else {
        let front = lines.drop_last();
        let last = lines.last();
        lemma_lines_delivered_in_order(front);
        let s = encode_lines(front);
        let u = encode_lines(lines);
        assert(u == s + last.push(NL));
        assert(u.last() == NL) by {
            assert(last.push(NL)[last.push(NL).len() - 1] == NL);
            assert(u[u.len() - 1] == last.push(NL)[last.push(NL).len() - 1]);
        }
        assert(u.len() > 0);
        assert(u.drop_last() =~= s + last);
        lemma_feed_without_newline(s, last);
        assert(pending_of(s + last) =~= last);
        assert(line_content(last) == last);
        assert(lines_of(u) == lines_of(s + last).push(line_content(pending_of(s + last))));
        assert(lines_of(u) =~= lines);
        assert(pending_of(u) =~= Seq::<u8>::empty());
    }
}

/// Splits one byte stream into lines as the bytes arrive.
pub struct LinePiper {
    pending: Vec<u8>,
    fed: Ghost<Seq<u8>>,
}

impl LinePiper {
    /// All bytes fed to this piper so far.
    pub closed spec fn fed(&self) -> Seq<u8> {
        self.fed@
    }

    /// The buffered bytes are exactly the stream's bytes after its last
    /// newline.
    pub closed spec fn wf(&self) -> bool {
        self.pending@ == pending_of(self.fed@)
    }

    /// A piper that has seen no bytes yet.
    pub fn new() -> (p: Self)
        ensures
            p.wf(),
            p.fed() == Seq::<u8>::empty(),
    {
        LinePiper { pending: Vec::new(), fed: Ghost(Seq::empty()) }
    }

    /// Feeds one byte. A newline completes the pending line and returns its
    /// content; any other byte is buffered.
    pub fn push_byte(&mut self, b: u8) -> (line: Option<Vec<u8>>)
        requires
            old(self).wf(),
        ensures
            final(self).wf(),
            final(self).fed() == old(self).fed().push(b),
            b == NL ==> line.deep_view() == Some(line_content(pending_of(old(self).fed())))
                && lines_of(final(self).fed()) == lines_of(old(self).fed()).push(
                line_content(pending_of(old(self).fed())),
            ),
            b != NL ==> line.deep_view() == None::<Seq<u8>> && lines_of(final(self).fed())
                == lines_of(old(self).fed()),
    {
        let ghost fed0 = self.fed@;
        proof {
            self.fed@ = self.fed@.push(b);
            assert(self.fed@.drop_last() =~= fed0);
        }
        if b == NL {
            if self.pending.len() > 0 && self.pending[self.pending.len() - 1] == CR {
                self.pending.pop();
            }
            let mut line: Vec<u8> = Vec::new();
            let mut i: usize = 0;
            while i < self.pending.len()
                invariant
                    i <= self.pending@.len(),
                    line@ == self.pending@.take(i as int),
                decreases self.pending@.len() - i,
            {
                line.push(self.pending[i]);
                i = i + 1;
            }
            assert(line@ =~= self.pending@);
            self.pending.clear();
            assert(line@ == line_content(pending_of(fed0)));
            Some(line)
        } else {
            self.pending.push(b);
            None
        }
    }

    /// Feeds a chunk of bytes; returns the lines the chunk completed, in
    /// stream order.
    pub fn push_chunk(&mut self, chunk: &[u8]) -> (lines: Vec<Vec<u8>>)
        requires
            old(self).wf(),
        ensures
            final(self).wf(),
            final(self).fed() == old(self).fed() + chunk@,
            lines_of(old(self).fed()) + lines.deep_view() == lines_of(final(self).fed()),
    {
        let mut lines: Vec<Vec<u8>> = Vec::new();
        let n = chunk.len();
        let mut i: usize = 0;
        while i < n
            invariant
                i <= n,
                n == chunk@.len(),
                self.wf(),
                self.fed() == old(self).fed() + chunk@.take(i as int),
                lines_of(old(self).fed()) + lines.deep_view() == lines_of(self.fed()),
            decreases n - i,
        {
            let ghost fed_before = self.fed();
            let ghost lines_before = lines.deep_view();
            let b = chunk[i];
            match self.push_byte(b) {
                Some(line) => {
                    lines.push(line);
                    assert(lines.deep_view() =~= lines_before.push(
                        line_content(pending_of(fed_before)),
                    ));
                },
                None => {},
            }
            proof {
                assert(self.fed() =~= old(self).fed() + chunk@.take(i + 1));
            }
            i = i + 1;
        }
        proof {
            assert(chunk@.take(n as int) =~= chunk@);
        }
        lines
    }

    /// Ends the stream. The bytes after the last newline, if any, form one
    /// final line, delivered as they stand.
    pub fn finish(self) -> (line: Option<Vec<u8>>)
        requires
            self.wf(),
        ensures
            line.deep_view() == (if pending_of(self.fed()).len() == 0 {
                None::<Seq<u8>>
            } else {
                Some(pending_of(self.fed()))
            }),
    {
        if self.pending.len() == 0 {
            None
        } else {
            Some(self.pending)
        }
    }
}

} // verus!
