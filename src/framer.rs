use vstd::prelude::*;

verus! {

/// Complete lines and the unfinished tail, after one more byte arrives.
pub open spec fn take_byte(acc: (Seq<Seq<u8>>, Seq<u8>), b: u8) -> (Seq<Seq<u8>>, Seq<u8>) {
    if b == 10 {
        (acc.0.push(acc.1), Seq::empty())
    } else {
        (acc.0, acc.1.push(b))
    }
}

/// Complete lines and the unfinished tail, after the bytes `s` arrive on top of `acc`.
/// A line feed ends a line and belongs to none.
pub open spec fn take_bytes(acc: (Seq<Seq<u8>>, Seq<u8>), s: Seq<u8>) -> (Seq<Seq<u8>>, Seq<u8>)
    decreases s.len(),
{
    if s.len() == 0 {
        acc
    } else {
        take_byte(take_bytes(acc, s.drop_last()), s.last())
    }
}

/// Receiving `a` and then `b` is receiving `a + b`.
pub proof fn lemma_take_bytes_concat(acc: (Seq<Seq<u8>>, Seq<u8>), a: Seq<u8>, b: Seq<u8>)
    ensures
        take_bytes(acc, a + b) == take_bytes(take_bytes(acc, a), b),
    decreases b.len(),
{
    if b.len() == 0 {
        assert(a + b =~= a);
    } else {
        assert((a + b).drop_last() =~= a + b.drop_last());
        assert((a + b).last() == b.last());
        lemma_take_bytes_concat(acc, a, b.drop_last());
    }
}

/// Tells whether `s` holds no line feed.
pub open spec fn has_no_line_feed(s: Seq<u8>) -> bool {
    forall|i: int| 0 <= i < s.len() ==> s[i] != 10u8
}

/// Bytes without a line feed only lengthen the unfinished tail.
pub proof fn lemma_take_bytes_no_newline(acc: (Seq<Seq<u8>>, Seq<u8>), s: Seq<u8>)
    requires
        has_no_line_feed(s),
    ensures
        take_bytes(acc, s) == (acc.0, acc.1 + s),
    decreases s.len(),
{
    if s.len() == 0 {
        assert(acc.1 + s =~= acc.1);
    } else {
        assert(s.last() != 10u8) by {
            assert(s[s.len() - 1] == s.last());
        }
        lemma_take_bytes_no_newline(acc, s.drop_last());
        assert((acc.1 + s.drop_last()).push(s.last()) =~= acc.1 + s);
    }
}

/// The lines completed before are kept, and the new ones follow them.
pub proof fn lemma_take_bytes_keeps_lines(lines: Seq<Seq<u8>>, pending: Seq<u8>, s: Seq<u8>)
    ensures
        take_bytes((lines, pending), s) == (
            lines + take_bytes((Seq::empty(), pending), s).0,
            take_bytes((Seq::empty(), pending), s).1,
        ),
    decreases s.len(),
{
    if s.len() == 0 {
        assert(lines + Seq::<Seq<u8>>::empty() =~= lines);
    } else {
        lemma_take_bytes_keeps_lines(lines, pending, s.drop_last());
        let r = take_bytes((Seq::empty(), pending), s.drop_last());
        assert((lines + r.0).push(r.1) =~= lines + r.0.push(r.1));
    }
}

/// Splits the incoming byte stream into lines, keeping an unfinished line until its line
/// feed arrives, however the stream is cut into chunks.
pub struct LineFramer {
    pending: Vec<u8>,
}

impl LineFramer {
    /// The bytes of the line that has begun but not ended.
    pub closed spec fn pending(&self) -> Seq<u8> {
        self.pending@
    }

    /// A framer that has seen nothing.
    pub fn new() -> (r: LineFramer)
        ensures
            r.pending() == Seq::<u8>::empty(),
    {
        LineFramer { pending: Vec::new() }
    }

    /// Hands out the unfinished line, as where the stream has ended, and starts afresh.
    pub fn take_pending(&mut self) -> (r: Vec<u8>)
        ensures
            r@ == old(self).pending(),
            final(self).pending() == Seq::<u8>::empty(),
    {
        let mut r: Vec<u8> = Vec::new();
        std::mem::swap(&mut r, &mut self.pending);
        r
    }

    /// Takes in a chunk and returns the lines it completes, without their line feeds.
    pub fn push(&mut self, chunk: &[u8]) -> (lines: Vec<Vec<u8>>)
        ensures
            (lines@.map_values(|l: Vec<u8>| l@), final(self).pending()) == take_bytes(
                (Seq::empty(), old(self).pending()),
                chunk@,
            ),
    {
        let ghost start = (Seq::<Seq<u8>>::empty(), self.pending@);
        let mut lines: Vec<Vec<u8>> = Vec::new();
        let mut i: usize = 0;
        assert(chunk@.subrange(0, 0) =~= Seq::<u8>::empty());
        assert(lines@.map_values(|l: Vec<u8>| l@) =~= Seq::<Seq<u8>>::empty());
        while i < chunk.len()
            invariant
                i <= chunk@.len(),
                (lines@.map_values(|l: Vec<u8>| l@), self.pending@) == take_bytes(
                    start,
                    chunk@.subrange(0, i as int),
                ),
            decreases chunk@.len() - i,
        {
            let b = chunk[i];
            let ghost before = lines@.map_values(|l: Vec<u8>| l@);
            if b == 10u8 {
                let mut line: Vec<u8> = Vec::new();
                std::mem::swap(&mut line, &mut self.pending);
                lines.push(line);
                assert(lines@.map_values(|l: Vec<u8>| l@) =~= before.push(line@));
            } else {
                self.pending.push(b);
            }
            assert(chunk@.subrange(0, i + 1).drop_last() =~= chunk@.subrange(0, i as int));
            i = i + 1;
        }
        assert(chunk@.subrange(0, i as int) =~= chunk@);
        lines
    }
}

} // verus!
