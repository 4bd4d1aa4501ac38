//! Assembling the bytes read from one output stream into complete lines.
use vstd::prelude::*;

verus! {

/// The byte that ends a line.
pub const NEWLINE: u8 = 10;

/// `s` holds no line terminator.
pub open spec fn no_newline(s: Seq<u8>) -> bool {
    forall|i: int| 0 <= i < s.len() ==> s[i] != NEWLINE
}

/// `l` is one complete line: it ends with the terminator and holds no other.
pub open spec fn is_line(l: Seq<u8>) -> bool {
    l.len() > 0 && l.last() == NEWLINE && no_newline(l.drop_last())
}

/// The lines one after the other, as they stood in the stream.
pub open spec fn joined(ls: Seq<Seq<u8>>) -> Seq<u8>
    decreases ls.len(),
{
    if ls.len() == 0 {
        Seq::empty()
    } else {
        joined(ls.drop_last()) + ls.last()
    }
}

/// The byte contents of a list of lines.
pub open spec fn lines_view(ls: Seq<Vec<u8>>) -> Seq<Seq<u8>> {
    ls.map_values(|l: Vec<u8>| l@)
}

/// In `a + l + r`, with `l` a line and `r` free of terminators, the last
/// terminator stands just before `r`.
proof fn lemma_last_newline(a: Seq<u8>, l: Seq<u8>, r: Seq<u8>)
    requires
        is_line(l),
        no_newline(r),
    ensures
        (a + l + r)[(a + l + r).len() - r.len() - 1] == NEWLINE,
        forall|j: int|
            (a + l + r).len() - r.len() <= j < (a + l + r).len() ==> (a + l + r)[j] != NEWLINE,
{
    let s = a + l + r;
    assert(s[s.len() - r.len() - 1] == l[l.len() - 1]);
    assert forall|j: int| s.len() - r.len() <= j < s.len() implies s[j] != NEWLINE by {
        assert(s[j] == r[j - (s.len() - r.len())]);
    }
}

/// Splitting bytes into complete lines and a trailing fragment can be done
/// in one way only: whatever chunks a stream arrives in, the same lines
/// come out, in the same order, and the same fragment stays behind.
pub proof fn law_split_unique(ls1: Seq<Seq<u8>>, r1: Seq<u8>, ls2: Seq<Seq<u8>>, r2: Seq<u8>)
    requires
        forall|i: int| 0 <= i < ls1.len() ==> is_line(#[trigger] ls1[i]),
        forall|i: int| 0 <= i < ls2.len() ==> is_line(#[trigger] ls2[i]),
        no_newline(r1),
        no_newline(r2),
        joined(ls1) + r1 == joined(ls2) + r2,
    ensures
        ls1 == ls2,
        r1 == r2,
    decreases ls1.len() + ls2.len(),
{
    let s = joined(ls1) + r1;
    if ls1.len() == 0 && ls2.len() == 0 {
        assert(ls1 =~= ls2);
    } else if ls1.len() == 0 {
        lemma_last_newline(joined(ls2.drop_last()), ls2.last(), r2);
        assert(s[s.len() - r2.len() - 1] == r1[s.len() - r2.len() - 1]);
    } else if ls2.len() == 0 {
        lemma_last_newline(joined(ls1.drop_last()), ls1.last(), r1);
        assert(s[s.len() - r1.len() - 1] == r2[s.len() - r1.len() - 1]);
    } else {
        let a1 = joined(ls1.drop_last());
        let a2 = joined(ls2.drop_last());
        let l1 = ls1.last();
        let l2 = ls2.last();
        assert(s == a1 + l1 + r1);
        assert(s == a2 + l2 + r2);
        lemma_last_newline(a1, l1, r1);
        lemma_last_newline(a2, l2, r2);
        assert(r1.len() == r2.len());
        assert(r1 =~= s.subrange(s.len() - r1.len(), s.len() as int));
        assert(r2 =~= s.subrange(s.len() - r2.len(), s.len() as int));
        let x = s.subrange(0, s.len() - r1.len() - 1);
        assert(x =~= a1 + l1.drop_last());
        assert(x =~= a2 + l2.drop_last());
        let ls1p = ls1.drop_last();
        let ls2p = ls2.drop_last();
        assert forall|i: int| 0 <= i < ls1p.len() implies is_line(#[trigger] ls1p[i]) by {
            assert(ls1p[i] == ls1[i]);
        }
        assert forall|i: int| 0 <= i < ls2p.len() implies is_line(#[trigger] ls2p[i]) by {
            assert(ls2p[i] == ls2[i]);
        }
        assert(is_line(ls1[ls1.len() - 1]));
        assert(is_line(ls2[ls2.len() - 1]));
        law_split_unique(ls1p, l1.drop_last(), ls2p, l2.drop_last());
        assert(l1 =~= l1.drop_last().push(NEWLINE));
        assert(l2 =~= l2.drop_last().push(NEWLINE));
        assert(ls1 =~= ls1p.push(l1));
        assert(ls2 =~= ls2p.push(l2));
    }
}

/// Bytes of one stream that have been read but do not yet make a complete line.
pub struct LineBuffer {
    pending: Vec<u8>,
}

impl View for LineBuffer {
    type V = Seq<u8>;

    closed spec fn view(&self) -> Seq<u8> {
        self.pending@
    }
}

impl LineBuffer {
    /// A buffer never holds a complete line: each one leaves as soon as its
    /// terminator arrives.
    pub open spec fn wf(&self) -> bool {
        no_newline(self@)
    }

    /// An empty buffer.
    pub fn new() -> (r: LineBuffer)
        ensures
            r.wf(),
            r@ == Seq::<u8>::empty(),
    {
        LineBuffer { pending: Vec::new() }
    }

    /// Takes the next bytes of the stream and hands out, in stream order, every
    /// line that they complete. What follows the last terminator stays behind.
    pub fn push_bytes(&mut self, chunk: &[u8]) -> (lines: Vec<Vec<u8>>)
        requires
            old(self).wf(),
        ensures
            final(self).wf(),
            joined(lines_view(lines@)) + final(self)@ == old(self)@ + chunk@,
            forall|i: int| 0 <= i < lines@.len() ==> is_line(#[trigger] lines@[i]@),
    {
        let mut lines: Vec<Vec<u8>> = Vec::new();
        let mut i: usize = 0;
        while i < chunk.len()
            invariant
                i <= chunk@.len(),
                self.wf(),
                joined(lines_view(lines@)) + self@ == old(self)@ + chunk@.subrange(0, i as int),
                forall|k: int| 0 <= k < lines@.len() ==> is_line(#[trigger] lines@[k]@),
            decreases chunk@.len() - i,
        {
            let b = chunk[i];
            let ghost before = lines_view(lines@);
            let ghost pend = self@;
            self.pending.push(b);
            assert(chunk@.subrange(0, i + 1) =~= chunk@.subrange(0, i as int).push(b));
            if b == NEWLINE {
                let mut done: Vec<u8> = Vec::new();
                std::mem::swap(&mut done, &mut self.pending);
                assert(done@.drop_last() =~= pend);
                lines.push(done);
                assert(lines_view(lines@) =~= before.push(done@));
                assert(lines_view(lines@).drop_last() =~= before);
                assert(joined(lines_view(lines@)) == joined(before) + done@);
                assert(self@ =~= Seq::<u8>::empty());
                assert(joined(lines_view(lines@)) + self@ =~= joined(before) + pend + seq![b]);
            } else {
                assert(self@ =~= pend.push(b));
                assert(joined(before) + self@ =~= joined(before) + pend + seq![b]);
            }
            i = i + 1;
        }
        assert(chunk@.subrange(0, chunk@.len() as int) =~= chunk@);
        lines
    }

    /// Ends the stream. A last fragment without a terminator is no line: it is
    /// handed back, so that the caller can report it, and never forwarded.
    pub fn finish(self) -> (fragment: Vec<u8>)
        ensures
            fragment@ == self@,
    {
        self.pending
    }
}

} // verus!
