use vstd::prelude::*;

verus! {

/// The byte that ends a line.
pub const NEWLINE: u8 = 10;

/// Scans `s` byte by byte, starting from the complete lines `ls` already found
/// and the unfinished line `cur`: each newline closes the current line, any
/// other byte extends it. The result is the complete lines and what is left.
pub open spec fn scan_from(ls: Seq<Seq<u8>>, cur: Seq<u8>, s: Seq<u8>) -> (Seq<Seq<u8>>, Seq<u8>)
    decreases s.len(),
{
    if s.len() == 0 {
        (ls, cur)
    } else {
        let (l, c) = scan_from(ls, cur, s.drop_last());
        if s.last() == NEWLINE {
            (l.push(c), Seq::empty())
        } else {
            (l, c.push(s.last()))
        }
    }
}

/// The newline-terminated lines of `s`, without their newlines.
pub open spec fn complete_lines(s: Seq<u8>) -> Seq<Seq<u8>> {
    scan_from(Seq::empty(), Seq::empty(), s).0
}

/// How many newlines `s` holds.
pub open spec fn newline_count(s: Seq<u8>) -> nat
    decreases s.len(),
{
    if s.len() == 0 {
        0
    } else {
        newline_count(s.drop_last()) + if s.last() == NEWLINE { 1nat } else { 0nat }
    }
}

/// The chunks written one after another.
pub open spec fn joined(chunks: Seq<Seq<u8>>) -> Seq<u8>
    decreases chunks.len(),
{
    if chunks.len() == 0 {
        Seq::empty()
    } else {
        joined(chunks.drop_last()) + chunks.last()
    }
}

/// What a decoder holding `cur` yields when fed `chunks` one at a time: all the
/// lines it hands out, in order, and what it holds afterwards.
pub open spec fn fed(cur: Seq<u8>, chunks: Seq<Seq<u8>>) -> (Seq<Seq<u8>>, Seq<u8>)
    decreases chunks.len(),
{
    if chunks.len() == 0 {
        (Seq::empty(), cur)
    } else {
        let (l1, c1) = fed(cur, chunks.drop_last());
        let (l2, c2) = scan_from(Seq::empty(), c1, chunks.last());
        (l1 + l2, c2)
    }
}

/// Scanning starts over from any line found so far: those lines stay in front.
pub proof fn lemma_scan_prefix(ls: Seq<Seq<u8>>, cur: Seq<u8>, s: Seq<u8>)
    ensures
        scan_from(ls, cur, s).0 == ls + scan_from(Seq::empty(), cur, s).0,
        scan_from(ls, cur, s).1 == scan_from(Seq::empty(), cur, s).1,
    decreases s.len(),
{
    if s.len() > 0 {
        lemma_scan_prefix(ls, cur, s.drop_last());
        let l = scan_from(Seq::<Seq<u8>>::empty(), cur, s.drop_last()).0;
        let c = scan_from(Seq::<Seq<u8>>::empty(), cur, s.drop_last()).1;
        assert((ls + l).push(c) =~= ls + l.push(c));
    }
}

/// Scanning `a + b` is scanning `a`, then going on with `b`.
pub proof fn lemma_scan_split(ls: Seq<Seq<u8>>, cur: Seq<u8>, a: Seq<u8>, b: Seq<u8>)
    ensures
        scan_from(ls, cur, a + b) == scan_from(scan_from(ls, cur, a).0, scan_from(ls, cur, a).1, b),
    decreases b.len(),
{
    if b.len() == 0 {
        assert(a + b =~= a);
    } else {
        assert((a + b).drop_last() =~= a + b.drop_last());
        assert((a + b).last() == b.last());
        lemma_scan_split(ls, cur, a, b.drop_last());
    }
}

/// Each newline closes exactly one line.
pub proof fn lemma_scan_count(cur: Seq<u8>, s: Seq<u8>)
    ensures
        scan_from(Seq::empty(), cur, s).0.len() == newline_count(s),
    decreases s.len(),
{
    if s.len() > 0 {
        lemma_scan_count(cur, s.drop_last());
    }
}

/// However a byte stream is cut into chunks, a decoder fed the chunks one at a
/// time hands out exactly the newline-terminated lines of the whole stream, in
/// order, one for each newline, and holds the unfinished tail afterwards.
pub proof fn lemma_chunking_is_irrelevant(chunks: Seq<Seq<u8>>)
    ensures
        fed(Seq::empty(), chunks) == scan_from(Seq::empty(), Seq::empty(), joined(chunks)),
        fed(Seq::empty(), chunks).0 == complete_lines(joined(chunks)),
        fed(Seq::empty(), chunks).0.len() == newline_count(joined(chunks)),
{
    lemma_fed_from(Seq::empty(), chunks);
    lemma_scan_count(Seq::empty(), joined(chunks));
}

proof fn lemma_fed_from(cur: Seq<u8>, chunks: Seq<Seq<u8>>)
    ensures
        fed(cur, chunks) == scan_from(Seq::empty(), cur, joined(chunks)),
    decreases chunks.len(),
{
    if chunks.len() > 0 {
        let init = chunks.drop_last();
        lemma_fed_from(cur, init);
        let (l1, c1) = scan_from(Seq::empty(), cur, joined(init));
        lemma_scan_split(Seq::empty(), cur, joined(init), chunks.last());
        lemma_scan_prefix(l1, c1, chunks.last());
    }
}

/// Splits a byte stream into lines. Bytes after the last newline are held
/// until a later chunk completes their line.
pub struct LineDecoder {
    buf: Vec<u8>,
}

impl LineDecoder {
    /// The bytes of the unfinished line.
    pub closed spec fn pending(&self) -> Seq<u8> {
        self.buf@
    }

    pub fn new() -> (r: LineDecoder)
        ensures
            r.pending() == Seq::<u8>::empty(),
    {
        LineDecoder { buf: Vec::new() }
    }

    /// Appends `chunk` to what is held and takes out every complete line, in
    /// order and without its newline.
    pub fn push(&mut self, chunk: &[u8]) -> (lines: Vec<Vec<u8>>)
        ensures
            lines@.map_values(|l: Vec<u8>| l@) == scan_from(Seq::empty(), old(self).pending(), chunk@).0,
            final(self).pending() == scan_from(Seq::empty(), old(self).pending(), chunk@).1,
    {
        let ghost start = self.buf@;
        let mut lines: Vec<Vec<u8>> = Vec::new();
        let mut i: usize = 0;
        while i < chunk.len()
            invariant
                i <= chunk@.len(),
                (lines@.map_values(|l: Vec<u8>| l@), self.buf@) == scan_from(
                    Seq::empty(),
                    start,
                    chunk@.subrange(0, i as int),
                ),
            decreases chunk@.len() - i,
        {
            let b = chunk[i];
            assert(chunk@.subrange(0, i + 1).drop_last() =~= chunk@.subrange(0, i as int));
            if b == NEWLINE {
                let mut line: Vec<u8> = Vec::new();
                core::mem::swap(&mut line, &mut self.buf);
                let ghost before = lines@.map_values(|l: Vec<u8>| l@);
                lines.push(line);
                assert(lines@.map_values(|l: Vec<u8>| l@) =~= before.push(line@));
            } else {
                self.buf.push(b);
            }
            i = i + 1;
        }
        assert(chunk@.subrange(0, i as int) =~= chunk@);
        lines
    }
}

} // verus!
