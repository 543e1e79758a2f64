//! A sequence of byte buffers consumed in order, used to scatter one framed
//! message across several pre-sized buffers.

use vstd::prelude::*;

verus! {

/// Byte buffers with a cursor over them: `next_buf_mut` hands out each
/// buffer's position in turn, `reset_pos` rewinds the cursor.
pub struct MultiBuf {
    bufs: Vec<Vec<u8>>,
    pos: usize,
}

impl MultiBuf {
    /// The buffers held, in order.
    pub closed spec fn spec_bufs(&self) -> Seq<Seq<u8>> {
        self.bufs@.map_values(|b: Vec<u8>| b@)
    }

    /// The cursor: how many buffers have been handed out.
    pub closed spec fn spec_pos(&self) -> int {
        self.pos as int
    }

    /// Total length of all buffers held.
    pub open spec fn spec_total_size(&self) -> int {
        self.spec_bufs().fold_left(0, |acc: int, b: Seq<u8>| acc + b.len())
    }

    pub fn new(bufs: Vec<Vec<u8>>) -> (r: Self)
        ensures
            r.spec_bufs() == bufs@.map_values(|b: Vec<u8>| b@),
            r.spec_pos() == 0,
    {
        MultiBuf { bufs, pos: 0 }
    }

    /// Sum of the lengths of all buffers held.
    pub fn total_size(&self) -> (r: usize)
        requires
            self.spec_total_size() <= usize::MAX,
        ensures
            r == self.spec_total_size(),
    {
        let mut total: usize = 0;
        let mut i: usize = 0;
        while i < self.bufs.len()
            invariant
                i <= self.bufs.len(),
                self.spec_total_size() <= usize::MAX,
                total == self.spec_bufs().take(i as int).fold_left(
                    0,
                    |acc: int, b: Seq<u8>| acc + b.len(),
                ),
            decreases self.bufs.len() - i,
        {
            proof {
                lemma_size_prefix_bound(self.spec_bufs(), i + 1);
                assert(self.spec_bufs().take(i + 1).drop_last() =~= self.spec_bufs().take(
                    i as int,
                ));
            }
            total = total + self.bufs[i].len();
            i = i + 1;
        }
        proof {
            assert(self.spec_bufs().take(i as int) =~= self.spec_bufs());
        }
        total
    }

    /// Length of the buffer the cursor stands on, if any.
    pub fn next_size(&self) -> (r: Option<usize>)
        ensures
            match r {
                Some(n) => self.spec_pos() < self.spec_bufs().len() && n == self.spec_bufs()[
                    self.spec_pos()
                ].len(),
                None => self.spec_pos() >= self.spec_bufs().len(),
            },
    {
        if self.pos < self.bufs.len() {
            Some(self.bufs[self.pos].len())
        } else {
            None
        }
    }

    /// The buffers held, in order, for read-only traversal.
    pub fn iter(&self) -> (r: &Vec<Vec<u8>>)
        ensures
            r@.map_values(|b: Vec<u8>| b@) == self.spec_bufs(),
    {
        &self.bufs
    }

    /// Advances the cursor unconditionally and hands out the buffer it
    /// stood on, if it stood on one.
    pub fn next_buf_mut(&mut self) -> (r: Option<&mut Vec<u8>>)
        requires
            old(self).spec_pos() < usize::MAX,
        ensures
            final(self).spec_pos() == old(self).spec_pos() + 1,
            old(self).spec_pos() < old(self).spec_bufs().len() <==> r is Some,
            match r {
                Some(b) => {
                    &&& b@ == old(self).spec_bufs()[old(self).spec_pos()]
                    &&& final(self).spec_bufs() =~= old(self).spec_bufs().update(
                        old(self).spec_pos(),
                        final(b)@,
                    )
                },
                None => final(self).spec_bufs() == old(self).spec_bufs(),
            },
    {
        let p = self.pos;
        self.pos = p + 1;
        if p < self.bufs.len() {
            Some(&mut self.bufs[p])
        } else {
            None
        }
    }

    /// Rewinds the cursor to the first buffer.
    pub fn reset_pos(&mut self)
        ensures
            final(self).spec_bufs() == old(self).spec_bufs(),
            final(self).spec_pos() == 0,
    {
        self.pos = 0;
    }
}

/// The running total over a prefix of the buffers never exceeds the total
/// over all of them.
proof fn lemma_size_prefix_bound(bufs: Seq<Seq<u8>>, n: int)
    requires
        0 <= n <= bufs.len(),
    ensures
        bufs.take(n).fold_left(0, |acc: int, b: Seq<u8>| acc + b.len()) <= bufs.fold_left(
            0,
            |acc: int, b: Seq<u8>| acc + b.len(),
        ),
    decreases bufs.len() - n,
{
    if n < bufs.len() {
        lemma_size_prefix_bound(bufs, n + 1);
        assert(bufs.take(n + 1).drop_last() =~= bufs.take(n));
        lemma_size_prefix_nonneg_step(bufs, n);
    } else {
        assert(bufs.take(n) =~= bufs);
    }
}

/// One more buffer never shrinks the running total.
proof fn lemma_size_prefix_nonneg_step(bufs: Seq<Seq<u8>>, n: int)
    requires
        0 <= n < bufs.len(),
    ensures
        bufs.take(n).fold_left(0, |acc: int, b: Seq<u8>| acc + b.len()) <= bufs.take(n + 1).fold_left(
            0,
            |acc: int, b: Seq<u8>| acc + b.len(),
        ),
{
    assert(bufs.take(n + 1).drop_last() =~= bufs.take(n));
}

} // verus!
