//! Bounded history window: per-step outcome retention with FIFO eviction.
//!
//! A row records one event's ignition flag together with the scalar
//! statistics the caller wants retained (free-energy delta, temperature,
//! exploration inputs).  The window logic never interprets those
//! statistics, so they stay behind a type parameter; the rolling averages
//! over them are computed by the caller from the retained rows.  What the
//! window itself guarantees — retention order, capacity, and the count of
//! ignited rows — is stated and proved here.

use vstd::prelude::*;

verus! {

/// One retained step: its timestep, whether it ignited, and the caller's
/// per-step statistics, carried but never read by the window logic.
#[derive(Clone, Copy, Debug, PartialEq)]
pub struct MemoryRow<P> {
    pub t: u64,
    pub ignited: bool,
    pub stats: P,
}

/// FIFO window of the most recent rows, holding at most `window_max`.
#[derive(Clone, Debug)]
pub struct MemoryState<P> {
    pub window_max: usize,
    pub rows: Vec<MemoryRow<P>>,
}

/// The window after appending `row` to `rows` under capacity `cap`: the
/// newest `cap` rows of the appended sequence, all of them if fewer.
pub open spec fn window_push<P>(
    rows: Seq<MemoryRow<P>>,
    row: MemoryRow<P>,
    cap: int,
) -> Seq<MemoryRow<P>> {
    let all = rows.push(row);
    if all.len() > cap {
        all.skip(all.len() - cap)
    } else {
        all
    }
}

/// How many of the rows ignited.
pub open spec fn ignited_count<P>(rows: Seq<MemoryRow<P>>) -> int
    decreases rows.len(),
{
    if rows.len() == 0 {
        0
    } else {
        ignited_count(rows.drop_last()) + if rows.last().ignited {
            1int
        } else {
            0int
        }
    }
}

impl<P> MemoryState<P> {
    /// The window never holds more rows than its capacity.
    pub open spec fn wf(&self) -> bool {
        self.rows@.len() <= self.window_max
    }

    /// An empty window of capacity `window_max`.
    pub fn new(window_max: usize) -> (s: Self)
        ensures
            s.window_max == window_max,
            s.rows@ =~= Seq::<MemoryRow<P>>::empty(),
            s.wf(),
    {
        MemoryState { window_max, rows: Vec::new() }
    }

    /// Appends a row, evicting the oldest excess rows beyond the capacity.
    pub fn push(&mut self, row: MemoryRow<P>)
        ensures
            final(self).window_max == old(self).window_max,
            final(self).rows@ == window_push(old(self).rows@, row, old(self).window_max as int),
            final(self).wf(),
    {
        let ghost all: Seq<MemoryRow<P>> = self.rows@.push(row);
        let ghost wmax: usize = self.window_max;
        self.rows.push(row);
        while self.rows.len() > self.window_max
            invariant
                self.window_max == wmax,
                self.rows@.len() <= all.len(),
                self.rows@.len() >= wmax || self.rows@.len() == all.len(),
                self.rows@ == all.skip(all.len() - self.rows@.len()),
            decreases self.rows@.len(),
        {
            self.rows.remove(0);
            proof {
                assert(self.rows@ =~= all.skip(all.len() - self.rows@.len()));
            }
        }
        proof {
            assert(self.rows@ =~= window_push(old(self).rows@, row, wmax as int));
        }
    }

    /// Number of rows currently retained.
    pub fn mem_window_len(&self) -> (n: usize)
        ensures
            n == self.rows@.len(),
    {
        self.rows.len()
    }

    /// Number of retained rows that ignited.  Together with
    /// [`Self::mem_window_len`] this gives the ignition rate over the
    /// current window, counting retained rows only.
    pub fn mem_ignite_count(&self) -> (c: usize)
        ensures
            c == ignited_count(self.rows@),
    {
        let mut c: usize = 0;
        let mut i: usize = 0;
        while i < self.rows.len()
            invariant
                i <= self.rows@.len(),
                c <= i,
                c == ignited_count(self.rows@.subrange(0, i as int)),
            decreases self.rows@.len() - i,
        {
            if self.rows[i].ignited {
                c = c + 1;
            }
            i = i + 1;
            proof {
                assert(self.rows@.subrange(0, i as int).drop_last() =~= self.rows@.subrange(
                    0,
                    i as int - 1,
                ));
            }
        }
        proof {
            assert(self.rows@.subrange(0, self.rows@.len() as int) =~= self.rows@);
        }
        c
    }
}

/// Law: between none and all of the rows ignited, so the ignition rate
/// over a window — ignited count over window length — lies in [0, 1].
pub proof fn lemma_ignited_count_bounds<P>(rows: Seq<MemoryRow<P>>)
    ensures
        0 <= ignited_count(rows) <= rows.len(),
    decreases rows.len(),
{
    if rows.len() > 0 {
        lemma_ignited_count_bounds(rows.drop_last());
    }
}

/// Law: however many rows have been pushed, the window holds at most `cap`
/// rows, and exactly the newest ones — pushing beyond the capacity evicts
/// from the front only.
pub proof fn lemma_window_retains_newest<P>(rows: Seq<MemoryRow<P>>, row: MemoryRow<P>, cap: int)
    requires
        cap >= 0,
    ensures
        window_push(rows, row, cap).len() == vstd::math::min(rows.len() as int + 1, cap),
        forall|i: int|
            0 <= i < window_push(rows, row, cap).len() ==> window_push(rows, row, cap)[i]
                == rows.push(row)[rows.len() + 1 - window_push(rows, row, cap).len() + i],
{
}

} // verus!
