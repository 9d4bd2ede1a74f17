//! Progress reports emitted while the shielded bundle is proved.
use vstd::prelude::*;

verus! {

/// Reports on the progress made by the builder towards building a transaction.
#[derive(Clone, Copy, Debug, PartialEq, Eq, Structural)]
pub struct Progress {
    /// The number of steps completed.
    pub cur: u32,
    /// The expected total number of steps (as of this progress update), if known.
    pub end: Option<u32>,
}

impl Progress {
    pub open spec fn spec_cur(&self) -> u32 {
        self.cur
    }

    pub open spec fn spec_end(&self) -> Option<u32> {
        self.end
    }

    pub fn new(cur: u32, end: Option<u32>) -> (r: Progress)
        ensures
            r.spec_cur() == cur,
            r.spec_end() == end,
    {
        Progress { cur, end }
    }

    /// Returns the number of steps completed so far while building the transaction.
    pub fn cur(&self) -> (r: u32)
        ensures
            r == self.spec_cur(),
    {
        self.cur
    }

    /// Returns the total expected number of steps before this transaction will be ready,
    /// or `None` if the end is unknown as of this progress update.
    pub fn end(&self) -> (r: Option<u32>)
        ensures
            r == self.spec_end(),
    {
        self.end
    }
}

/// The reports of a run of `n` steps out of `total`: the `i`-th says `i + 1` are done.
pub open spec fn progress_run(n: nat, total: u32) -> Seq<Progress> {
    Seq::new(n, |i: int| Progress { cur: (i + 1) as u32, end: Some(total) })
}

/// Successive reports of a run count strictly upwards and never pass the known total.
pub proof fn lemma_progress_monotone(n: nat, total: u32, i: int, j: int)
    requires
        n <= total,
        0 <= i < j < n,
    ensures
        progress_run(n, total)[i].spec_cur() < progress_run(n, total)[j].spec_cur(),
        progress_run(n, total)[j].spec_end() == Some(total),
        progress_run(n, total)[j].spec_cur() <= total,
{
}

} // verus!
