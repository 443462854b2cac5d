//! The block fetch scheduler: fetches may run ahead of the ledger, up to a
//! bound, but blocks are applied strictly in height order and the checkpoint
//! only moves past a block once that block has been applied.

use vstd::prelude::*;

verus! {

pub open spec fn catch_up_target_spec(checkpoint: i64, chain_height: i64, margin: i64) -> Option<
    i64,
> {
    if checkpoint < chain_height - margin {
        Some((chain_height - margin) as i64)
    } else {
        None
    }
}

/// The height to catch up to on a poll: the chain height less the safety
/// margin, or `None` when the checkpoint has already reached it.
pub fn catch_up_target(checkpoint: i64, chain_height: i64, margin: i64) -> (r: Option<i64>)
    requires
        margin >= 0,
    ensures
        r == catch_up_target_spec(checkpoint, chain_height, margin),
{
    let target: i128 = chain_height as i128 - margin as i128;
    if (checkpoint as i128) < target {
        Some(target as i64)
    } else {
        None
    }
}

/// One catching-up run: heights are handed out for fetching in order, at
/// most `max_in_flight` ahead of the ledger, and handed back for applying
/// in the same order.
pub struct Scheduler {
    checkpoint: i64,
    target: i64,
    in_flight: usize,
    max_in_flight: usize,
    stopping: bool,
    stalled: bool,
}

impl Scheduler {
    /// Height of the last block applied.
    pub closed spec fn spec_checkpoint(&self) -> int {
        self.checkpoint as int
    }

    pub closed spec fn spec_target(&self) -> int {
        self.target as int
    }

    /// Number of heights handed out for fetching and not yet applied: they
    /// are the heights right after the checkpoint.
    pub closed spec fn spec_in_flight(&self) -> int {
        self.in_flight as int
    }

    pub closed spec fn spec_max_in_flight(&self) -> int {
        self.max_in_flight as int
    }

    /// A shutdown was requested: no further height is handed out.
    pub closed spec fn spec_stopping(&self) -> bool {
        self.stopping
    }

    /// A block failed to arrive or to apply: nothing more is applied in
    /// this run.
    pub closed spec fn spec_stalled(&self) -> bool {
        self.stalled
    }

    /// The next height to hand out for fetching.
    pub open spec fn next_height(&self) -> int {
        self.spec_checkpoint() + self.spec_in_flight() + 1
    }

    pub open spec fn wf(&self) -> bool {
        &&& 0 <= self.spec_in_flight() <= self.spec_max_in_flight()
        &&& self.spec_max_in_flight() > 0
        &&& self.next_height() <= self.spec_target() + 1 || self.spec_in_flight() == 0
        &&& self.spec_target() < i64::MAX
    }

    pub open spec fn can_submit(&self) -> bool {
        &&& !self.spec_stopping()
        &&& !self.spec_stalled()
        &&& self.next_height() <= self.spec_target()
        &&& self.spec_in_flight() < self.spec_max_in_flight()
    }

    /// The height whose block must be applied next: always the one right
    /// after the checkpoint.
    pub open spec fn spec_head(&self) -> Option<int> {
        if !self.spec_stalled() && self.spec_in_flight() > 0 {
            Some(self.spec_checkpoint() + 1)
        } else {
            None
        }
    }

    /// A run from `checkpoint` to `target`, with at most `max_in_flight`
    /// fetches ahead of the ledger.
    pub fn new(checkpoint: i64, target: i64, max_in_flight: usize) -> (r: Scheduler)
        requires
            max_in_flight > 0,
            target < i64::MAX,
        ensures
            r.wf(),
            r.spec_checkpoint() == checkpoint,
            r.spec_target() == target,
            r.spec_in_flight() == 0,
            r.spec_max_in_flight() == max_in_flight,
            !r.spec_stopping(),
            !r.spec_stalled(),
            checkpoint >= target ==> !r.can_submit() && r.spec_head() is None,
    {
        Scheduler { checkpoint, target, in_flight: 0, max_in_flight, stopping: false, stalled: false }
    }

    pub fn checkpoint(&self) -> (r: i64)
        ensures
            r == self.spec_checkpoint(),
    {
        self.checkpoint
    }

    /// Hands out the next height to fetch, if the bound, the target, a
    /// shutdown or a stall do not forbid it.
    pub fn next_submission(&mut self) -> (r: Option<i64>)
        requires
            old(self).wf(),
        ensures
            final(self).wf(),
            r is Some <==> old(self).can_submit(),
            r matches Some(h) ==> h == old(self).next_height() && final(self).spec_in_flight()
                == old(self).spec_in_flight() + 1,
            r is None ==> final(self).spec_in_flight() == old(self).spec_in_flight(),
            final(self).spec_checkpoint() == old(self).spec_checkpoint(),
            final(self).spec_target() == old(self).spec_target(),
            final(self).spec_max_in_flight() == old(self).spec_max_in_flight(),
            final(self).spec_stopping() == old(self).spec_stopping(),
            final(self).spec_stalled() == old(self).spec_stalled(),
    {
        if self.stopping || self.stalled || self.in_flight >= self.max_in_flight {
            return None;
        }
        let next: i128 = self.checkpoint as i128 + self.in_flight as i128 + 1;
        if next > self.target as i128 {
            return None;
        }
        self.in_flight = self.in_flight + 1;
        Some(next as i64)
    }

    /// Stops handing out heights; those already handed out are still
    /// applied.
    pub fn shutdown(&mut self)
        requires
            old(self).wf(),
        ensures
            final(self).wf(),
            final(self).spec_stopping(),
            final(self).spec_checkpoint() == old(self).spec_checkpoint(),
            final(self).spec_target() == old(self).spec_target(),
            final(self).spec_in_flight() == old(self).spec_in_flight(),
            final(self).spec_max_in_flight() == old(self).spec_max_in_flight(),
            final(self).spec_stalled() == old(self).spec_stalled(),
    {
        self.stopping = true;
    }

    /// The height whose block the consumer must wait for next, even when
    /// later blocks arrived first.
    pub fn head(&self) -> (r: Option<i64>)
        requires
            self.wf(),
        ensures
            r matches Some(h) ==> self.spec_head() == Some(h as int),
            r is None ==> self.spec_head() is None,
    {
        if !self.stalled && self.in_flight > 0 {
            Some(self.checkpoint + 1)
        } else {
            None
        }
    }

    /// Reports the block at the head: applied, the checkpoint moves onto
    /// it; otherwise the run stalls there and the checkpoint stays.
    pub fn complete_head(&mut self, applied: bool)
        requires
            old(self).wf(),
            old(self).spec_head() is Some,
        ensures
            final(self).wf(),
            applied ==> final(self).spec_checkpoint() == old(self).spec_checkpoint() + 1
                && final(self).spec_in_flight() == old(self).spec_in_flight() - 1
                && !final(self).spec_stalled(),
            !applied ==> final(self).spec_checkpoint() == old(self).spec_checkpoint()
                && final(self).spec_stalled() && final(self).spec_in_flight() == old(
                self,
            ).spec_in_flight(),
            final(self).spec_checkpoint() >= old(self).spec_checkpoint(),
            final(self).spec_target() == old(self).spec_target(),
            final(self).spec_max_in_flight() == old(self).spec_max_in_flight(),
            final(self).spec_stopping() == old(self).spec_stopping(),
    {
        if applied {
            self.checkpoint = self.checkpoint + 1;
            self.in_flight = self.in_flight - 1;
        } else {
            self.stalled = true;
        }
    }

    /// Whether the run is over: nothing left to apply and nothing more to
    /// hand out.
    pub fn is_finished(&self) -> (r: bool)
        requires
            self.wf(),
        ensures
            r == (self.spec_head() is None && !self.can_submit()),
    {
        let next: i128 = self.checkpoint as i128 + self.in_flight as i128 + 1;
        let idle = self.stalled || self.in_flight == 0;
        let blocked = self.stopping || self.stalled || self.in_flight >= self.max_in_flight || next
            > self.target as i128;
        idle && blocked
    }
}

/// Resuming from a checkpoint that already stands at the target does no
/// work: no poll finds a height to catch up to, and a run from there hands
/// out no height and has no block to apply.
pub proof fn lemma_caught_up_run_is_empty(
    checkpoint: i64,
    chain_height: i64,
    margin: i64,
    s: Scheduler,
)
    requires
        checkpoint >= chain_height - margin,
        s.wf(),
        s.spec_in_flight() == 0,
        s.spec_checkpoint() >= s.spec_target(),
    ensures
        catch_up_target_spec(checkpoint, chain_height, margin) is None,
        !s.can_submit(),
        s.spec_head() is None,
{
}

} // verus!
