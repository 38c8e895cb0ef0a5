//! The sync coordinator's record: when the last pass ended, whether one is running,
//! and which manual triggers are waiting.
//!
//! Every method takes the current reading of a monotonic clock in milliseconds, so the
//! record itself never looks at a clock. Exclusive access (`&mut self`) stands for the
//! lock or compare-and-swap that guards the record where it is shared.

use vstd::prelude::*;

verus! {

/// Why a sync pass starts.
#[derive(Debug, Clone, Copy, PartialEq, Eq, Structural)]
pub enum SyncReason {
    /// A full refresh was requested: cursors are cleared first.
    ManualFull,
    /// A refresh was requested.
    Manual,
    /// The interval since the last pass has elapsed.
    Periodic,
}

/// The coordinator's record.
#[derive(Debug, Clone, Copy)]
pub struct SyncState {
    /// Time between two periodic passes, in milliseconds.
    pub interval_ms: u64,
    /// When the last pass ended.
    pub last_sync_end: Option<u64>,
    /// When the last full pass ended.
    pub last_full_sync_end: Option<u64>,
    /// Whether a pass is running.
    pub in_progress: bool,
    /// Whether a refresh was requested and not yet picked up.
    pub manual_pending: bool,
    /// Whether a full refresh was requested and not yet picked up.
    pub manual_full_pending: bool,
}

/// One transition of the record.
pub enum SyncOp {
    Start,
    Complete(u64),
    FullComplete(u64),
    End,
    TriggerManual,
    TriggerManualFull,
    ClearManual,
    ClearManualFull,
}

/// `interval_secs` seconds in milliseconds, capped at the `u64` range.
pub open spec fn interval_millis(interval_secs: u64) -> u64 {
    if interval_secs as int * 1000 > u64::MAX as int {
        u64::MAX
    } else {
        (interval_secs * 1000) as u64
    }
}

/// Whole seconds between `since` and `now`; zero if `now` is not later.
pub open spec fn elapsed_secs(since: u64, now: u64) -> u64 {
    if now >= since {
        ((now - since) / 1000) as u64
    } else {
        0
    }
}

/// Whole seconds until the next periodic pass is due.
pub open spec fn secs_until_next(s: SyncState, now: u64) -> u64 {
    match s.last_sync_end {
        None => 0,
        Some(t) => {
            let elapsed: int = if now >= t {
                now - t
            } else {
                0
            };
            if s.interval_ms as int > elapsed {
                ((s.interval_ms - elapsed) / 1000) as u64
            } else {
                0
            }
        },
    }
}

/// The record after `op`.
pub open spec fn step(s: SyncState, op: SyncOp) -> SyncState {
    match op {
        SyncOp::Start => SyncState { in_progress: true, ..s },
        SyncOp::Complete(now) => SyncState { last_sync_end: Some(now), ..s },
        SyncOp::FullComplete(now) => SyncState { last_full_sync_end: Some(now), ..s },
        SyncOp::End => SyncState { in_progress: false, ..s },
        SyncOp::TriggerManual => SyncState { manual_pending: true, ..s },
        SyncOp::TriggerManualFull => SyncState { manual_full_pending: true, ..s },
        SyncOp::ClearManual => SyncState { manual_pending: false, ..s },
        SyncOp::ClearManualFull => SyncState { manual_full_pending: false, ..s },
    }
}

/// The record after the transitions `ops`, applied in order.
pub open spec fn run(s: SyncState, ops: Seq<SyncOp>) -> SyncState
    decreases ops.len(),
{
    if ops.len() == 0 {
        s
    } else {
        step(run(s, ops.drop_last()), ops.last())
    }
}

/// Whether a call of `mark_sync_start` on `s` reports success.
pub open spec fn start_succeeds(s: SyncState) -> bool {
    !s.in_progress
}

/// The reason for which a poll of `s` at `now` wants a pass, if it wants one.
pub open spec fn wanted(s: SyncState, now: u64) -> Option<SyncReason> {
    if s.manual_full_pending {
        Some(SyncReason::ManualFull)
    } else if s.manual_pending {
        Some(SyncReason::Manual)
    } else if secs_until_next(s, now) == 0 {
        Some(SyncReason::Periodic)
    } else {
        None
    }
}

impl SyncState {
    /// A record for passes every `interval_secs` seconds: nothing has run, nothing is pending.
    pub fn new(interval_secs: u64) -> (s: Self)
        ensures
            s == (SyncState {
                interval_ms: interval_millis(interval_secs),
                last_sync_end: None,
                last_full_sync_end: None,
                in_progress: false,
                manual_pending: false,
                manual_full_pending: false,
            }),
    {
        let interval_ms: u64 = if interval_secs > u64::MAX / 1000 {
            u64::MAX
        } else {
            interval_secs * 1000
        };
        SyncState {
            interval_ms,
            last_sync_end: None,
            last_full_sync_end: None,
            in_progress: false,
            manual_pending: false,
            manual_full_pending: false,
        }
    }

    /// Claims the right to run a pass: succeeds exactly when none is running.
    pub fn mark_sync_start(&mut self) -> (started: bool)
        ensures
            started == start_succeeds(*old(self)),
            *final(self) == step(*old(self), SyncOp::Start),
    {
        let started = !self.in_progress;
        self.in_progress = true;
        started
    }

    /// Records that a pass ended at `now_ms`.
    pub fn mark_sync_complete(&mut self, now_ms: u64)
        ensures
            *final(self) == step(*old(self), SyncOp::Complete(now_ms)),
    {
        self.last_sync_end = Some(now_ms);
    }

    /// Records that a full pass ended at `now_ms`.
    pub fn mark_full_sync_complete(&mut self, now_ms: u64)
        ensures
            *final(self) == step(*old(self), SyncOp::FullComplete(now_ms)),
    {
        self.last_full_sync_end = Some(now_ms);
    }

    /// Gives up the right to run a pass.
    pub fn mark_sync_end(&mut self)
        ensures
            *final(self) == step(*old(self), SyncOp::End),
    {
        self.in_progress = false;
    }

    /// Requests a refresh.
    pub fn trigger_manual(&mut self)
        ensures
            *final(self) == step(*old(self), SyncOp::TriggerManual),
    {
        self.manual_pending = true;
    }

    /// Requests a full refresh.
    pub fn trigger_manual_full(&mut self)
        ensures
            *final(self) == step(*old(self), SyncOp::TriggerManualFull),
    {
        self.manual_full_pending = true;
    }

    /// Reads and clears the refresh request.
    pub fn check_and_clear_manual_trigger(&mut self) -> (was_pending: bool)
        ensures
            was_pending == old(self).manual_pending,
            *final(self) == step(*old(self), SyncOp::ClearManual),
    {
        let was_pending = self.manual_pending;
        self.manual_pending = false;
        was_pending
    }

    /// Reads and clears the full-refresh request.
    pub fn check_and_clear_manual_full_trigger(&mut self) -> (was_pending: bool)
        ensures
            was_pending == old(self).manual_full_pending,
            *final(self) == step(*old(self), SyncOp::ClearManualFull),
    {
        let was_pending = self.manual_full_pending;
        self.manual_full_pending = false;
        was_pending
    }

    /// Whole seconds until the next periodic pass is due: zero before the first pass
    /// has ended, and zero once the interval has elapsed.
    pub fn seconds_until_next_sync(&self, now_ms: u64) -> (secs: u64)
        ensures
            secs == secs_until_next(*self, now_ms),
    {
        match self.last_sync_end {
            None => 0,
            Some(t) => {
                let elapsed: u64 = if now_ms >= t {
                    now_ms - t
                } else {
                    0
                };
                if self.interval_ms > elapsed {
                    (self.interval_ms - elapsed) / 1000
                } else {
                    0
                }
            },
        }
    }

    /// When the last pass ended.
    pub fn last_sync(&self) -> (t: Option<u64>)
        ensures
            t == self.last_sync_end,
    {
        self.last_sync_end
    }

    /// When the last full pass ended.
    pub fn last_full_sync(&self) -> (t: Option<u64>)
        ensures
            t == self.last_full_sync_end,
    {
        self.last_full_sync_end
    }

    /// Whether a pass is running.
    pub fn is_sync_in_progress(&self) -> (b: bool)
        ensures
            b == self.in_progress,
    {
        self.in_progress
    }

    /// One tick of the coordinator's loop. Both manual requests are read and cleared;
    /// then, if a full refresh was requested, or a refresh, or the interval has elapsed
    /// (looked at in this order), the pass is claimed. The result names the reason when
    /// the claim succeeded.
    pub fn poll(&mut self, now_ms: u64) -> (reason: Option<SyncReason>)
        ensures
            reason == (if start_succeeds(*old(self)) {
                wanted(*old(self), now_ms)
            } else {
                None
            }),
            *final(self) == (SyncState {
                manual_pending: false,
                manual_full_pending: false,
                in_progress: old(self).in_progress || wanted(*old(self), now_ms) is Some,
                ..*old(self)
            }),
    {
        let full = self.check_and_clear_manual_full_trigger();
        let manual = self.check_and_clear_manual_trigger();
        let due = self.seconds_until_next_sync(now_ms) == 0;
        if (full || manual || due) && self.mark_sync_start() {
            if full {
                Some(SyncReason::ManualFull)
            } else if manual {
                Some(SyncReason::Manual)
            } else {
                Some(SyncReason::Periodic)
            }
        } else {
            None
        }
    }

    /// Closes the pass that `poll` claimed for `reason`: records its end at `now_ms`,
    /// also as the end of a full pass where it was one, and releases the claim.
    pub fn finish(&mut self, reason: SyncReason, now_ms: u64)
        ensures
            *final(self) == (SyncState {
                last_sync_end: Some(now_ms),
                last_full_sync_end: if reason == SyncReason::ManualFull {
                    Some(now_ms)
                } else {
                    old(self).last_full_sync_end
                },
                in_progress: false,
                ..*old(self)
            }),
    {
        self.mark_sync_complete(now_ms);
        if reason == SyncReason::ManualFull {
            self.mark_full_sync_complete(now_ms);
        }
        self.mark_sync_end();
    }
}

/// Only `End` releases a claim: after a run of transitions without `End`, a record
/// on which a pass was running still has one running.
pub proof fn lemma_claim_is_kept(s: SyncState, ops: Seq<SyncOp>)
    requires
        s.in_progress,
        forall|k: int| 0 <= k < ops.len() ==> !(ops[k] is End),
    ensures
        run(s, ops).in_progress,
    decreases ops.len(),
{
    if ops.len() > 0 {
        lemma_claim_is_kept(s, ops.drop_last());
    }
}

/// The record after `ops[..j]` is the record after `ops[..i]`, followed by `ops[i..j]`.
pub proof fn lemma_run_split(s: SyncState, ops: Seq<SyncOp>, i: int, j: int)
    requires
        0 <= i <= j <= ops.len(),
    ensures
        run(s, ops.take(j)) == run(run(s, ops.take(i)), ops.subrange(i, j)),
    decreases j - i,
{
    if i == j {
        assert(ops.subrange(i, j) =~= Seq::<SyncOp>::empty());
    } else {
        lemma_run_split(s, ops, i, j - 1);
        assert(ops.take(j).drop_last() =~= ops.take(j - 1));
        assert(ops.subrange(i, j).drop_last() =~= ops.subrange(i, j - 1));
    }
}

/// At most one claim at a time: in any schedule of transitions from any record, of two
/// calls of `mark_sync_start` with no `mark_sync_end` between them, the second fails.
pub proof fn lemma_single_claim(s: SyncState, ops: Seq<SyncOp>, i: int, j: int)
    requires
        0 <= i < j < ops.len(),
        ops[i] is Start,
        ops[j] is Start,
        forall|k: int| i < k < j ==> !(ops[k] is End),
    ensures
        !start_succeeds(run(s, ops.take(j))),
{
    let before = run(s, ops.take(i));
    let after = run(s, ops.take(i + 1));
    assert(ops.take(i + 1).drop_last() =~= ops.take(i));
    assert(after == step(before, ops[i]));
    lemma_run_split(s, ops, i + 1, j);
    lemma_claim_is_kept(after, ops.subrange(i + 1, j));
}

} // verus!
