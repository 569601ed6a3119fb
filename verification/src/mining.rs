//! Block production around the bootstrap: the wait for maturity, the batch
//! of extra blocks, and the continuous miner that runs afterwards.

use vstd::prelude::*;
use crate::bootstrap::{PhaseOutcome, Reason};

verus! {

/// What a reading of the chain height means for the wait for maturity.
#[derive(Clone, Copy, Debug, PartialEq, Eq, Structural)]
pub enum HeightSignal {
    /// The chain is at or above the target: stop waiting.
    Reached { height: u64 },
    /// Below the target, or no reading: wait one interval and read again.
    Waiting,
    /// The ceiling has passed: stop waiting.
    CeilingPassed,
}

/// The signal for a reading taken `elapsed_secs` after the wait began. The
/// height counts whoever produced the blocks. A reading at or above the
/// target ends the wait even after the ceiling; without one, the wait ends
/// once more than `ceiling_secs` have passed.
pub open spec fn height_signal(
    reading: Option<u64>,
    elapsed_secs: u64,
    target: u64,
    ceiling_secs: u64,
) -> HeightSignal {
    if reading is Some && reading->0 >= target {
        HeightSignal::Reached { height: reading->0 }
    } else if elapsed_secs > ceiling_secs {
        HeightSignal::CeilingPassed
    } else {
        HeightSignal::Waiting
    }
}

/// Judges one reading of the chain height: see `height_signal`.
pub fn judge_height(reading: Option<u64>, elapsed_secs: u64, target: u64, ceiling_secs: u64) -> (signal:
    HeightSignal)
    ensures
        signal == height_signal(reading, elapsed_secs, target, ceiling_secs),
{
    match reading {
        Some(height) if height >= target => HeightSignal::Reached { height },
        _ => if elapsed_secs > ceiling_secs {
            HeightSignal::CeilingPassed
        } else {
            HeightSignal::Waiting
        },
    }
}

/// The share of the target that a height below it has reached, in percent,
/// rounded down.
pub fn height_percent(height: u64, target: u64) -> (percent: u64)
    requires
        height < target,
    ensures
        percent == height * 100 / (target as int),
        percent < 100,
{
    let scaled: u128 = (height as u128) * 100 / (target as u128);
    assert(height * 100 / (target as int) < 100) by (nonlinear_arith)
        requires
            0 <= height < target,
    ;
    scaled as u64
}

/// The outcome of the maturity phase for the signal that ended the wait: a
/// passed ceiling is a warning and does not stop the bootstrap.
pub fn maturity_outcome(signal: HeightSignal) -> (outcome: Option<PhaseOutcome>)
    ensures
        outcome == match signal {
            HeightSignal::Reached { .. } => Some(PhaseOutcome::Success),
            HeightSignal::CeilingPassed => Some(PhaseOutcome::Warning(Reason::MaturityCeiling)),
            HeightSignal::Waiting => None::<PhaseOutcome>,
        },
{
    match signal {
        HeightSignal::Reached { .. } => Some(PhaseOutcome::Success),
        HeightSignal::CeilingPassed => Some(PhaseOutcome::Warning(Reason::MaturityCeiling)),
        HeightSignal::Waiting => None,
    }
}

/// One request for a block, within a batch.
#[derive(Clone, Copy, Debug, PartialEq, Eq, Structural)]
pub struct BlockRequest {
    /// The number of the request in its batch, from 1.
    pub ordinal: u32,
    /// Whether progress is reported after this request.
    pub report: bool,
}

/// What a `BlockBatch` holds, as plain values.
pub struct BatchView {
    /// Requests the batch is made of.
    pub count: u32,
    /// Progress is reported after every request whose number is a multiple of
    /// this; 0 turns reports off.
    pub report_every: u32,
    /// Requests handed out so far.
    pub issued: u32,
}

impl BatchView {
    /// The request that is handed out next, if any is left.
    pub open spec fn upcoming(self) -> Option<BlockRequest> {
        if self.issued < self.count {
            Some(
                BlockRequest {
                    ordinal: (self.issued + 1) as u32,
                    report: self.report_every > 0 && (self.issued + 1) % (self.report_every as int)
                        == 0,
                },
            )
        } else {
            None
        }
    }

    /// The batch after `next_request` was called on it.
    pub open spec fn advanced(self) -> BatchView {
        if self.issued < self.count {
            BatchView { issued: (self.issued + 1) as u32, ..self }
        } else {
            self
        }
    }

    /// The batch after `calls` calls of `next_request`.
    pub open spec fn advanced_by(self, calls: nat) -> BatchView
        decreases calls,
    {
        if calls == 0 {
            self
        } else {
            self.advanced().advanced_by((calls - 1) as nat)
        }
    }
}

/// A fixed number of block requests, issued one after the other. A request is
/// sent and forgotten: whether it succeeded is never reported back, so no
/// failure can change how many requests are made.
pub struct BlockBatch {
    count: u32,
    report_every: u32,
    issued: u32,
}

impl View for BlockBatch {
    type V = BatchView;

    closed spec fn view(&self) -> BatchView {
        BatchView { count: self.count, report_every: self.report_every, issued: self.issued }
    }
}

impl BlockBatch {
    #[verifier::type_invariant]
    spec fn bounded(self) -> bool {
        self.issued <= self.count
    }

    /// A batch of `count` requests, none of them issued yet.
    pub fn new(count: u32, report_every: u32) -> (batch: Self)
        ensures
            batch@ == (BatchView { count, report_every, issued: 0 }),
    {
        BlockBatch { count, report_every, issued: 0 }
    }

    /// Requests handed out so far; never more than the batch holds.
    pub fn issued(&self) -> (issued: u32)
        ensures
            issued == self@.issued,
            issued <= self@.count,
    {
        proof {
            use_type_invariant(self);
        }
        self.issued
    }

    /// Requests still to be handed out.
    pub fn remaining(&self) -> (left: u32)
        ensures
            left == self@.count - self@.issued,
    {
        proof {
            use_type_invariant(self);
        }
        self.count - self.issued
    }

    /// Hands out the next request, or `None` once the batch is complete.
    pub fn next_request(&mut self) -> (request: Option<BlockRequest>)
        ensures
            request == old(self)@.upcoming(),
            final(self)@ == old(self)@.advanced(),
    {
        proof {
            use_type_invariant(&*self);
        }
        if self.issued < self.count {
            self.issued = self.issued + 1;
            let report = self.report_every > 0 && self.issued % self.report_every == 0;
            Some(BlockRequest { ordinal: self.issued, report })
        } else {
            None
        }
    }
}

/// A batch hands out exactly as many requests as it was made for: each of
/// the first `count` calls gives the request with the next number, and every
/// call after them gives none.
pub proof fn lemma_batch_issues_exactly_count(batch: BatchView, calls: nat)
    requires
        batch.issued == 0,
    ensures
        batch.advanced_by(calls).count == batch.count,
        batch.advanced_by(calls).report_every == batch.report_every,
        calls <= batch.count ==> batch.advanced_by(calls).issued == calls,
        calls < batch.count ==> batch.advanced_by(calls).upcoming() is Some
            && batch.advanced_by(calls).upcoming()->0.ordinal == calls + 1,
        calls >= batch.count ==> batch.advanced_by(calls).issued == batch.count
            && batch.advanced_by(calls).upcoming() is None,
{
    lemma_batch_advanced_by(batch, calls);
}

proof fn lemma_batch_advanced_by(batch: BatchView, calls: nat)
    requires
        batch.issued <= batch.count,
    ensures
        batch.advanced_by(calls).count == batch.count,
        batch.advanced_by(calls).report_every == batch.report_every,
        batch.advanced_by(calls).issued == if batch.issued + calls <= batch.count {
            batch.issued + calls
        } else {
            batch.count as int
        },
    decreases calls,
{
    if calls > 0 {
        lemma_batch_advanced_by(batch.advanced(), (calls - 1) as nat);
    }
}

/// What the continuous miner asks of its driver at a tick.
#[derive(Clone, Copy, Debug, PartialEq, Eq, Structural)]
pub struct MinerTick {
    /// Blocks to ask the node for, in one request that is sent and forgotten.
    pub blocks: u32,
    /// Seconds until the next tick.
    pub next_tick_secs: u64,
}

/// The background block producer: one block per tick, at a fixed interval,
/// for as long as the process lives.
pub struct ContinuousMiner {
    interval_secs: u64,
    ticks: u64,
}

/// What a `ContinuousMiner` holds, as plain values.
pub struct MinerView {
    pub interval_secs: u64,
    /// Ticks seen so far; the count stops at the largest `u64`.
    pub ticks: u64,
}

impl View for ContinuousMiner {
    type V = MinerView;

    closed spec fn view(&self) -> MinerView {
        MinerView { interval_secs: self.interval_secs, ticks: self.ticks }
    }
}

impl ContinuousMiner {
    /// A miner that ticks every `interval_secs` seconds.
    pub fn new(interval_secs: u64) -> (miner: Self)
        ensures
            miner@ == (MinerView { interval_secs, ticks: 0 }),
    {
        ContinuousMiner { interval_secs, ticks: 0 }
    }

    pub fn interval_secs(&self) -> (secs: u64)
        ensures
            secs == self@.interval_secs,
    {
        self.interval_secs
    }

    pub fn ticks(&self) -> (ticks: u64)
        ensures
            ticks == self@.ticks,
    {
        self.ticks
    }

    /// Takes a tick. `previous` says how the request of the tick before
    /// went, if that is known; it changes nothing: there is no retry and no
    /// slowing down, every tick asks for exactly one block and the next tick
    /// is one interval away.
    pub fn on_tick(&mut self, previous: Option<bool>) -> (tick: MinerTick)
        ensures
            tick == (MinerTick { blocks: 1, next_tick_secs: old(self)@.interval_secs }),
            final(self)@.interval_secs == old(self)@.interval_secs,
            final(self)@.ticks == if old(self)@.ticks == u64::MAX {
                u64::MAX
            } else {
                (old(self)@.ticks + 1) as u64
            },
    {
        if self.ticks < u64::MAX {
            self.ticks = self.ticks + 1;
        }
        MinerTick { blocks: 1, next_tick_secs: self.interval_secs }
    }
}

} // verus!
