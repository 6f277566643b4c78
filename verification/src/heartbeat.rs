//! The heartbeat schedule. The scheduler runs beside inbound processing
//! and sends one heartbeat frame after each full interval; here its
//! schedule is modelled exactly — one emission per elapsed interval — and
//! the emission rate is proved from it.

use vstd::prelude::*;

use crate::discord::{OpCode, WrapperPacket};

verus! {

/// The state of the periodic heartbeat task: how long one wait is, how
/// much time the waits so far add up to, and how many frames it has
/// emitted.
#[derive(Debug, Clone, Copy)]
pub struct HeartbeatScheduler {
    /// Milliseconds between two heartbeats
    pub interval: u64,
    /// Milliseconds waited since the scheduler started
    pub elapsed: u64,
    /// Heartbeat frames emitted since the scheduler started
    pub emitted: u64,
}

impl HeartbeatScheduler {
    /// The schedule is exact: one emission per full interval.
    pub open spec fn wf(&self) -> bool {
        &&& self.interval > 0
        &&& self.elapsed == self.emitted * self.interval
    }

    /// A scheduler that has not waited yet.
    pub fn new(interval: u64) -> (r: Self)
        requires
            interval > 0,
        ensures
            r.wf(),
            r.interval == interval,
            r.elapsed == 0,
            r.emitted == 0,
    {
        HeartbeatScheduler { interval, elapsed: 0, emitted: 0 }
    }

    /// One round of the schedule: the full interval has been waited, and
    /// the heartbeat frame — carrying the sequence value read at send
    /// time — is emitted.
    pub fn beat(&mut self, sequence: Option<i64>) -> (r: WrapperPacket)
        requires
            old(self).wf(),
            old(self).elapsed + old(self).interval <= u64::MAX,
            old(self).emitted < u64::MAX,
        ensures
            final(self).wf(),
            final(self).interval == old(self).interval,
            final(self).elapsed == old(self).elapsed + old(self).interval,
            final(self).emitted == old(self).emitted + 1,
            r.op == OpCode::Heartbeat,
            r.d is None,
            r.s == sequence,
            r.t is None,
    {
        proof {
            assert((self.emitted + 1) * self.interval == self.emitted * self.interval
                + self.interval) by (nonlinear_arith);
        }
        self.elapsed = self.elapsed + self.interval;
        self.emitted = self.emitted + 1;
        WrapperPacket { op: OpCode::Heartbeat, d: None, s: sequence, t: None }
    }
}

/// Rate law: a scheduler that has run for `n` full intervals has emitted
/// at least `n` heartbeats — with interval 50, at least `n` heartbeats
/// within `n * 50` time units.
pub proof fn lemma_heartbeat_rate(s: HeartbeatScheduler, n: u64)
    requires
        s.wf(),
        s.elapsed >= n * s.interval,
    ensures
        s.emitted >= n,
{
    assert(s.emitted >= n) by (nonlinear_arith)
        requires
            s.interval > 0,
            s.emitted * s.interval >= n * s.interval,
    {
    }
}

} // verus!
