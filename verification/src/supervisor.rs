//! The supervisor's restart policy: the registry's event loop runs inside a
//! failure boundary, and when it unwinds with a fatal GPU or protocol fault
//! the supervisor decides between restarting the whole subsystem and giving
//! up, guarding against a crash loop with a fixed cooldown.

use vstd::prelude::*;

verus! {

/// The default cooldown, in seconds: a second fault closer than this to the
/// previous one is treated as a real bug, not a transient GPU timeout.
pub const ERROR_TIMEOUT_SECS: u64 = 30;

/// What to do about a fault the failure boundary caught.
#[derive(Clone, Copy, Debug, PartialEq, Eq, Structural)]
pub enum FaultDecision {
    /// Presume a transient GPU timeout: tear everything down and start the
    /// registry again from a clean state.
    Restart,
    /// A second fault inside the cooldown: abort the process rather than
    /// crash-loop on a genuinely broken setup.
    Terminate,
}

/// The restart rule: restart exactly when the fault arrives at least a full
/// cooldown after the previous one (or after process start).
pub open spec fn spec_fault_decision(last_fault_time: u64, now: u64, cooldown: u64) -> FaultDecision
    recommends
        last_fault_time <= now,
{
    if now - last_fault_time >= cooldown {
        FaultDecision::Restart
    } else {
        FaultDecision::Terminate
    }
}

/// Supervisor restart law: with a fault recorded at `t1`, a second fault at
/// `t2` restarts the registry exactly when `t2 - t1` is at least the
/// cooldown, and terminates the process exactly when it is less.
pub proof fn lemma_restart_law(t1: u64, t2: u64, cooldown: u64)
    requires
        t1 <= t2,
    ensures
        spec_fault_decision(t1, t2, cooldown) is Restart <==> t2 - t1 >= cooldown,
        spec_fault_decision(t1, t2, cooldown) is Terminate <==> t2 - t1 < cooldown,
{
}

/// The supervisor's whole state: when the previous fault happened (process
/// start counts as one) and the fixed cooldown. Both are in seconds of a
/// monotonic clock the shell reads.
#[derive(Clone, Copy, Debug, PartialEq, Eq, Structural)]
pub struct Supervisor {
    pub last_fault_time: u64,
    pub cooldown: u64,
}

impl Supervisor {
    /// A supervisor that counts process start as the previous fault.
    pub fn new(start_time: u64, cooldown: u64) -> (supervisor: Self)
        ensures
            supervisor.last_fault_time == start_time,
            supervisor.cooldown == cooldown,
    {
        Supervisor { last_fault_time: start_time, cooldown }
    }

    /// Decides what to do about a fault caught at time `now`: restart when
    /// the previous fault lies at least a full cooldown back (recording this
    /// one), terminate otherwise. Time never runs backwards, so `now` is at
    /// least the recorded fault time.
    pub fn on_fault(&mut self, now: u64) -> (decision: FaultDecision)
        requires
            old(self).last_fault_time <= now,
        ensures
            decision == spec_fault_decision(old(self).last_fault_time, now, old(self).cooldown),
            final(self).cooldown == old(self).cooldown,
            decision is Restart ==> final(self).last_fault_time == now,
            decision is Terminate ==> *final(self) == *old(self),
    {
        if now - self.last_fault_time >= self.cooldown {
            self.last_fault_time = now;
            FaultDecision::Restart
        } else {
            FaultDecision::Terminate
        }
    }
}

} // verus!
