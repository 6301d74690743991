//! Resource-bounded execution: the step budget ("fuel") a running capsule
//! burns, and the periodic forced yield that hands control back to the host.
//!
//! Together the budget and the yield interval guarantee that a capsule that
//! never suspends on its own still traps instead of hanging the device, and
//! still returns control to the scheduler often enough for cancellation to be
//! observed.

use crate::config::RuntimeConfig;
use vstd::prelude::*;

verus! {

/// What one charge of fuel decides.
#[derive(Debug, Clone, Copy, PartialEq, Eq, Structural)]
pub enum StepOutcome {
    /// Keep executing.
    Continue,
    /// The yield interval elapsed: control returns to the host scheduler,
    /// execution may resume afterwards.
    Yield,
    /// The budget is exhausted: execution traps with resource exhaustion.
    OutOfFuel,
}

/// A trap raised inside the sandbox: the capsule's execution ends abnormally
/// at this point; the host observes an error value, never an unwind into its
/// own frames.
#[derive(Debug, Clone, Copy, PartialEq, Eq, Structural)]
pub enum GuestTrap {
    /// Execution reached code that must never run.
    Unreachable,
}

/// The capsule-side last resort: a panic anywhere in sandboxed code is
/// converted into an unreachable trap, so a misbehaving capsule ends its own
/// run and cannot corrupt or unwind into host state.
pub fn panic_handler() -> (r: GuestTrap)
    ensures
        r == GuestTrap::Unreachable,
{
    GuestTrap::Unreachable
}

/// Fuel bookkeeping of one capsule run.
pub struct FuelMeter {
    /// Total steps this run may execute.
    pub budget: u64,
    /// Steps between two forced returns of control to the host.
    pub yield_interval: u64,
    /// Steps burned so far.
    pub consumed: u64,
    /// Steps burned since control last returned to the host.
    pub since_yield: u64,
}

impl FuelMeter {
    /// The meter never over-counts: consumption stays within the budget, and
    /// strictly fewer steps than one yield interval pass between two returns
    /// of control.
    pub open spec fn wf(&self) -> bool {
        &&& 0 < self.yield_interval
        &&& self.consumed <= self.budget
        &&& self.since_yield < self.yield_interval
        &&& self.since_yield <= self.consumed
    }

    /// A fresh meter for one run under `config`.
    pub fn new(config: &RuntimeConfig) -> (m: FuelMeter)
        requires
            config.fuel_yield_interval > 0,
        ensures
            m.wf(),
            m.budget == config.fuel_budget,
            m.yield_interval == config.fuel_yield_interval,
            m.consumed == 0,
            m.since_yield == 0,
    {
        FuelMeter {
            budget: config.fuel_budget,
            yield_interval: config.fuel_yield_interval,
            consumed: 0,
            since_yield: 0,
        }
    }

    /// Fuel still available to this run.
    pub fn remaining(&self) -> (r: u64)
        requires
            self.wf(),
        ensures
            r == self.budget - self.consumed,
    {
        self.budget - self.consumed
    }

    /// Burns `steps` units of fuel. A charge that the budget cannot cover
    /// consumes whatever is left and traps; otherwise execution continues,
    /// yielding first whenever the charge completes an interval.
    pub fn charge(&mut self, steps: u64) -> (r: StepOutcome)
        requires
            old(self).wf(),
        ensures
            final(self).wf(),
            final(self).budget == old(self).budget,
            final(self).yield_interval == old(self).yield_interval,
            (steps > old(self).budget - old(self).consumed ==> r == StepOutcome::OutOfFuel
                && final(self).consumed == old(self).budget),
            (steps <= old(self).budget - old(self).consumed
                ==> final(self).consumed == old(self).consumed + steps),
            (steps <= old(self).budget - old(self).consumed
                && old(self).since_yield + steps >= old(self).yield_interval
                ==> r == StepOutcome::Yield && final(self).since_yield == 0),
            (steps <= old(self).budget - old(self).consumed
                && old(self).since_yield + steps < old(self).yield_interval
                ==> r == StepOutcome::Continue
                && final(self).since_yield == old(self).since_yield + steps),
    {
        if steps > self.budget - self.consumed {
            self.consumed = self.budget;
            self.since_yield = 0;
            StepOutcome::OutOfFuel
        } else {
            self.consumed = self.consumed + steps;
            if steps >= self.yield_interval - self.since_yield {
                self.since_yield = 0;
                StepOutcome::Yield
            } else {
                self.since_yield = self.since_yield + steps;
                StepOutcome::Continue
            }
        }
    }
}

/// Law: every reachable meter keeps its two ceilings — consumption never
/// exceeds the budget (a capsule that loops forever is stopped after at most
/// `budget` steps), and control never stays away from the host for a whole
/// yield interval.
pub proof fn lemma_meter_bounds(m: FuelMeter)
    requires
        m.wf(),
    ensures
        m.consumed <= m.budget,
        m.since_yield < m.yield_interval,
{
}

} // verus!
