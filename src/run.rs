//! Carrying out a plan of writes: one at a time, in order, stopping at the
//! first that fails. Nothing already written is undone.
use vstd::prelude::*;
use vstd::string::StringSliceAdditionalSpecFns;
use crate::led::{FileWrite, Led, Trigger, control_file, plan_view};

verus! {

/// Where a run of a plan stands.
pub ghost struct RunState {
    /// The writes of the plan, as (path, contents) pairs.
    pub plan: Seq<(Seq<u8>, Seq<u8>)>,
    /// How many writes were attempted.
    pub attempted: nat,
    /// Whether the last attempted write failed.
    pub failed: bool,
}

impl RunState {
    /// A run of `plan` that has attempted nothing yet.
    pub open spec fn start(plan: Seq<(Seq<u8>, Seq<u8>)>) -> RunState {
        RunState { plan, attempted: 0, failed: false }
    }

    /// The write to attempt next, if the run goes on.
    pub open spec fn pending(self) -> Option<(Seq<u8>, Seq<u8>)> {
        if !self.failed && self.attempted < self.plan.len() {
            Some(self.plan[self.attempted as int])
        } else {
            None
        }
    }

    /// The run once the pending write has succeeded (`ok`) or failed.
    pub open spec fn after(self, ok: bool) -> RunState {
        RunState { plan: self.plan, attempted: self.attempted + 1, failed: !ok }
    }

    /// Whether every write of the plan succeeded.
    pub open spec fn succeeded(self) -> bool {
        !self.failed && self.attempted == self.plan.len()
    }
}

/// Once a write fails, the run attempts no other.
pub proof fn lemma_failure_ends_run(s: RunState)
    requires
        s.pending() is Some,
    ensures
        s.after(false).pending() is None,
        !s.after(false).succeeded(),
{
}

/// Blinking attempts exactly three writes, in this order: the trigger, then
/// `delay_on`, then `delay_off`. When the write of the trigger fails, neither
/// delay is written.
pub proof fn lemma_blink_write_order(led: Led, on_ms: u32, off_ms: u32)
    ensures
        ({
            let s = RunState::start(led.blink_plan(on_ms, off_ms));
            &&& s.pending() == Some(led.trigger_write(Trigger::Timer))
            &&& s.pending().unwrap().0 == control_file(led@, "trigger".spec_bytes())
            &&& s.after(true).pending().unwrap().0 == control_file(led@, "delay_on".spec_bytes())
            &&& s.after(true).after(true).pending().unwrap().0
                == control_file(led@, "delay_off".spec_bytes())
            &&& s.after(true).after(true).after(true).pending() is None
            &&& s.after(true).after(true).after(true).succeeded()
            &&& s.after(false).pending() is None
        }),
{
}

/// Setting the brightness (so also turning the LED on or off) first writes
/// the manual trigger, then the level; when the trigger write fails, the
/// level is not written.
pub proof fn lemma_brightness_write_order(led: Led, brightness: u32)
    ensures
        ({
            let s = RunState::start(led.brightness_plan(brightness));
            &&& s.pending() == Some(led.trigger_write(Trigger::Manual))
            &&& s.after(true).pending()
                == Some(led.number_write("brightness".spec_bytes(), brightness))
            &&& s.after(true).after(true).succeeded()
            &&& s.after(false).pending() is None
        }),
{
}

/// A plan of writes being carried out.
pub struct WriteRun {
    plan: Vec<FileWrite>,
    attempted: usize,
    failed: bool,
}

impl View for WriteRun {
    type V = RunState;

    closed spec fn view(&self) -> RunState {
        RunState { plan: plan_view(self.plan@), attempted: self.attempted as nat, failed: self.failed }
    }
}

impl WriteRun {
    /// Internal consistency: no more writes attempted than the plan holds.
    pub closed spec fn wf(&self) -> bool {
        self.attempted <= self.plan@.len()
    }

    /// A run of `plan` that has attempted nothing yet.
    pub fn new(plan: Vec<FileWrite>) -> (r: WriteRun)
        ensures
            r.wf(),
            r@ == RunState::start(plan_view(plan@)),
    {
        WriteRun { plan, attempted: 0, failed: false }
    }

    /// The write to attempt next, or `None` once the plan is done or a write
    /// has failed.
    pub fn next(&self) -> (r: Option<&FileWrite>)
        requires
            self.wf(),
        ensures
            match r {
                Some(w) => self@.pending() == Some(w@),
                None => self@.pending() is None,
            },
    {
        if !self.failed && self.attempted < self.plan.len() {
            Some(&self.plan[self.attempted])
        } else {
            None
        }
    }

    /// Records whether the pending write succeeded.
    pub fn record(&mut self, ok: bool)
        requires
            old(self).wf(),
            old(self)@.pending() is Some,
        ensures
            final(self).wf(),
            final(self)@ == old(self)@.after(ok),
    {
        let total: usize = self.plan.len();
        assert(self.attempted < total);
        self.attempted = self.attempted + 1;
        self.failed = !ok;
    }

    /// Whether every write of the plan succeeded.
    pub fn succeeded(&self) -> (r: bool)
        requires
            self.wf(),
        ensures
            r == self@.succeeded(),
    {
        !self.failed && self.attempted == self.plan.len()
    }
}

} // verus!
