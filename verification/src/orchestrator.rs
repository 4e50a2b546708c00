//! The orchestration loop's decision state: a dual-rate scheduler that
//! advances the drift controller every second and asks for a fresh
//! sensing-and-inference pass every fifth tick.
//!
//! The host loop owns the clock, the sensors and the model; this state
//! machine owns every decision: when to sense, which judgment feeds the
//! controller, and when the controller is reset.

use vstd::prelude::*;
use crate::controller::{spec_tick, DriftController, MAX_TICK_TS};
use crate::inference::InferenceResult;
use crate::state_engine::InterventionTrigger;

verus! {

/// A sensing-and-inference pass runs on every tick whose counter reaches
/// this value.
pub const SENSE_EVERY_TICKS: u64 = 5;

/// The per-session loop state: the tick counter, the most recently cached
/// judgment, and the drift controller it feeds.
#[derive(Debug, Clone, PartialEq, Eq, Structural)]
pub struct Orchestrator {
    /// Ticks since the last sensing pass, always below
    /// [`SENSE_EVERY_TICKS`].
    pub tick_counter: u64,
    /// The most recent judgment, even if up to four seconds stale; absent
    /// until the first successful inference.
    pub cached_judgment: Option<InferenceResult>,
    /// The drift controller this loop is the sole caller of.
    pub controller: DriftController,
}

impl Orchestrator {
    pub open spec fn wf(&self) -> bool {
        &&& self.tick_counter < SENSE_EVERY_TICKS
        &&& self.controller.wf()
    }

    /// A fresh loop state: counter at zero, no judgment yet, a clean
    /// controller.
    pub fn new() -> (r: Orchestrator)
        ensures
            r.wf(),
            r.tick_counter == 0,
            r.cached_judgment is None,
            r.controller == (DriftController {
                gauge_q: 0,
                state: crate::controller::FsmState::Focus,
                last_tick_ts: None,
                last_intervention_ts: None,
            }),
    {
        Orchestrator {
            tick_counter: 0,
            cached_judgment: None,
            controller: DriftController::new(),
        }
    }

    /// Starts one loop second. With no active session the counter and the
    /// controller gauge are reset and nothing else happens; with one, the
    /// counter advances and the result says whether this is a sensing
    /// tick.
    pub fn begin_tick(&mut self, session_active: bool) -> (sense: bool)
        requires
            old(self).wf(),
        ensures
            final(self).wf(),
            final(self).cached_judgment == old(self).cached_judgment,
            !session_active ==> {
                &&& !sense
                &&& final(self).tick_counter == 0
                &&& final(self).controller.gauge_q == 0
                &&& final(self).controller.state == crate::controller::FsmState::Focus
                &&& final(self).controller.last_tick_ts == old(self).controller.last_tick_ts
                &&& final(self).controller.last_intervention_ts == old(
                    self,
                ).controller.last_intervention_ts
            },
            session_active ==> {
                &&& final(self).controller == old(self).controller
                &&& sense == (old(self).tick_counter + 1 >= SENSE_EVERY_TICKS)
                &&& final(self).tick_counter == if old(self).tick_counter + 1
                    >= SENSE_EVERY_TICKS {
                    0int
                } else {
                    old(self).tick_counter + 1
                }
            },
    {
        if !session_active {
            self.tick_counter = 0;
            if self.controller.gauge_q > 0 {
                self.controller.manual_reset();
            }
            return false;
        }
        self.tick_counter = self.tick_counter + 1;
        if self.tick_counter >= SENSE_EVERY_TICKS {
            self.tick_counter = 0;
            true
        } else {
            false
        }
    }

    /// Caches the judgment a sensing pass produced. On a failed pass (no
    /// window, no model, a failed call) the host skips this, so the
    /// previous judgment keeps feeding the controller.
    pub fn record_judgment(&mut self, judgment: InferenceResult)
        ensures
            final(self).cached_judgment == Some(judgment),
            final(self).tick_counter == old(self).tick_counter,
            final(self).controller == old(self).controller,
            old(self).wf() ==> final(self).wf(),
    {
        self.cached_judgment = Some(judgment);
    }

    /// Feeds the most recently cached judgment into the controller, once
    /// per second. While no judgment ever arrived the controller is left
    /// untouched and nothing is emitted: the system fails toward silence.
    pub fn advance(&mut self, now_ts: u64, mouse_active: bool, recent_input: bool) -> (r:
        InterventionTrigger)
        requires
            old(self).wf(),
            now_ts <= MAX_TICK_TS,
            match old(self).controller.last_tick_ts {
                Some(t) => t <= now_ts,
                None => true,
            },
        ensures
            final(self).wf(),
            final(self).tick_counter == old(self).tick_counter,
            final(self).cached_judgment == old(self).cached_judgment,
            match old(self).cached_judgment {
                Some(j) => (final(self).controller, r) == spec_tick(
                    old(self).controller,
                    j,
                    now_ts,
                    mouse_active,
                    recent_input,
                ),
                None => final(self).controller == old(self).controller && r
                    == InterventionTrigger::DoNothing,
            },
    {
        match self.cached_judgment {
            Some(judgment) => self.controller.tick(judgment, now_ts, mouse_active, recent_input),
            None => InterventionTrigger::DoNothing,
        }
    }
}

} // verus!
