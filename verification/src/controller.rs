//! The drift controller: integrates judgments over wall-clock time into a
//! bounded non-negative gauge, derives a discrete state from the gauge
//! alone, and rate-limits the interventions it emits.
//!
//! The gauge is kept in quarter-seconds, so the four judgment multipliers
//! (`+1.0`, `+0.5`, `+0.25`, `-2.0` gauge-seconds per second) are the
//! exact integers `+4`, `+2`, `+1`, `-8`.

use vstd::prelude::*;
use crate::inference::InferenceResult;
use crate::state_engine::InterventionTrigger;

verus! {

/// Gauge level, in seconds, at which the controller starts notifying.
pub const NOTIFY_THRESHOLD_SEC: u64 = 30;

/// Gauge level, in seconds, at which the controller starts blocking.
pub const BLOCK_THRESHOLD_SEC: u64 = 60;

/// Minimum spacing between two emitted interventions, in seconds.
pub const SNOOZE_SEC: u64 = 10;

/// Latest tick timestamp, in Unix seconds, the controller accepts; keeps
/// the gauge arithmetic inside 64 bits (far beyond any real clock).
pub const MAX_TICK_TS: u64 = 0x4000_0000_0000;

/// The discrete state derived from the gauge; never set directly.
#[derive(Debug, Clone, Copy, PartialEq, Eq, Structural)]
pub enum FsmState {
    /// No monitoring session is running; the controller itself never
    /// holds this state, display code uses it between sessions.
    Idle,
    /// Gauge below the notify threshold.
    Focus,
    /// Gauge at or above the notify threshold, below the block threshold.
    Drift,
    /// Gauge at or above the block threshold.
    Distracted,
}

/// Gauge quarter-seconds gained per elapsed second under a judgment: a
/// strong outlier fills at real-time speed, a weak one at half speed, or
/// at quarter speed while the mouse moves without typing (reading or
/// deliberating), and an inlier drains at double speed.
pub open spec fn spec_multiplier_q(
    judgment: InferenceResult,
    mouse_active: bool,
    recent_input: bool,
) -> int {
    match judgment {
        InferenceResult::StrongOutlier => 4,
        InferenceResult::WeakOutlier => if !recent_input && mouse_active {
            1
        } else {
            2
        },
        InferenceResult::Inlier => -8,
    }
}

/// One gauge integration step over `dt` seconds, floored at zero: a
/// negative gauge has no meaning and never banks future leniency.
pub open spec fn spec_gauge_step(gauge_q: int, multiplier_q: int, dt: int) -> int {
    if gauge_q + multiplier_q * dt >= 0 {
        gauge_q + multiplier_q * dt
    } else {
        0
    }
}

/// The state the gauge alone dictates.
pub open spec fn spec_state_of(gauge_q: int) -> FsmState {
    if gauge_q >= 4 * BLOCK_THRESHOLD_SEC {
        FsmState::Distracted
    } else if gauge_q >= 4 * NOTIFY_THRESHOLD_SEC {
        FsmState::Drift
    } else {
        FsmState::Focus
    }
}

/// Whether interventions are still snoozed at `now_ts`: a hard floor on
/// intervention frequency, independent of how fast the gauge rises.
pub open spec fn spec_snoozed(last_intervention_ts: Option<u64>, now_ts: u64) -> bool {
    match last_intervention_ts {
        Some(ti) => now_ts - ti < SNOOZE_SEC,
        None => false,
    }
}

/// The intervention owed outside snooze: block when distracted, notify
/// when drifting, silence otherwise.
pub open spec fn spec_decision(state: FsmState, snoozed: bool) -> InterventionTrigger {
    if snoozed {
        InterventionTrigger::DoNothing
    } else {
        match state {
            FsmState::Distracted => InterventionTrigger::TriggerOverlay,
            FsmState::Drift => InterventionTrigger::TriggerNotification,
            FsmState::Focus => InterventionTrigger::DoNothing,
            FsmState::Idle => InterventionTrigger::DoNothing,
        }
    }
}

/// Integrates judgments into the drift gauge of one monitoring session.
#[derive(Debug, Clone, PartialEq, Eq, Structural)]
pub struct DriftController {
    /// The drift gauge, in quarter-seconds; always at least zero.
    pub gauge_q: u64,
    /// The state derived from the gauge after the last step.
    pub state: FsmState,
    /// When the controller last ticked, in Unix seconds; absent before
    /// the first tick so that tick integrates no spurious jump.
    pub last_tick_ts: Option<u64>,
    /// When the controller last emitted an intervention.
    pub last_intervention_ts: Option<u64>,
}

/// One full controller step at `now_ts`: integrate, floor, derive the
/// state, decide under the snooze, and stamp the intervention time when
/// one is emitted.
pub open spec fn spec_tick(
    c: DriftController,
    judgment: InferenceResult,
    now_ts: u64,
    mouse_active: bool,
    recent_input: bool,
) -> (DriftController, InterventionTrigger) {
    let dt = match c.last_tick_ts {
        Some(t) => now_ts - t,
        None => 0,
    };
    let g = spec_gauge_step(
        c.gauge_q as int,
        spec_multiplier_q(judgment, mouse_active, recent_input),
        dt,
    );
    let st = spec_state_of(g);
    let r = spec_decision(st, spec_snoozed(c.last_intervention_ts, now_ts));
    (
        DriftController {
            gauge_q: g as u64,
            state: st,
            last_tick_ts: Some(now_ts),
            last_intervention_ts: if r != InterventionTrigger::DoNothing {
                Some(now_ts)
            } else {
                c.last_intervention_ts
            },
        },
        r,
    )
}

impl DriftController {
    /// Internal consistency: the gauge never outgrows four quarters per
    /// elapsed second, timestamps stay within range, and the state is
    /// exactly what the gauge dictates.
    pub open spec fn wf(&self) -> bool {
        &&& match self.last_tick_ts {
            Some(t) => t <= MAX_TICK_TS && self.gauge_q <= 4 * t,
            None => self.gauge_q == 0,
        }
        &&& match self.last_intervention_ts {
            Some(ti) => match self.last_tick_ts {
                Some(t) => ti <= t,
                None => false,
            },
            None => true,
        }
        &&& self.state == spec_state_of(self.gauge_q as int)
    }

    /// A fresh controller: empty gauge, focused, nothing emitted yet.
    pub fn new() -> (r: DriftController)
        ensures
            r.wf(),
            r.gauge_q == 0,
            r.state == FsmState::Focus,
            r.last_tick_ts is None,
            r.last_intervention_ts is None,
    {
        DriftController {
            gauge_q: 0,
            state: FsmState::Focus,
            last_tick_ts: None,
            last_intervention_ts: None,
        }
    }

    /// One controller step, called in strictly non-decreasing `now_ts`
    /// order by the single orchestration loop: exactly [`spec_tick`].
    pub fn tick(&mut self, judgment: InferenceResult, now_ts: u64, mouse_active: bool,
        recent_input: bool) -> (r: InterventionTrigger)
        requires
            old(self).wf(),
            now_ts <= MAX_TICK_TS,
            match old(self).last_tick_ts {
                Some(t) => t <= now_ts,
                None => true,
            },
        ensures
            final(self).wf(),
            (*final(self), r) == spec_tick(*old(self), judgment, now_ts, mouse_active, recent_input),
    {
        let dt: u64 = match self.last_tick_ts {
            Some(t) => now_ts - t,
            None => 0,
        };
        let new_gauge: u64 = match judgment {
            InferenceResult::Inlier => self.gauge_q.saturating_sub(8 * dt),
            InferenceResult::WeakOutlier => {
                if !recent_input && mouse_active {
                    self.gauge_q + dt
                } else {
                    self.gauge_q + 2 * dt
                }
            },
            InferenceResult::StrongOutlier => self.gauge_q + 4 * dt,
        };
        let state = if new_gauge >= 4 * BLOCK_THRESHOLD_SEC {
            FsmState::Distracted
        } else if new_gauge >= 4 * NOTIFY_THRESHOLD_SEC {
            FsmState::Drift
        } else {
            FsmState::Focus
        };
        self.gauge_q = new_gauge;
        self.state = state;
        self.last_tick_ts = Some(now_ts);

        let snoozed = match self.last_intervention_ts {
            Some(ti) => now_ts - ti < SNOOZE_SEC,
            None => false,
        };
        let trigger = if snoozed {
            InterventionTrigger::DoNothing
        } else {
            match state {
                FsmState::Distracted => InterventionTrigger::TriggerOverlay,
                FsmState::Drift => InterventionTrigger::TriggerNotification,
                FsmState::Focus => InterventionTrigger::DoNothing,
                FsmState::Idle => InterventionTrigger::DoNothing,
            }
        };
        if trigger != InterventionTrigger::DoNothing {
            self.last_intervention_ts = Some(now_ts);
        }
        trigger
    }

    /// Empties the gauge and returns to focus, at a session end or an
    /// explicit user dismissal. Tick and intervention stamps survive, so
    /// the snooze keeps limiting intervention frequency.
    pub fn manual_reset(&mut self)
        ensures
            final(self).gauge_q == 0,
            final(self).state == FsmState::Focus,
            final(self).last_tick_ts == old(self).last_tick_ts,
            final(self).last_intervention_ts == old(self).last_intervention_ts,
            old(self).wf() ==> final(self).wf(),
    {
        self.gauge_q = 0;
        self.state = FsmState::Focus;
    }

    /// The gauge as a share of the block threshold, in thousandths and
    /// capped at `1000`; for display only, decisions never read it.
    pub fn get_gauge_ratio_permille(&self) -> (r: u64)
        requires
            self.wf(),
        ensures
            r == if self.gauge_q >= 4 * BLOCK_THRESHOLD_SEC {
                1000int
            } else {
                self.gauge_q * 1000 / (4 * BLOCK_THRESHOLD_SEC as int)
            },
            r <= 1000,
    {
        if self.gauge_q >= 4 * BLOCK_THRESHOLD_SEC {
            1000
        } else {
            self.gauge_q * 1000 / (4 * BLOCK_THRESHOLD_SEC)
        }
    }
}

/// The gauge after `n` one-second steps under a constant multiplier.
pub open spec fn spec_gauge_after_run(g0: int, multiplier_q: int, n: nat) -> int
    decreases n,
{
    if n == 0 {
        g0
    } else {
        spec_gauge_step(spec_gauge_after_run(g0, multiplier_q, (n - 1) as nat), multiplier_q, 1)
    }
}

/// Time integration is exact: one step over `a + b` seconds equals a step
/// over `a` followed by a step over `b`, whatever the judgment, so tick
/// granularity never changes what the gauge accumulates.
pub proof fn lemma_gauge_time_integration(g: int, m: int, a: int, b: int)
    requires
        g >= 0,
        a >= 0,
        b >= 0,
    ensures
        spec_gauge_step(g, m, a + b) == spec_gauge_step(spec_gauge_step(g, m, a), m, b),
{
    assert(m * (a + b) == m * a + m * b) by (nonlinear_arith);
    if m >= 0 {
        assert(m * a >= 0 && m * b >= 0) by (nonlinear_arith)
            requires m >= 0, a >= 0, b >= 0
        ;
    } else {
        assert(m * a <= 0 && m * b <= 0) by (nonlinear_arith)
            requires m <= 0, a >= 0, b >= 0
        ;
    }
}

/// Filling is linear while the multiplier is non-negative: `n` one-second
/// steps from a clean gauge accumulate exactly `multiplier * n`. With the
/// strong-outlier multiplier `4` this is real-time filling: `n` seconds
/// of strong outlier from zero leave `n` gauge-seconds. With the weak
/// multipliers `2` and `1` it is time dilation: half or a quarter of real
/// time.
pub proof fn lemma_gauge_fill_linear(g0: int, m: int, n: nat)
    requires
        g0 >= 0,
        m >= 0,
    ensures
        spec_gauge_after_run(g0, m, n) == g0 + m * n,
    decreases n,
{
    if n == 0 {
        assert(m * 0 == 0) by (nonlinear_arith);
    } else {
        lemma_gauge_fill_linear(g0, m, (n - 1) as nat);
        assert(m * (n - 1) >= 0) by (nonlinear_arith)
            requires m >= 0, n >= 1
        ;
        assert(m * (n - 1) + m * 1 == m * n) by (nonlinear_arith);
    }
}

/// Recovery drains at double speed and stops exactly at the floor: `n`
/// one-second inlier steps take the gauge to `g0 - 8n` quarter-seconds,
/// or to zero once that would go negative; the gauge never turns
/// negative.
pub proof fn lemma_gauge_recovery_floor(g0: int, n: nat)
    requires
        g0 >= 0,
    ensures
        spec_gauge_after_run(g0, -8, n) == if g0 - 8 * n >= 0 {
            g0 - 8 * n
        } else {
            0
        },
        spec_gauge_after_run(g0, -8, n) >= 0,
    decreases n,
{
    if n > 0 {
        lemma_gauge_recovery_floor(g0, (n - 1) as nat);
        assert((-8) * (n - 1) == -(8 * (n - 1)) && (-8) * 1 == -8 && 8 * n == 8 * (n - 1) + 8)
            by (nonlinear_arith);
    } else {
        assert((-8) * 0 == 0) by (nonlinear_arith);
    }
}

/// The controller after holding one judgment for `n` further ticks, one
/// second apart, continuing from wherever `c` last ticked.
pub open spec fn spec_hold(
    c: DriftController,
    judgment: InferenceResult,
    mouse_active: bool,
    recent_input: bool,
    n: nat,
) -> DriftController
    decreases n,
{
    if n == 0 {
        c
    } else {
        let prev = spec_hold(c, judgment, mouse_active, recent_input, (n - 1) as nat);
        let now = match prev.last_tick_ts {
            Some(t) => (t + 1) as u64,
            None => 1u64,
        };
        spec_tick(prev, judgment, now, mouse_active, recent_input).0
    }
}

/// Holding one judgment tick by tick integrates exactly like
/// [`spec_gauge_after_run`]: each one-second tick moves the gauge by the
/// judgment's multiplier, floored at zero, and well-formedness is kept.
pub proof fn lemma_hold_constant_judgment(
    c: DriftController,
    judgment: InferenceResult,
    mouse_active: bool,
    recent_input: bool,
    n: nat,
)
    requires
        c.wf(),
        c.last_tick_ts is Some,
        c.last_tick_ts->0 + n <= MAX_TICK_TS,
    ensures
        ({
            let held = spec_hold(c, judgment, mouse_active, recent_input, n);
            &&& held.gauge_q as int == spec_gauge_after_run(
                c.gauge_q as int,
                spec_multiplier_q(judgment, mouse_active, recent_input),
                n,
            )
            &&& held.last_tick_ts == Some((c.last_tick_ts->0 + n) as u64)
            &&& held.wf()
        }),
    decreases n,
{
    let m = spec_multiplier_q(judgment, mouse_active, recent_input);
    if n > 0 {
        lemma_hold_constant_judgment(c, judgment, mouse_active, recent_input, (n - 1) as nat);
        let prev = spec_hold(c, judgment, mouse_active, recent_input, (n - 1) as nat);
        let now = (c.last_tick_ts->0 + n) as u64;
        assert(prev.last_tick_ts == Some((c.last_tick_ts->0 + n - 1) as u64));
        assert(m * 1 == m) by (nonlinear_arith);
        let g = spec_gauge_step(prev.gauge_q as int, m, 1);
        assert(g <= prev.gauge_q + 4);
        assert(g == spec_gauge_after_run(c.gauge_q as int, m, n));
        assert(spec_hold(c, judgment, mouse_active, recent_input, n) == spec_tick(
            prev,
            judgment,
            now,
            mouse_active,
            recent_input,
        ).0);
    }
}

/// Gauge integration: holding a strong outlier for `n` seconds from an
/// empty gauge leaves a gauge of exactly `n` seconds (`4n`
/// quarter-seconds), since the strong multiplier is real-time.
pub proof fn lemma_strong_hold_fills_realtime(
    c: DriftController,
    mouse_active: bool,
    recent_input: bool,
    n: nat,
)
    requires
        c.wf(),
        c.gauge_q == 0,
        c.last_tick_ts is Some,
        c.last_tick_ts->0 + n <= MAX_TICK_TS,
    ensures
        spec_hold(c, InferenceResult::StrongOutlier, mouse_active, recent_input, n).gauge_q == 4
            * n,
{
    lemma_hold_constant_judgment(c, InferenceResult::StrongOutlier, mouse_active, recent_input, n);
    lemma_gauge_fill_linear(0, 4, n);
}

/// Time dilation: a weak outlier with no recent activity fills at half
/// speed, and at quarter speed while the mouse moves without typing, so
/// thirty held seconds leave fifteen or seven and a half gauge-seconds.
pub proof fn lemma_weak_hold_dilates_time(c: DriftController, mouse_active: bool, n: nat)
    requires
        c.wf(),
        c.gauge_q == 0,
        c.last_tick_ts is Some,
        c.last_tick_ts->0 + n <= MAX_TICK_TS,
    ensures
        !mouse_active ==> spec_hold(
            c,
            InferenceResult::WeakOutlier,
            false,
            false,
            n,
        ).gauge_q == 2 * n,
        mouse_active ==> spec_hold(c, InferenceResult::WeakOutlier, true, false, n).gauge_q == n,
{
    if mouse_active {
        lemma_hold_constant_judgment(c, InferenceResult::WeakOutlier, true, false, n);
        lemma_gauge_fill_linear(0, 1, n);
    } else {
        lemma_hold_constant_judgment(c, InferenceResult::WeakOutlier, false, false, n);
        lemma_gauge_fill_linear(0, 2, n);
    }
}

/// Recovery and floor: holding an inlier drains the gauge at double speed
/// and stops exactly at zero; from thirty gauge-seconds, fifteen held
/// seconds empty the gauge without ever banking a negative value.
pub proof fn lemma_inlier_hold_recovers_to_floor(
    c: DriftController,
    mouse_active: bool,
    recent_input: bool,
    n: nat,
)
    requires
        c.wf(),
        c.last_tick_ts is Some,
        c.last_tick_ts->0 + n <= MAX_TICK_TS,
    ensures
        spec_hold(c, InferenceResult::Inlier, mouse_active, recent_input, n).gauge_q as int == if c
            .gauge_q - 8 * n >= 0 {
            c.gauge_q - 8 * n
        } else {
            0int
        },
        spec_hold(c, InferenceResult::Inlier, mouse_active, recent_input, n).gauge_q >= 0,
{
    lemma_hold_constant_judgment(c, InferenceResult::Inlier, mouse_active, recent_input, n);
    lemma_gauge_recovery_floor(c.gauge_q as int, n);
}

/// Threshold crossing: after any tick the state is `Drift` exactly when
/// the gauge sits in the notify band and `Distracted` exactly at or above
/// the block threshold, and outside snooze those states emit the
/// notification and the overlay respectively; a focused tick emits
/// nothing.
pub proof fn lemma_threshold_crossing(
    c: DriftController,
    judgment: InferenceResult,
    now_ts: u64,
    mouse_active: bool,
    recent_input: bool,
)
    requires
        c.wf(),
        now_ts <= MAX_TICK_TS,
        match c.last_tick_ts {
            Some(t) => t <= now_ts,
            None => true,
        },
    ensures
        ({
            let (c2, r) = spec_tick(c, judgment, now_ts, mouse_active, recent_input);
            &&& (c2.state == FsmState::Drift <==> 4 * NOTIFY_THRESHOLD_SEC <= c2.gauge_q < 4
                * BLOCK_THRESHOLD_SEC)
            &&& (c2.state == FsmState::Distracted <==> c2.gauge_q >= 4 * BLOCK_THRESHOLD_SEC)
            &&& (!spec_snoozed(c.last_intervention_ts, now_ts) && c2.state == FsmState::Drift ==> r
                == InterventionTrigger::TriggerNotification)
            &&& (!spec_snoozed(c.last_intervention_ts, now_ts) && c2.state == FsmState::Distracted
                ==> r == InterventionTrigger::TriggerOverlay)
            &&& (c2.state == FsmState::Focus ==> r == InterventionTrigger::DoNothing)
        }),
{
    let dt = match c.last_tick_ts {
        Some(t) => now_ts - t,
        None => 0,
    };
    let m = spec_multiplier_q(judgment, mouse_active, recent_input);
    let g = spec_gauge_step(c.gauge_q as int, m, dt);
    assert(m * dt <= 4 * dt) by (nonlinear_arith)
        requires m <= 4, dt >= 0
    ;
    assert(g <= 4 * (now_ts as int));
}

/// Snooze suppression: a tick that emitted an intervention silences every
/// later tick that comes less than [`SNOOZE_SEC`] seconds after it, even
/// while the gauge keeps rising.
pub proof fn lemma_snooze_suppression(
    c: DriftController,
    j1: InferenceResult,
    t1: u64,
    ma1: bool,
    ri1: bool,
    j2: InferenceResult,
    t2: u64,
    ma2: bool,
    ri2: bool,
)
    requires
        t1 <= t2,
        t2 - t1 < SNOOZE_SEC,
        spec_tick(c, j1, t1, ma1, ri1).1 != InterventionTrigger::DoNothing,
    ensures
        spec_tick(spec_tick(c, j1, t1, ma1, ri1).0, j2, t2, ma2, ri2).1
            == InterventionTrigger::DoNothing,
{
    let c1 = spec_tick(c, j1, t1, ma1, ri1).0;
    assert(c1.last_intervention_ts == Some(t1));
    assert(spec_snoozed(c1.last_intervention_ts, t2));
}

} // verus!
