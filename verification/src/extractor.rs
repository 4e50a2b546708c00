//! Feature extraction: turns a window sample plus input-activity counters
//! into the fixed six-dimensional feature vector the scoring model
//! consumes.
//!
//! Every dimension is an integer in milli-units (thousandths), so `1000`
//! stands for a real value of `1.0`. The two transcendental shapes the
//! pipeline needs, `ln(delta + 1)` and `sigmoid(1 / (delta + 0.1))`, are
//! taken from fixed tables over the clipped delta range `0..=50`.

use vstd::prelude::*;
use crate::sample::{InputStats, WindowSample, MOUSE_ACTIVE_WINDOW_MS};
use crate::text::{spec_context_score, to_chars, WeightTable};

verus! {

/// Upper bound on a per-tick input delta before any further math; a single
/// burst of OS event spam cannot saturate the downstream features.
pub const DELTA_CLIP: u64 = 50;

/// How many per-tick deltas the rolling history keeps: about one minute at
/// the sensing cadence.
pub const HISTORY_CAP: usize = 60;

/// Latest timestamp, in Unix milliseconds, the extractor accepts; keeps
/// every intermediate product inside 64 bits (about the year 3084).
pub const MAX_NOW_MS: u64 = 0x2000_0000_0000;

/// The per-tick event delta: how far the monotonic event total moved since
/// the previous extraction, clipped to [`DELTA_CLIP`].
pub open spec fn spec_delta(last_total: u64, current_total: u64) -> u64 {
    let d: u64 = if current_total >= last_total {
        (current_total - last_total) as u64
    } else {
        0u64
    };
    if d > DELTA_CLIP {
        DELTA_CLIP
    } else {
        d
    }
}

/// The rolling history after recording `delta`: the oldest entry falls out
/// once the window is full.
pub open spec fn spec_history_push(h: Seq<u64>, delta: u64) -> Seq<u64> {
    if h.len() >= HISTORY_CAP {
        h.drop_first().push(delta)
    } else {
        h.push(delta)
    }
}

/// Sum of the history deltas.
pub open spec fn spec_sum(h: Seq<u64>) -> int
    decreases h.len(),
{
    if h.len() == 0 {
        0
    } else {
        spec_sum(h.drop_last()) + h.last()
    }
}

/// Sum of the squared history deltas.
pub open spec fn spec_sum_sq(h: Seq<u64>) -> int
    decreases h.len(),
{
    if h.len() == 0 {
        0
    } else {
        spec_sum_sq(h.drop_last()) + h.last() * h.last()
    }
}

/// The population variance of the history in micro-units (millionths):
/// `(n * sum_sq - sum^2) * 10^6 / n^2`, and `0` when the history is empty
/// or its mean is exactly zero.
pub open spec fn spec_variance_micro(h: Seq<u64>) -> int {
    let n = h.len() as int;
    let s = spec_sum(h);
    let q = spec_sum_sq(h);
    if n == 0 || s == 0 {
        0
    } else {
        let d = n * q - s * s;
        if d <= 0 {
            0
        } else {
            d * 1000000 / (n * n)
        }
    }
}

/// `r` is the integer square root of `v` rounded down.
pub open spec fn spec_is_sqrt_floor(v: int, r: int) -> bool {
    &&& 0 <= r
    &&& r * r <= v
    &&& v < (r + 1) * (r + 1)
}

/// Integer square root, rounded down.
pub fn isqrt(v: u64) -> (r: u64)
    ensures
        spec_is_sqrt_floor(v as int, r as int),
{
    let mut lo: u64 = 0;
    let mut hi: u64 = 0x1_0000_0000;
    proof {
        assert((0x1_0000_0000 as int) * (0x1_0000_0000 as int) > u64::MAX as int) by (nonlinear_arith);
    }
    while hi - lo > 1
        invariant
            lo < hi <= 0x1_0000_0000,
            lo * lo <= v as int,
            (v as int) < hi * hi,
        decreases hi - lo,
    {
        let mid: u64 = lo + (hi - lo) / 2;
        proof {
            assert((mid as int) * (mid as int) <= (0x1_0000_0000 as int) * (0x1_0000_0000 as int))
                by (nonlinear_arith)
                requires 0 <= mid <= 0x1_0000_0000
            ;
        }
        if (mid as u128) * (mid as u128) <= v as u128 {
            lo = mid;
        } else {
            hi = mid;
        }
    }
    lo
}

/// Thousandths of `ln(n + 1)` for `n` in `0..=50`, rounded to nearest.
pub open spec fn spec_ln1p_milli_table() -> Seq<i64> {
    seq![
        0i64, 693, 1099, 1386, 1609, 1792, 1946, 2079, 2197, 2303, 2398, 2485, 2565, 2639, 2708,
        2773, 2833, 2890, 2944, 2996, 3045, 3091, 3135, 3178, 3219, 3258, 3296, 3332, 3367, 3401,
        3434, 3466, 3497, 3526, 3555, 3584, 3611, 3638, 3664, 3689, 3714, 3738, 3761, 3784, 3807,
        3829, 3850, 3871, 3892, 3912, 3932,
    ]
}

/// Thousandths of `sigmoid(1 / (n + 0.1))` for `n` in `0..=50`, rounded to
/// nearest: near `1.0` under silence, shrinking toward `0.5` under heavy
/// typing.
pub open spec fn spec_sigmoid_gate_milli_table() -> Seq<i64> {
    seq![
        1000i64, 713, 617, 580, 561, 549, 541, 535, 531, 527, 525, 523, 521, 519, 518, 517, 516,
        515, 514, 513, 512, 512, 511, 511, 510, 510, 510, 509, 509, 509, 508, 508, 508, 508, 507,
        507, 507, 507, 507, 506, 506, 506, 506, 506, 506, 506, 505, 505, 505, 505, 505,
    ]
}

fn ln1p_milli(delta: u64) -> (r: i64)
    requires
        delta <= DELTA_CLIP,
    ensures
        r == spec_ln1p_milli_table()[delta as int],
        0 <= r <= 3932,
{
    let t: [i64; 51] = [
        0, 693, 1099, 1386, 1609, 1792, 1946, 2079, 2197, 2303, 2398, 2485, 2565, 2639, 2708,
        2773, 2833, 2890, 2944, 2996, 3045, 3091, 3135, 3178, 3219, 3258, 3296, 3332, 3367, 3401,
        3434, 3466, 3497, 3526, 3555, 3584, 3611, 3638, 3664, 3689, 3714, 3738, 3761, 3784, 3807,
        3829, 3850, 3871, 3892, 3912, 3932,
    ];
    proof {
        assert(t@ =~= spec_ln1p_milli_table());
    }
    t[delta as usize]
}

fn sigmoid_gate_milli(delta: u64) -> (r: i64)
    requires
        delta <= DELTA_CLIP,
    ensures
        r == spec_sigmoid_gate_milli_table()[delta as int],
        0 <= r <= 1000,
{
    let t: [i64; 51] = [
        1000, 713, 617, 580, 561, 549, 541, 535, 531, 527, 525, 523, 521, 519, 518, 517, 516,
        515, 514, 513, 512, 512, 511, 511, 510, 510, 510, 509, 509, 509, 508, 508, 508, 508, 507,
        507, 507, 507, 507, 506, 506, 506, 506, 506, 506, 506, 505, 505, 505, 505, 505,
    ];
    proof {
        assert(t@ =~= spec_sigmoid_gate_milli_table());
    }
    t[delta as usize]
}

/// The text a window sample exposes to context scoring: application name
/// and title, space-separated, the way the sensing layer reports them.
pub open spec fn spec_window_text(w: WindowSample) -> Seq<char> {
    w.app_name@ + seq![' '] + w.title@
}

/// One six-dimensional feature vector, every entry in milli-units.
#[derive(Debug, Clone, Copy, PartialEq, Eq, Structural)]
pub struct FeatureVector {
    /// Average table weight of the window text tokens, in `[-1000, 1000]`.
    pub context_milli: i64,
    /// `ln(delta + 1)`, `0` for an idle tick.
    pub log_input_milli: i64,
    /// Seconds since the last meaningful input; milli-seconds-units equal
    /// plain milliseconds.
    pub silence_milli: i64,
    /// Standard deviation of the rolling delta history.
    pub burstiness_milli: i64,
    /// `1000` when the mouse moved within the last five seconds, else `0`.
    pub mouse_active_milli: i64,
    /// Confidence gate: the sigmoid table value scaled by a positive
    /// context score, else `0`.
    pub interaction_gate_milli: i64,
}

impl FeatureVector {
    /// The numeric ranges every extracted vector satisfies.
    pub open spec fn wf(&self) -> bool {
        &&& -1000 <= self.context_milli <= 1000
        &&& 0 <= self.log_input_milli <= 3932
        &&& 0 <= self.silence_milli <= MAX_NOW_MS
        &&& 0 <= self.burstiness_milli <= 3_000_000
        &&& (self.mouse_active_milli == 0 || self.mouse_active_milli == 1000)
        &&& 0 <= self.interaction_gate_milli <= 1000
    }

    /// The vector in its fixed dimension order.
    pub open spec fn spec_as_array(&self) -> Seq<int> {
        seq![
            self.context_milli as int,
            self.log_input_milli as int,
            self.silence_milli as int,
            self.burstiness_milli as int,
            self.mouse_active_milli as int,
            self.interaction_gate_milli as int,
        ]
    }

    /// The vector in its fixed dimension order.
    pub fn as_array(&self) -> (r: [i64; 6])
        ensures
            r@.map_values(|x: i64| x as int) == self.spec_as_array(),
    {
        let r = [
            self.context_milli,
            self.log_input_milli,
            self.silence_milli,
            self.burstiness_milli,
            self.mouse_active_milli,
            self.interaction_gate_milli,
        ];
        proof {
            assert(r@.map_values(|x: i64| x as int) =~= self.spec_as_array());
        }
        r
    }
}

/// Turns raw activity signals into feature vectors, keeping the running
/// event total and the rolling delta history between calls.
#[derive(Debug)]
pub struct FeatureExtractor {
    table: WeightTable,
    history: Vec<u64>,
    last_total_events: u64,
}

impl FeatureExtractor {
    /// Internal consistency: a well-formed weight table, at most
    /// [`HISTORY_CAP`] history entries, each a clipped delta.
    pub open spec fn wf(&self) -> bool {
        &&& crate::text::spec_table_wf(self.spec_table())
        &&& self.spec_history().len() <= HISTORY_CAP
        &&& forall|i: int|
            0 <= i < self.spec_history().len() ==> #[trigger] self.spec_history()[i] <= DELTA_CLIP
    }

    pub closed spec fn spec_table(&self) -> Seq<(Seq<char>, i64)> {
        self.table@
    }

    pub closed spec fn spec_history(&self) -> Seq<u64> {
        self.history@
    }

    pub closed spec fn spec_last_total(&self) -> u64 {
        self.last_total_events
    }

    /// A fresh extractor over the built-in weight table.
    pub fn new() -> (r: FeatureExtractor)
        ensures
            r.wf(),
            r.spec_table() == crate::text::spec_default_weight_table(),
            r.spec_history() == Seq::<u64>::empty(),
            r.spec_last_total() == 0,
    {
        FeatureExtractor { table: WeightTable::default_table(), history: Vec::new(), last_total_events: 0 }
    }

    /// A fresh extractor over an injected weight table, for synthetic
    /// tables and swapped-in knowledge.
    pub fn with_table(table: WeightTable) -> (r: FeatureExtractor)
        requires
            table.wf(),
        ensures
            r.wf(),
            r.spec_table() == table@,
            r.spec_history() == Seq::<u64>::empty(),
            r.spec_last_total() == 0,
    {
        FeatureExtractor { table, history: Vec::new(), last_total_events: 0 }
    }

    /// Sum and sum of squares of the current history.
    fn history_sums(&self) -> (r: (u64, u64))
        requires
            self.wf(),
        ensures
            r.0 == spec_sum(self.history@),
            r.1 == spec_sum_sq(self.history@),
            r.0 <= 3000,
            r.1 <= 150000,
    {
        let mut sum: u64 = 0;
        let mut sum_sq: u64 = 0;
        let n = self.history.len();
        proof {
            assert(self.history@.take(0) =~= Seq::<u64>::empty());
        }
        for j in 0..n
            invariant
                n == self.history@.len(),
                self.wf(),
                sum == spec_sum(self.history@.take(j as int)),
                sum_sq == spec_sum_sq(self.history@.take(j as int)),
                sum <= j * 50,
                sum_sq <= j * 2500,
        {
            proof {
                assert(self.history@.take(j + 1).drop_last() =~= self.history@.take(j as int));
                assert(self.history@.take(j + 1).last() == self.history@[j as int]);
            }
            let d = self.history[j];
            proof {
                assert(d <= DELTA_CLIP);
                assert(d * d <= 2500) by (nonlinear_arith)
                    requires d <= 50
                ;
            }
            sum = sum + d;
            sum_sq = sum_sq + d * d;
        }
        proof {
            assert(self.history@.take(n as int) =~= self.history@);
        }
        (sum, sum_sq)
    }

    /// The standard deviation of the rolling history, in milli-units: the
    /// integer square root of [`spec_variance_micro`].
    fn burstiness_milli(&self) -> (r: u64)
        requires
            self.wf(),
        ensures
            spec_is_sqrt_floor(spec_variance_micro(self.history@), r as int),
            r <= 3_000_000,
    {
        let (sum, sum_sq) = self.history_sums();
        let n = self.history.len() as u64;
        if n == 0 || sum == 0 {
            return 0;
        }
        proof {
            assert(n <= 60);
            assert(n * sum_sq <= 9_000_000) by (nonlinear_arith)
                requires n <= 60, sum_sq <= 150000
            ;
            assert(sum * sum <= 9_000_000) by (nonlinear_arith)
                requires sum <= 3000
            ;
            assert(1 <= n * n <= 3600) by (nonlinear_arith)
                requires 1 <= n <= 60
            ;
        }
        let prod: u64 = n * sum_sq;
        let sq: u64 = sum * sum;
        let num: u64 = prod.saturating_sub(sq);
        let var_micro: u64 = num * 1000000 / (n * n);
        proof {
            assert(var_micro == spec_variance_micro(self.history@));
            assert(num * 1000000 <= 9_000_000_000_000) by (nonlinear_arith)
                requires num <= 9_000_000
            ;
            assert(var_micro <= 9_000_000_000_000) by {
                assert(n * n >= 1) by (nonlinear_arith)
                    requires n >= 1
                ;
                assert(num * 1000000 / (n * n) <= num * 1000000 / 1) by (nonlinear_arith)
                    requires n * n >= 1, num * 1000000 >= 0
                ;
            }
        }
        let r = isqrt(var_micro);
        proof {
            assert(r <= 3_000_000) by (nonlinear_arith)
                requires
                    spec_is_sqrt_floor(var_micro as int, r as int),
                    var_micro <= 9_000_000_000_000,
            ;
        }
        r
    }

    /// One extraction step: consumes the current window sample and counter
    /// snapshot at `now_ms`, updates the delta history and running total,
    /// and returns the six features exactly as specified field by field.
    pub fn extract(&mut self, window: &WindowSample, stats: &InputStats, now_ms: u64) -> (r:
        FeatureVector)
        requires
            old(self).wf(),
            now_ms <= MAX_NOW_MS,
        ensures
            final(self).wf(),
            r.wf(),
            final(self).spec_table() == old(self).spec_table(),
            final(self).spec_last_total() == stats.meaningful_input_events,
            final(self).spec_history() == spec_history_push(
                old(self).spec_history(),
                spec_delta(old(self).spec_last_total(), stats.meaningful_input_events),
            ),
            r.context_milli == spec_context_score(old(self).spec_table(), spec_window_text(*window)),
            r.log_input_milli == spec_ln1p_milli_table()[spec_delta(
                old(self).spec_last_total(),
                stats.meaningful_input_events,
            ) as int],
            r.silence_milli == if stats.last_meaningful_input_timestamp_ms > 0 {
                if now_ms >= stats.last_meaningful_input_timestamp_ms {
                    now_ms - stats.last_meaningful_input_timestamp_ms
                } else {
                    0
                }
            } else {
                0
            },
            spec_is_sqrt_floor(
                spec_variance_micro(final(self).spec_history()),
                r.burstiness_milli as int,
            ),
            r.mouse_active_milli == if stats.last_mouse_move_timestamp_ms > 0 && (
            now_ms < stats.last_mouse_move_timestamp_ms || now_ms
                - stats.last_mouse_move_timestamp_ms <= MOUSE_ACTIVE_WINDOW_MS) {
                1000int
            } else {
                0int
            },
            r.interaction_gate_milli == if r.context_milli > 0 {
                spec_sigmoid_gate_milli_table()[spec_delta(
                    old(self).spec_last_total(),
                    stats.meaningful_input_events,
                ) as int] * r.context_milli / 1000
            } else {
                0int
            },
    {
        // Delta of the monotonic event total, clipped before any further
        // math.
        let current_total = stats.meaningful_input_events;
        let mut delta = current_total.saturating_sub(self.last_total_events);
        if delta > DELTA_CLIP {
            delta = DELTA_CLIP;
        }
        self.last_total_events = current_total;

        // Context score over the space-joined window text.
        let mut text = to_chars(window.app_name.as_str());
        text.push(' ');
        let mut title_chars = to_chars(window.title.as_str());
        text.append(&mut title_chars);
        proof {
            assert(text@ =~= spec_window_text(*window));
        }
        let context_milli = self.table.context_score_milli(&text);

        // Log-scaled input volume.
        let log_input_milli = ln1p_milli(delta);

        // Silence span since the last meaningful input.
        let last_input_ms = stats.last_meaningful_input_timestamp_ms;
        let silence_milli: i64 = if last_input_ms > 0 {
            now_ms.saturating_sub(last_input_ms) as i64
        } else {
            0
        };

        // Roll the delta history and measure its spread.
        if self.history.len() >= HISTORY_CAP {
            self.history.remove(0);
            proof {
                assert(self.history@ =~= old(self).spec_history().drop_first());
            }
        }
        self.history.push(delta);
        let burstiness = self.burstiness_milli();

        // Mouse activity flag.
        let last_mouse_ms = stats.last_mouse_move_timestamp_ms;
        let mouse_active_milli: i64 = if last_mouse_ms > 0 && now_ms.saturating_sub(last_mouse_ms)
            <= MOUSE_ACTIVE_WINDOW_MS {
            1000
        } else {
            0
        };

        // Confidence gate: sparse input lets a positive context through,
        // heavy typing shrinks it toward indifference.
        let interaction_gate_milli: i64 = if context_milli > 0 {
            let s = sigmoid_gate_milli(delta);
            proof {
                assert(0 <= s * context_milli <= 1_000_000) by (nonlinear_arith)
                    requires 0 <= s <= 1000, 0 < context_milli <= 1000
                ;
            }
            s * context_milli / 1000
        } else {
            0
        };

        FeatureVector {
            context_milli,
            log_input_milli,
            silence_milli,
            burstiness_milli: burstiness as i64,
            mouse_active_milli,
            interaction_gate_milli,
        }
    }
}

} // verus!
