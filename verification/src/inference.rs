//! The inference service: standardizes a feature vector, maps a raw model
//! score to a three-tier judgment, supports hot-swap of the scoring model,
//! and keeps a short-lived user-feedback override cache.
//!
//! The scoring model itself is an opaque collaborator that the host runs
//! between [`InferenceEngine::prepare_input`] and [`classify_score`]; the
//! engine never fabricates a judgment while no model is loaded.

use vstd::prelude::*;
use crate::extractor::{FeatureVector, MAX_NOW_MS};
use crate::text::spec_div_trunc;

verus! {

/// One hour in milliseconds, for feedback time-to-live arithmetic.
pub const MS_PER_HOUR: u64 = 3_600_000;

/// Milli-unit score at or below which a judgment turns from weak to strong
/// outlier; stands for the real threshold `-0.5`.
pub const STRONG_OUTLIER_THRESHOLD_MILLI: i64 = -500;

/// The three-tier judgment the service derives from a raw model score.
#[derive(Debug, Clone, Copy, PartialEq, Eq, Structural)]
pub enum InferenceResult {
    /// Behavior matches the personal baseline: score above zero.
    Inlier,
    /// Mild anomaly: score in `(-0.5, 0]`.
    WeakOutlier,
    /// Clear anomaly: score at or below `-0.5`.
    StrongOutlier,
}

/// Why an inference request was refused.
#[derive(Debug, Clone, Copy, PartialEq, Eq, Structural)]
pub enum InferError {
    /// No model session is loaded; the caller must treat this as a
    /// legitimate steady state, not a crash.
    ModelUnloaded,
}

/// Why a pair of scaler parameter arrays was rejected.
#[derive(Debug, Clone, Copy, PartialEq, Eq, Structural)]
pub enum LoadError {
    /// Some scale entry lies outside `[1, MAX_NOW_MS]`: standardization
    /// could not divide by it safely.
    ScaleOutOfRange,
    /// Some mean entry lies outside `[-MAX_NOW_MS, MAX_NOW_MS]`.
    MeanOutOfRange,
}

/// The judgment a raw milli-unit score maps to: `score > 0` is an inlier,
/// `-500 < score <= 0` a weak outlier, `score <= -500` a strong outlier.
pub open spec fn spec_judgment(score_milli: int) -> InferenceResult {
    if score_milli > 0 {
        InferenceResult::Inlier
    } else if score_milli > STRONG_OUTLIER_THRESHOLD_MILLI {
        InferenceResult::WeakOutlier
    } else {
        InferenceResult::StrongOutlier
    }
}

/// Maps a raw model score, in milli-units, to its judgment tier.
pub fn classify_score(score_milli: i64) -> (r: InferenceResult)
    ensures
        r == spec_judgment(score_milli as int),
{
    if score_milli > 0 {
        InferenceResult::Inlier
    } else if score_milli > STRONG_OUTLIER_THRESHOLD_MILLI {
        InferenceResult::WeakOutlier
    } else {
        InferenceResult::StrongOutlier
    }
}

/// Per-dimension standardization parameters in milli-units, loaded from
/// the side-car file paired with the model and immutable while that model
/// stays loaded.
#[derive(Debug, Clone)]
pub struct ScalerParams {
    mean_milli: [i64; 6],
    scale_milli: [i64; 6],
}

impl ScalerParams {
    pub closed spec fn spec_mean(&self) -> Seq<int> {
        self.mean_milli@.map_values(|x: i64| x as int)
    }

    pub closed spec fn spec_scale(&self) -> Seq<int> {
        self.scale_milli@.map_values(|x: i64| x as int)
    }

    /// Ranges under which standardization can neither overflow nor divide
    /// by zero.
    pub open spec fn wf(&self) -> bool {
        &&& self.spec_mean().len() == 6
        &&& self.spec_scale().len() == 6
        &&& forall|i: int| 0 <= i < 6 ==> -(MAX_NOW_MS as int) <= #[trigger] self.spec_mean()[i]
            <= MAX_NOW_MS
        &&& forall|i: int| 0 <= i < 6 ==> 1 <= #[trigger] self.spec_scale()[i] <= MAX_NOW_MS
    }

    /// Validates a pair of parameter arrays: succeeds exactly when every
    /// scale lies in `[1, MAX_NOW_MS]` and every mean in
    /// `[-MAX_NOW_MS, MAX_NOW_MS]`, scales being checked first.
    pub fn try_new(mean_milli: [i64; 6], scale_milli: [i64; 6]) -> (r: Result<
        ScalerParams,
        LoadError,
    >)
        ensures
            match r {
                Ok(p) => {
                    &&& p.wf()
                    &&& p.spec_mean() == mean_milli@.map_values(|x: i64| x as int)
                    &&& p.spec_scale() == scale_milli@.map_values(|x: i64| x as int)
                },
                Err(e) => {
                    &&& (e == LoadError::ScaleOutOfRange <==> exists|i: int|
                        0 <= i < 6 && !(1 <= #[trigger] scale_milli@[i] <= MAX_NOW_MS))
                    &&& (e == LoadError::MeanOutOfRange ==> exists|i: int|
                        0 <= i < 6 && !(-(MAX_NOW_MS as int) <= #[trigger] mean_milli@[i]
                            <= MAX_NOW_MS))
                },
            },
            r is Err <==> (exists|i: int|
                0 <= i < 6 && !(1 <= #[trigger] scale_milli@[i] <= MAX_NOW_MS)) || (exists|i: int|
                0 <= i < 6 && !(-(MAX_NOW_MS as int) <= #[trigger] mean_milli@[i] <= MAX_NOW_MS)),
    {
        for i in 0..6usize
            invariant
                forall|j: int| 0 <= j < i ==> 1 <= #[trigger] scale_milli@[j] <= MAX_NOW_MS,
        {
            let s = scale_milli[i];
            if s < 1 || s > MAX_NOW_MS as i64 {
                proof {
                    assert(!(1 <= scale_milli@[i as int] <= MAX_NOW_MS));
                }
                return Err(LoadError::ScaleOutOfRange);
            }
        }
        for i in 0..6usize
            invariant
                forall|j: int| 0 <= j < 6 ==> 1 <= #[trigger] scale_milli@[j] <= MAX_NOW_MS,
                forall|j: int|
                    0 <= j < i ==> -(MAX_NOW_MS as int) <= #[trigger] mean_milli@[j] <= MAX_NOW_MS,
        {
            let m = mean_milli[i];
            if m < -(MAX_NOW_MS as i64) || m > MAX_NOW_MS as i64 {
                proof {
                    assert(!(-(MAX_NOW_MS as int) <= mean_milli@[i as int] <= MAX_NOW_MS));
                }
                return Err(LoadError::MeanOutOfRange);
            }
        }
        let p = ScalerParams { mean_milli, scale_milli };
        proof {
            assert(p.spec_mean() =~= mean_milli@.map_values(|x: i64| x as int));
            assert(p.spec_scale() =~= scale_milli@.map_values(|x: i64| x as int));
        }
        Ok(p)
    }

    /// The neutral parameters: mean `0`, scale `1.0`, so standardization
    /// returns its input unchanged. Used while nothing real is loaded.
    pub fn identity() -> (r: ScalerParams)
        ensures
            r.wf(),
            forall|i: int| 0 <= i < 6 ==> #[trigger] r.spec_mean()[i] == 0,
            forall|i: int| 0 <= i < 6 ==> #[trigger] r.spec_scale()[i] == 1000,
    {
        let p = ScalerParams { mean_milli: [0, 0, 0, 0, 0, 0], scale_milli: [
            1000,
            1000,
            1000,
            1000,
            1000,
            1000,
        ] };
        proof {
            assert(forall|i: int| 0 <= i < 6 ==> #[trigger] p.spec_mean()[i] == 0);
            assert(forall|i: int| 0 <= i < 6 ==> #[trigger] p.spec_scale()[i] == 1000);
        }
        p
    }
}

/// Standardization: per dimension, `z = (x - mean) * 1000 / scale`, the
/// division rounding toward zero; everything in milli-units.
pub open spec fn spec_standardize(mean: Seq<int>, scale: Seq<int>, x: Seq<int>) -> Seq<int> {
    Seq::new(x.len(), |i| spec_div_trunc((x[i] - mean[i]) * 1000, scale[i]))
}

/// Signed division rounding toward zero.
fn div_trunc_i64(a: i64, b: i64) -> (r: i64)
    requires
        1 <= b,
        a != i64::MIN,
    ensures
        r == spec_div_trunc(a as int, b as int),
{
    if a >= 0 {
        ((a as u64) / (b as u64)) as i64
    } else {
        let m = (-a) as u64;
        let q = m / (b as u64);
        -(q as i64)
    }
}

/// First-match lookup in the feedback cache.
pub open spec fn spec_cache_lookup(entries: Seq<(Seq<char>, u64)>, tok: Seq<char>) -> Option<u64>
    decreases entries.len(),
{
    if entries.len() == 0 {
        None
    } else if entries[0].0 == tok {
        Some(entries[0].1)
    } else {
        spec_cache_lookup(entries.drop_first(), tok)
    }
}

/// No two cache entries share a token.
pub open spec fn spec_cache_keys_distinct(entries: Seq<(Seq<char>, u64)>) -> bool {
    forall|i: int, j: int|
        0 <= i < j < entries.len() ==> (#[trigger] entries[i]).0 != (#[trigger] entries[j]).0
}

/// A cache hit: the token has an entry that has not expired at `now_ms`.
pub open spec fn spec_cache_hit(entries: Seq<(Seq<char>, u64)>, tok: Seq<char>, now_ms: u64) -> bool {
    match spec_cache_lookup(entries, tok) {
        Some(expires) => now_ms < expires,
        None => false,
    }
}

/// When a feedback entry recorded at `now_ms` with a time-to-live of
/// `ttl_hours` expires; saturates at the largest representable instant.
pub open spec fn spec_expiry(now_ms: u64, ttl_hours: u64) -> u64 {
    let total = now_ms + ttl_hours * (MS_PER_HOUR as int);
    if total > u64::MAX {
        u64::MAX
    } else {
        total as u64
    }
}

proof fn lemma_cache_drop_first_distinct(entries: Seq<(Seq<char>, u64)>)
    requires
        spec_cache_keys_distinct(entries),
        entries.len() > 0,
    ensures
        spec_cache_keys_distinct(entries.drop_first()),
        forall|j: int|
            0 <= j < entries.drop_first().len() ==> #[trigger] entries.drop_first()[j] == entries[
                j + 1
            ],
{
    assert(forall|j: int|
        0 <= j < entries.drop_first().len() ==> #[trigger] entries.drop_first()[j] == entries[
            j + 1
        ]);
}

proof fn lemma_cache_lookup_update(entries: Seq<(Seq<char>, u64)>, i: int, p: (Seq<char>, u64), k: Seq<char>)
    requires
        0 <= i < entries.len(),
        entries[i].0 == p.0,
        spec_cache_keys_distinct(entries),
    ensures
        spec_cache_lookup(entries.update(i, p), p.0) == Some(p.1),
        k != p.0 ==> spec_cache_lookup(entries.update(i, p), k) == spec_cache_lookup(entries, k),
        spec_cache_keys_distinct(entries.update(i, p)),
    decreases entries.len(),
{
    let updated = entries.update(i, p);
    assert(forall|j: int| 0 <= j < entries.len() && j != i ==> updated[j] == entries[j]);
    if i == 0 {
        assert(updated.drop_first() =~= entries.drop_first());
    } else {
        lemma_cache_drop_first_distinct(entries);
        assert(updated.drop_first() =~= entries.drop_first().update(i - 1, p));
        lemma_cache_lookup_update(entries.drop_first(), i - 1, p, k);
        assert(updated[0] == entries[0]);
        assert(entries[0].0 != p.0);
    }
}

proof fn lemma_cache_lookup_remove(entries: Seq<(Seq<char>, u64)>, i: int, k: Seq<char>)
    requires
        0 <= i < entries.len(),
        spec_cache_keys_distinct(entries),
    ensures
        spec_cache_lookup(entries.remove(i), entries[i].0) is None,
        k != entries[i].0 ==> spec_cache_lookup(entries.remove(i), k) == spec_cache_lookup(
            entries,
            k,
        ),
        spec_cache_keys_distinct(entries.remove(i)),
    decreases entries.len(),
{
    let removed = entries.remove(i);
    assert(forall|j: int| 0 <= j < i ==> removed[j] == entries[j]);
    assert(forall|j: int| i <= j < removed.len() ==> removed[j] == entries[j + 1]);
    if i == 0 {
        assert(removed =~= entries.drop_first());
        lemma_cache_drop_first_distinct(entries);
        if spec_cache_lookup(entries.drop_first(), entries[0].0) is Some {
            lemma_cache_lookup_present(entries.drop_first(), entries[0].0);
        }
    } else {
        lemma_cache_drop_first_distinct(entries);
        assert(removed.drop_first() =~= entries.drop_first().remove(i - 1));
        lemma_cache_lookup_remove(entries.drop_first(), i - 1, k);
        assert(removed[0] == entries[0]);
        assert(entries.drop_first()[i - 1] == entries[i]);
        assert(entries[0].0 != entries[i].0);
    }
}

proof fn lemma_cache_lookup_present(entries: Seq<(Seq<char>, u64)>, k: Seq<char>)
    requires
        spec_cache_lookup(entries, k) is Some,
    ensures
        exists|j: int| 0 <= j < entries.len() && (#[trigger] entries[j]).0 == k,
    decreases entries.len(),
{
    if entries.len() > 0 {
        if entries[0].0 == k {
        } else {
            lemma_cache_lookup_present(entries.drop_first(), k);
            let j = choose|j: int|
                0 <= j < entries.drop_first().len() && (#[trigger] entries.drop_first()[j]).0 == k;
            assert(entries[j + 1].0 == k);
        }
    }
}

proof fn lemma_cache_lookup_push(entries: Seq<(Seq<char>, u64)>, p: (Seq<char>, u64), k: Seq<char>)
    requires
        spec_cache_keys_distinct(entries),
        spec_cache_lookup(entries, p.0) is None,
    ensures
        spec_cache_lookup(entries.push(p), p.0) == Some(p.1),
        k != p.0 ==> spec_cache_lookup(entries.push(p), k) == spec_cache_lookup(entries, k),
        spec_cache_keys_distinct(entries.push(p)),
    decreases entries.len(),
{
    let pushed = entries.push(p);
    if entries.len() == 0 {
        assert(pushed[0] == p);
        assert(pushed.drop_first() =~= Seq::<(Seq<char>, u64)>::empty());
    } else {
        lemma_cache_drop_first_distinct(entries);
        assert(pushed.drop_first() =~= entries.drop_first().push(p));
        lemma_cache_lookup_push(entries.drop_first(), p, k);
        assert(pushed[0] == entries[0]);
    }
    assert forall|i: int, j: int| 0 <= i < j < pushed.len() implies (#[trigger] pushed[i]).0 != (
    #[trigger] pushed[j]).0 by {
        if j == entries.len() {
            if pushed[i].0 == p.0 {
                lemma_cache_lookup_none_means_absent(entries, p.0);
            }
        }
    }
}

proof fn lemma_cache_lookup_none_means_absent(entries: Seq<(Seq<char>, u64)>, k: Seq<char>)
    requires
        spec_cache_lookup(entries, k) is None,
    ensures
        forall|j: int| 0 <= j < entries.len() ==> (#[trigger] entries[j]).0 != k,
    decreases entries.len(),
{
    if entries.len() > 0 {
        assert(entries[0].0 != k);
        lemma_cache_lookup_none_means_absent(entries.drop_first(), k);
        assert(forall|j: int|
            0 <= j < entries.drop_first().len() ==> #[trigger] entries.drop_first()[j] == entries[
                j + 1
            ]);
        assert forall|j: int| 1 <= j < entries.len() implies (#[trigger] entries[j]).0 != k by {
            assert(entries.drop_first()[j - 1] == entries[j]);
            assert(entries.drop_first()[j - 1].0 != k);
        }
    }
}

/// Feedback override window: once feedback for a token stands in the
/// cache, an inference consults the override exactly while the query time
/// lies before the recorded expiry, and never after the time-to-live has
/// elapsed.
pub proof fn lemma_feedback_override_window(
    cache: Seq<(Seq<char>, u64)>,
    token: Seq<char>,
    recorded_at_ms: u64,
    ttl_hours: u64,
    query_at_ms: u64,
)
    requires
        spec_cache_lookup(cache, token) == Some(spec_expiry(recorded_at_ms, ttl_hours)),
    ensures
        spec_cache_hit(cache, token, query_at_ms) <==> query_at_ms < spec_expiry(
            recorded_at_ms,
            ttl_hours,
        ),
{
}

/// The inference engine: the loaded-model state machine, its scaler, the
/// paths it answers for, and the feedback override cache.
#[derive(Debug)]
pub struct InferenceEngine {
    loaded: bool,
    scaler: ScalerParams,
    model_path: String,
    scaler_path: String,
    cache: Vec<(String, u64)>,
}

impl InferenceEngine {
    pub closed spec fn spec_loaded(&self) -> bool {
        self.loaded
    }

    pub closed spec fn spec_scaler(&self) -> ScalerParams {
        self.scaler
    }

    pub closed spec fn spec_model_path(&self) -> Seq<char> {
        self.model_path@
    }

    pub closed spec fn spec_scaler_path(&self) -> Seq<char> {
        self.scaler_path@
    }

    pub closed spec fn spec_cache(&self) -> Seq<(Seq<char>, u64)> {
        self.cache@.map_values(|e: (String, u64)| (e.0@, e.1))
    }

    /// Valid scaler parameters and a duplicate-free feedback cache.
    pub open spec fn wf(&self) -> bool {
        &&& self.spec_scaler().wf()
        &&& spec_cache_keys_distinct(self.spec_cache())
    }

    /// An engine in the explicit unloaded state: inference is refused
    /// until a model is installed.
    pub fn unloaded(model_path: String, scaler_path: String) -> (r: InferenceEngine)
        ensures
            r.wf(),
            !r.spec_loaded(),
            r.spec_model_path() == model_path@,
            r.spec_scaler_path() == scaler_path@,
            r.spec_cache() == Seq::<(Seq<char>, u64)>::empty(),
    {
        let r = InferenceEngine {
            loaded: false,
            scaler: ScalerParams::identity(),
            model_path,
            scaler_path,
            cache: Vec::new(),
        };
        proof {
            assert(r.spec_cache() =~= Seq::<(Seq<char>, u64)>::empty());
        }
        r
    }

    /// An engine whose model and scaler were just read from their files:
    /// the loaded state.
    pub fn from_parts(scaler: ScalerParams, model_path: String, scaler_path: String) -> (r:
        InferenceEngine)
        requires
            scaler.wf(),
        ensures
            r.wf(),
            r.spec_loaded(),
            r.spec_scaler() == scaler,
            r.spec_model_path() == model_path@,
            r.spec_scaler_path() == scaler_path@,
            r.spec_cache() == Seq::<(Seq<char>, u64)>::empty(),
    {
        let r = InferenceEngine { loaded: true, scaler, model_path, scaler_path, cache: Vec::new() };
        proof {
            assert(r.spec_cache() =~= Seq::<(Seq<char>, u64)>::empty());
        }
        r
    }

    /// Whether a model session is currently loaded.
    pub fn is_loaded(&self) -> (r: bool)
        ensures
            r == self.spec_loaded(),
    {
        self.loaded
    }

    /// Drops the model session so the operating system releases its file
    /// handle; the first step of a hot-swap. Everything else, the feedback
    /// cache included, survives.
    pub fn unload_model(&mut self)
        ensures
            !final(self).spec_loaded(),
            final(self).spec_scaler() == old(self).spec_scaler(),
            final(self).spec_model_path() == old(self).spec_model_path(),
            final(self).spec_scaler_path() == old(self).spec_scaler_path(),
            final(self).spec_cache() == old(self).spec_cache(),
            old(self).wf() ==> final(self).wf(),
    {
        self.loaded = false;
    }

    /// Installs a freshly read model and scaler: the engine enters the
    /// loaded state and remembers the path it came from.
    pub fn load_model(&mut self, scaler: ScalerParams, model_path: String)
        requires
            scaler.wf(),
        ensures
            final(self).spec_loaded(),
            final(self).spec_scaler() == scaler,
            final(self).spec_model_path() == model_path@,
            final(self).spec_scaler_path() == old(self).spec_scaler_path(),
            final(self).spec_cache() == old(self).spec_cache(),
            old(self).wf() ==> final(self).wf(),
    {
        self.loaded = true;
        self.scaler = scaler;
        self.model_path = model_path;
    }

    /// Final step of a hot-swap, after the session was dropped and the new
    /// files renamed into place: a successful reload installs the new
    /// scaler; a failed one leaves the engine unloaded rather than
    /// silently keeping in-memory state that no longer matches the disk.
    pub fn finish_swap(&mut self, reloaded: Option<ScalerParams>, model_path: String)
        requires
            match reloaded {
                Some(s) => s.wf(),
                None => true,
            },
        ensures
            final(self).spec_loaded() == reloaded is Some,
            match reloaded {
                Some(s) => final(self).spec_scaler() == s,
                None => final(self).spec_scaler() == old(self).spec_scaler(),
            },
            final(self).spec_model_path() == model_path@,
            final(self).spec_scaler_path() == old(self).spec_scaler_path(),
            final(self).spec_cache() == old(self).spec_cache(),
            old(self).wf() ==> final(self).wf(),
    {
        match reloaded {
            Some(scaler) => {
                self.loaded = true;
                self.scaler = scaler;
            },
            None => {
                self.loaded = false;
            },
        }
        self.model_path = model_path;
    }

    /// Finds the cache entry for `token`, if any: its index and expiry.
    fn cache_find(&self, token: &String) -> (r: Option<(usize, u64)>)
        ensures
            match r {
                Some((i, expires)) => {
                    &&& i < self.spec_cache().len()
                    &&& self.spec_cache()[i as int].0 == token@
                    &&& self.spec_cache()[i as int].1 == expires
                    &&& spec_cache_lookup(self.spec_cache(), token@) == Some(expires)
                },
                None => spec_cache_lookup(self.spec_cache(), token@) is None,
            },
    {
        let n = self.cache.len();
        proof {
            assert(self.spec_cache().skip(0) =~= self.spec_cache());
        }
        for i in 0..n
            invariant
                n == self.cache.len(),
                n == self.spec_cache().len(),
                spec_cache_lookup(self.spec_cache(), token@) == spec_cache_lookup(
                    self.spec_cache().skip(i as int),
                    token@,
                ),
        {
            proof {
                assert(self.spec_cache().skip(i as int).drop_first() =~= self.spec_cache().skip(
                    i + 1,
                ));
                assert(self.spec_cache().skip(i as int)[0] == self.spec_cache()[i as int]);
            }
            if self.cache[i].0 == *token {
                return Some((i, self.cache[i].1));
            }
        }
        proof {
            assert(self.spec_cache().skip(n as int) =~= Seq::<(Seq<char>, u64)>::empty());
        }
        None
    }

    /// Records positive user feedback: until `spec_expiry(now_ms,
    /// ttl_hours)`, the context feature of any inference for `token` is
    /// forced to its maximum. Idempotent; last write wins per token; no
    /// other token is affected.
    pub fn update_local_cache(&mut self, token: String, ttl_hours: u64, now_ms: u64)
        requires
            old(self).wf(),
        ensures
            final(self).wf(),
            spec_cache_lookup(final(self).spec_cache(), token@) == Some(
                spec_expiry(now_ms, ttl_hours),
            ),
            forall|k: Seq<char>|
                k != token@ ==> #[trigger] spec_cache_lookup(final(self).spec_cache(), k)
                    == spec_cache_lookup(old(self).spec_cache(), k),
            final(self).spec_loaded() == old(self).spec_loaded(),
            final(self).spec_scaler() == old(self).spec_scaler(),
            final(self).spec_model_path() == old(self).spec_model_path(),
            final(self).spec_scaler_path() == old(self).spec_scaler_path(),
    {
        let ttl_ms: u64 = if ttl_hours > u64::MAX / MS_PER_HOUR {
            u64::MAX
        } else {
            proof {
                assert(ttl_hours * MS_PER_HOUR <= u64::MAX) by (nonlinear_arith)
                    requires ttl_hours <= u64::MAX / (3_600_000 as u64)
                ;
            }
            ttl_hours * MS_PER_HOUR
        };
        let expires = now_ms.saturating_add(ttl_ms);
        proof {
            if ttl_hours > u64::MAX / MS_PER_HOUR {
                assert(ttl_hours * MS_PER_HOUR > u64::MAX) by (nonlinear_arith)
                    requires ttl_hours > u64::MAX / (3_600_000 as u64)
                ;
            }
            assert(expires == spec_expiry(now_ms, ttl_hours));
        }
        let found = self.cache_find(&token);
        match found {
            Some((i, _)) => {
                let ghost entries = self.spec_cache();
                self.cache[i] = (token, expires);
                proof {
                    assert(self.spec_cache() =~= entries.update(
                        i as int,
                        (token@, expires),
                    ));
                    assert forall|k: Seq<char>| true implies #[trigger] spec_cache_lookup(
                        self.spec_cache(),
                        k,
                    ) == if k == token@ {
                        Some(expires)
                    } else {
                        spec_cache_lookup(entries, k)
                    } by {
                        lemma_cache_lookup_update(entries, i as int, (token@, expires), k);
                    }
                    lemma_cache_lookup_update(entries, i as int, (token@, expires), token@);
                }
            },
            None => {
                let ghost entries = self.spec_cache();
                self.cache.push((token, expires));
                proof {
                    assert(self.spec_cache() =~= entries.push((token@, expires)));
                    assert forall|k: Seq<char>| true implies #[trigger] spec_cache_lookup(
                        self.spec_cache(),
                        k,
                    ) == if k == token@ {
                        Some(expires)
                    } else {
                        spec_cache_lookup(entries, k)
                    } by {
                        lemma_cache_lookup_push(entries, (token@, expires), k);
                    }
                    lemma_cache_lookup_push(entries, (token@, expires), token@);
                }
            },
        }
    }

    /// Standardizes the six features against the loaded scaler.
    fn standardize(&self, x: &[i64; 6]) -> (z: [i64; 6])
        requires
            self.wf(),
            forall|i: int| 0 <= i < 6 ==> -(MAX_NOW_MS as int) <= #[trigger] x@[i] <= MAX_NOW_MS,
        ensures
            z@.map_values(|v: i64| v as int) == spec_standardize(
                self.spec_scaler().spec_mean(),
                self.spec_scaler().spec_scale(),
                x@.map_values(|v: i64| v as int),
            ),
    {
        let mut z: [i64; 6] = [0, 0, 0, 0, 0, 0];
        for i in 0..6usize
            invariant
                self.wf(),
                forall|j: int| 0 <= j < 6 ==> -(MAX_NOW_MS as int) <= #[trigger] x@[j] <= MAX_NOW_MS,
                forall|j: int|
                    0 <= j < i ==> #[trigger] z@[j] as int == spec_standardize(
                        self.spec_scaler().spec_mean(),
                        self.spec_scaler().spec_scale(),
                        x@.map_values(|v: i64| v as int),
                    )[j],
        {
            proof {
                assert(-(MAX_NOW_MS as int) <= x@[i as int] <= MAX_NOW_MS);
                assert(self.spec_scaler().spec_mean()[i as int] == self.scaler.mean_milli@[
                    i as int
                ] as int);
                assert(-(MAX_NOW_MS as int) <= self.spec_scaler().spec_mean()[i as int]
                    <= MAX_NOW_MS);
                assert(self.spec_scaler().spec_scale()[i as int] == self.scaler.scale_milli@[
                    i as int
                ] as int);
                assert(1 <= self.spec_scaler().spec_scale()[i as int] <= MAX_NOW_MS);
            }
            let num = (x[i] - self.scaler.mean_milli[i]) * 1000;
            let q = div_trunc_i64(num, self.scaler.scale_milli[i]);
            z[i] = q;
            proof {
                assert(x@.map_values(|v: i64| v as int)[i as int] == x@[i as int] as int);
            }
        }
        proof {
            assert(z@.map_values(|v: i64| v as int) =~= spec_standardize(
                self.spec_scaler().spec_mean(),
                self.spec_scaler().spec_scale(),
                x@.map_values(|v: i64| v as int),
            ));
        }
        z
    }

    /// The feature vector after the feedback override: on a cache hit the
    /// context feature is forced to its maximum before scaling.
    pub open spec fn spec_override(v: FeatureVector, hit: bool) -> FeatureVector {
        if hit {
            FeatureVector { context_milli: 1000, ..v }
        } else {
            v
        }
    }

    /// The input half of an inference call: refuses when no model is
    /// loaded, applies the feedback override for `active_token`, prunes
    /// that token's entry when it has expired, and standardizes the
    /// vector. The host runs the model on the result and maps its score
    /// through [`classify_score`].
    pub fn prepare_input(&mut self, vector: &FeatureVector, active_token: Option<&String>, now_ms:
        u64) -> (r: Result<[i64; 6], InferError>)
        requires
            old(self).wf(),
            vector.wf(),
        ensures
            final(self).wf(),
            final(self).spec_loaded() == old(self).spec_loaded(),
            final(self).spec_scaler() == old(self).spec_scaler(),
            final(self).spec_model_path() == old(self).spec_model_path(),
            final(self).spec_scaler_path() == old(self).spec_scaler_path(),
            !old(self).spec_loaded() ==> r == Result::<[i64; 6], InferError>::Err(
                InferError::ModelUnloaded,
            ) && *final(self) == *old(self),
            old(self).spec_loaded() ==> match r {
                Ok(z) => z@.map_values(|v: i64| v as int) == spec_standardize(
                    old(self).spec_scaler().spec_mean(),
                    old(self).spec_scaler().spec_scale(),
                    Self::spec_override(
                        *vector,
                        match active_token {
                            Some(t) => spec_cache_hit(old(self).spec_cache(), t@, now_ms),
                            None => false,
                        },
                    ).spec_as_array(),
                ),
                Err(_) => false,
            },
            // The cache changes only by pruning the one expired entry that
            // was consulted.
            old(self).spec_loaded() ==> match active_token {
                Some(t) => {
                    if spec_cache_lookup(old(self).spec_cache(), t@) is Some && !spec_cache_hit(
                        old(self).spec_cache(),
                        t@,
                        now_ms,
                    ) {
                        &&& spec_cache_lookup(final(self).spec_cache(), t@) is None
                        &&& forall|k: Seq<char>|
                            k != t@ ==> #[trigger] spec_cache_lookup(final(self).spec_cache(), k)
                                == spec_cache_lookup(old(self).spec_cache(), k)
                    } else {
                        final(self).spec_cache() == old(self).spec_cache()
                    }
                },
                None => final(self).spec_cache() == old(self).spec_cache(),
            },
    {
        if !self.loaded {
            return Err(InferError::ModelUnloaded);
        }
        let mut hit = false;
        match active_token {
            Some(token) => {
                match self.cache_find(token) {
                    Some((i, expires)) => {
                        if now_ms < expires {
                            hit = true;
                        } else {
                            let ghost entries = self.spec_cache();
                            let _ = self.cache.remove(i);
                            proof {
                                assert(self.spec_cache() =~= entries.remove(i as int));
                                assert forall|k: Seq<char>| k != token@ implies #[trigger] spec_cache_lookup(
                                    self.spec_cache(),
                                    k,
                                ) == spec_cache_lookup(entries, k) by {
                                    lemma_cache_lookup_remove(entries, i as int, k);
                                }
                                lemma_cache_lookup_remove(entries, i as int, token@);
                            }
                        }
                    },
                    None => (),
                }
            },
            None => (),
        }
        let adjusted = if hit {
            FeatureVector { context_milli: 1000, ..*vector }
        } else {
            *vector
        };
        let x = adjusted.as_array();
        proof {
            assert(forall|i: int|
                0 <= i < 6 ==> -(MAX_NOW_MS as int) <= #[trigger] x@[i] <= MAX_NOW_MS);
        }
        Ok(self.standardize(&x))
    }
}

} // verus!
