//! The keyword-rule deviation engine: scores how far the current activity
//! strays from work by matching the active window against a fixed list of
//! distraction keywords, weighting sustained inactivity, and firing each
//! intervention level once per drift episode.

use vstd::prelude::*;
use crate::sample::{InputStats, WindowSample};
use crate::text::{contains_sub, spec_contains_sub, spec_lower, to_chars, to_lower};

verus! {

/// Deviation score at which a notification fires.
pub const THRESHOLD_NOTIFICATION: u16 = 10;

/// Deviation score at which the screen overlay fires.
pub const THRESHOLD_OVERLAY: u16 = 20;

/// The deviation score never rises above this cap.
pub const MAX_DEVIATION_SCORE: u16 = 100;

/// Score added whenever a distraction keyword matches.
pub const SCORE_DISTRACTION_APP: u16 = 5;

/// Extra score once no input arrived for [`INACTIVITY_THRESHOLD_MILD_S`].
pub const SCORE_INACTIVITY_MILD: u16 = 3;

/// Extra score once no input arrived for [`INACTIVITY_THRESHOLD_SEVERE_S`].
pub const SCORE_INACTIVITY_SEVERE: u16 = 10;

/// Three minutes without input counts as mild inactivity.
pub const INACTIVITY_THRESHOLD_MILD_S: u64 = 180;

/// Ten minutes without input counts as severe inactivity.
pub const INACTIVITY_THRESHOLD_SEVERE_S: u64 = 600;

/// The intervention command the engine hands to the window and
/// notification collaborators.
#[derive(Debug, Clone, Copy, PartialEq, Eq, Structural)]
pub enum InterventionTrigger {
    /// Stay silent.
    DoNothing,
    /// Fire a light notification.
    TriggerNotification,
    /// Put up the blocking overlay.
    TriggerOverlay,
}

/// The substrings of a lowercased window title or application name that
/// mark the window as a distraction.
pub open spec fn spec_distraction_keywords() -> Seq<Seq<char>> {
    seq!["youtube"@, "netflix"@, "facebook"@, "discord"@, "steam.exe"@, "slack"@]
}

/// Whether some distraction keyword occurs in the lowercased title or the
/// lowercased application name.
pub open spec fn spec_is_distraction(title: Seq<char>, app_name: Seq<char>) -> bool {
    exists|i: int|
        0 <= i < spec_distraction_keywords().len() && (spec_contains_sub(
            spec_lower(title),
            #[trigger] spec_distraction_keywords()[i],
        ) || spec_contains_sub(spec_lower(app_name), spec_distraction_keywords()[i]))
}

/// Seconds without meaningful input at `now_s`, given the last input
/// timestamp in milliseconds; a clock reading behind the last input counts
/// as zero.
pub open spec fn spec_inactivity_s(now_s: u64, last_input_ms: u64) -> int {
    let last_s = last_input_ms / 1000;
    if now_s >= last_s {
        now_s - last_s
    } else {
        0
    }
}

/// Score a distraction tick adds: the base keyword score plus one
/// inactivity weight.
pub open spec fn spec_score_to_add(inactivity_s: int) -> int {
    SCORE_DISTRACTION_APP + if inactivity_s >= INACTIVITY_THRESHOLD_SEVERE_S {
        SCORE_INACTIVITY_SEVERE as int
    } else if inactivity_s >= INACTIVITY_THRESHOLD_MILD_S {
        SCORE_INACTIVITY_MILD as int
    } else {
        0int
    }
}

/// Tracks the cumulative deviation score of one monitoring session and
/// which intervention levels already fired during the current episode.
#[derive(Debug, Clone, PartialEq, Eq, Structural)]
pub struct StateEngine {
    /// Accumulated deviation score, capped at [`MAX_DEVIATION_SCORE`].
    pub deviation_score: u16,
    /// Whether the notification already fired this episode.
    pub notification_sent: bool,
    /// Whether the overlay already fired this episode.
    pub overlay_sent: bool,
}

/// One engine step: the full state-and-output transition for a tick that
/// saw `distraction` and `inactivity_s` seconds of input silence.
pub open spec fn spec_process(e: StateEngine, distraction: bool, inactivity_s: int) -> (
    StateEngine,
    InterventionTrigger,
) {
    if distraction {
        let raw = e.deviation_score + spec_score_to_add(inactivity_s);
        let ns = if raw > MAX_DEVIATION_SCORE {
            MAX_DEVIATION_SCORE as int
        } else {
            raw
        };
        if ns >= THRESHOLD_OVERLAY && !e.overlay_sent {
            (
                StateEngine {
                    deviation_score: ns as u16,
                    notification_sent: e.notification_sent,
                    overlay_sent: true,
                },
                InterventionTrigger::TriggerOverlay,
            )
        } else if ns < THRESHOLD_OVERLAY && ns >= THRESHOLD_NOTIFICATION && !e.notification_sent {
            (
                StateEngine {
                    deviation_score: ns as u16,
                    notification_sent: true,
                    overlay_sent: e.overlay_sent,
                },
                InterventionTrigger::TriggerNotification,
            )
        } else {
            (
                StateEngine {
                    deviation_score: ns as u16,
                    notification_sent: e.notification_sent,
                    overlay_sent: e.overlay_sent,
                },
                InterventionTrigger::DoNothing,
            )
        }
    } else {
        (
            StateEngine {
                deviation_score: if e.deviation_score >= 1 {
                    (e.deviation_score - 1) as u16
                } else {
                    0u16
                },
                notification_sent: false,
                overlay_sent: false,
            },
            InterventionTrigger::DoNothing,
        )
    }
}

/// Whether some distraction keyword occurs in the lowercased title or
/// application name.
pub fn is_distraction(title: &Vec<char>, app_name: &Vec<char>) -> (r: bool)
    ensures
        r == spec_is_distraction(title@, app_name@),
{
    let title_lower = to_lower(title);
    let app_lower = to_lower(app_name);
    let mut kws: Vec<Vec<char>> = Vec::new();
    kws.push(to_chars("youtube"));
    kws.push(to_chars("netflix"));
    kws.push(to_chars("facebook"));
    kws.push(to_chars("discord"));
    kws.push(to_chars("steam.exe"));
    kws.push(to_chars("slack"));
    proof {
        assert(crate::text::views_of(kws@) =~= spec_distraction_keywords());
    }
    let n = kws.len();
    for i in 0..n
        invariant
            n == kws.len(),
            crate::text::views_of(kws@) == spec_distraction_keywords(),
            title_lower@ == spec_lower(title@),
            app_lower@ == spec_lower(app_name@),
            forall|j: int|
                0 <= j < i ==> !spec_contains_sub(
                    spec_lower(title@),
                    #[trigger] spec_distraction_keywords()[j],
                ) && !spec_contains_sub(spec_lower(app_name@), spec_distraction_keywords()[j]),
    {
        proof {
            assert(crate::text::views_of(kws@)[i as int] == kws@[i as int]@);
        }
        if contains_sub(&title_lower, &kws[i]) || contains_sub(&app_lower, &kws[i]) {
            return true;
        }
    }
    false
}

impl StateEngine {
    /// The score never exceeds its cap.
    pub open spec fn wf(&self) -> bool {
        self.deviation_score <= MAX_DEVIATION_SCORE
    }

    /// A fresh engine for a new session: zero score, nothing fired.
    pub fn new() -> (r: StateEngine)
        ensures
            r.deviation_score == 0,
            !r.notification_sent,
            !r.overlay_sent,
            r.wf(),
    {
        StateEngine { deviation_score: 0, notification_sent: false, overlay_sent: false }
    }

    /// The current deviation score, for display.
    pub fn get_current_score(&self) -> (r: u16)
        ensures
            r == self.deviation_score,
    {
        self.deviation_score
    }

    /// Processes one activity observation at `now_s`: raises the score and
    /// fires at most one intervention while a distraction keyword matches,
    /// drains the score and rearms both intervention levels while none
    /// does. The step is exactly [`spec_process`].
    pub fn process_activity(&mut self, window_info: &WindowSample, input_stats: &InputStats, now_s:
        u64) -> (r: InterventionTrigger)
        requires
            old(self).wf(),
        ensures
            final(self).wf(),
            (*final(self), r) == spec_process(
                *old(self),
                spec_is_distraction(window_info.title@, window_info.app_name@),
                spec_inactivity_s(now_s, input_stats.last_meaningful_input_timestamp_ms),
            ),
    {
        let title = to_chars(window_info.title.as_str());
        let app_name = to_chars(window_info.app_name.as_str());
        let distraction = is_distraction(&title, &app_name);

        if distraction {
            let mut score_to_add: u16 = SCORE_DISTRACTION_APP;

            let last_input_s = input_stats.last_meaningful_input_timestamp_ms / 1000;
            let inactivity_duration_s = now_s.saturating_sub(last_input_s);

            if inactivity_duration_s >= INACTIVITY_THRESHOLD_SEVERE_S {
                score_to_add = score_to_add + SCORE_INACTIVITY_SEVERE;
            } else if inactivity_duration_s >= INACTIVITY_THRESHOLD_MILD_S {
                score_to_add = score_to_add + SCORE_INACTIVITY_MILD;
            }

            let raw = self.deviation_score + score_to_add;
            self.deviation_score = if raw > MAX_DEVIATION_SCORE {
                MAX_DEVIATION_SCORE
            } else {
                raw
            };

            if self.deviation_score >= THRESHOLD_OVERLAY {
                if !self.overlay_sent {
                    self.overlay_sent = true;
                    return InterventionTrigger::TriggerOverlay;
                }
            } else if self.deviation_score >= THRESHOLD_NOTIFICATION {
                if !self.notification_sent {
                    self.notification_sent = true;
                    return InterventionTrigger::TriggerNotification;
                }
            }
            InterventionTrigger::DoNothing
        } else {
            self.deviation_score = if self.deviation_score >= 1 {
                self.deviation_score - 1
            } else {
                0
            };
            self.notification_sent = false;
            self.overlay_sent = false;
            InterventionTrigger::DoNothing
        }
    }
}

} // verus!
