//! Raw activity signals as the sensing collaborators hand them over: the
//! shared input counters, the active-window sample, and the session record,
//! together with the small verified updates and queries the pipeline makes
//! on them.

use vstd::prelude::*;

verus! {

/// How long after the last mouse move the mouse still counts as active,
/// in milliseconds.
pub const MOUSE_ACTIVE_WINDOW_MS: u64 = 5000;

/// How long after the last meaningful input (key, click, wheel) the user
/// still counts as actively typing, in milliseconds.
pub const RECENT_INPUT_WINDOW_MS: u64 = 5000;

/// Cumulative input-activity counters, written by the input-hook
/// collaborator on every event and only read by this crate.
#[derive(Debug, Clone)]
pub struct InputStats {
    /// Count of meaningful events only: keys, clicks and wheel turns.
    pub meaningful_input_events: u64,
    /// Timestamp of the last meaningful event, in Unix milliseconds;
    /// zero when none has occurred yet.
    pub last_meaningful_input_timestamp_ms: u64,
    /// Timestamp of the last mouse move, in Unix milliseconds; zero when
    /// none has occurred yet.
    pub last_mouse_move_timestamp_ms: u64,
    /// When monitoring began, in Unix milliseconds.
    pub start_monitoring_timestamp_ms: u64,
}

impl InputStats {
    /// Fresh counters: nothing observed yet.
    pub fn new(start_monitoring_timestamp_ms: u64) -> (r: InputStats)
        ensures
            r.meaningful_input_events == 0,
            r.last_meaningful_input_timestamp_ms == 0,
            r.last_mouse_move_timestamp_ms == 0,
            r.start_monitoring_timestamp_ms == start_monitoring_timestamp_ms,
    {
        InputStats {
            meaningful_input_events: 0,
            last_meaningful_input_timestamp_ms: 0,
            last_mouse_move_timestamp_ms: 0,
            start_monitoring_timestamp_ms,
        }
    }
}

/// Records one meaningful input event (key, click or wheel) at `now_ms`:
/// the count rises by one and the meaningful-input timestamp is stamped.
/// The count saturates rather than wraps once it reaches its maximum.
pub fn update_meaningful_stats(stats: &mut InputStats, now_ms: u64)
    ensures
        final(stats).meaningful_input_events == if old(stats).meaningful_input_events
            == u64::MAX { u64::MAX as int } else { old(stats).meaningful_input_events + 1 },
        final(stats).last_meaningful_input_timestamp_ms == now_ms,
        final(stats).last_mouse_move_timestamp_ms == old(stats).last_mouse_move_timestamp_ms,
        final(stats).start_monitoring_timestamp_ms == old(stats).start_monitoring_timestamp_ms,
{
    stats.meaningful_input_events = stats.meaningful_input_events.saturating_add(1);
    stats.last_meaningful_input_timestamp_ms = now_ms;
}

/// Records a mouse move at `now_ms`: only the mouse-move timestamp changes.
pub fn update_mouse_move_stats(stats: &mut InputStats, now_ms: u64)
    ensures
        final(stats).last_mouse_move_timestamp_ms == now_ms,
        final(stats).meaningful_input_events == old(stats).meaningful_input_events,
        final(stats).last_meaningful_input_timestamp_ms == old(
            stats,
        ).last_meaningful_input_timestamp_ms,
        final(stats).start_monitoring_timestamp_ms == old(stats).start_monitoring_timestamp_ms,
{
    stats.last_mouse_move_timestamp_ms = now_ms;
}

/// The mouse counts as active when a move has ever been seen and the last
/// one lies within [`MOUSE_ACTIVE_WINDOW_MS`] of `now_ms`.
pub open spec fn spec_mouse_recently_active(stats: InputStats, now_ms: u64) -> bool {
    &&& stats.last_mouse_move_timestamp_ms > 0
    &&& now_ms - stats.last_mouse_move_timestamp_ms <= MOUSE_ACTIVE_WINDOW_MS
}

/// Whether the mouse moved within the last [`MOUSE_ACTIVE_WINDOW_MS`]
/// milliseconds. A timestamp ahead of `now_ms` (the hook thread may race
/// the sampling read) counts as active.
pub fn mouse_recently_active(stats: &InputStats, now_ms: u64) -> (r: bool)
    ensures
        r == (stats.last_mouse_move_timestamp_ms > 0 && (
        stats.last_mouse_move_timestamp_ms > now_ms || spec_mouse_recently_active(
            *stats,
            now_ms,
        ))),
{
    stats.last_mouse_move_timestamp_ms > 0 && now_ms.saturating_sub(
        stats.last_mouse_move_timestamp_ms,
    ) <= MOUSE_ACTIVE_WINDOW_MS
}

/// Meaningful input counts as recent when one has ever been seen and the
/// last lies within [`RECENT_INPUT_WINDOW_MS`] of `now_ms`.
pub open spec fn spec_input_recently_active(stats: InputStats, now_ms: u64) -> bool {
    &&& stats.last_meaningful_input_timestamp_ms > 0
    &&& now_ms - stats.last_meaningful_input_timestamp_ms <= RECENT_INPUT_WINDOW_MS
}

/// Whether a key, click or wheel event happened within the last
/// [`RECENT_INPUT_WINDOW_MS`] milliseconds, with the same forward-racing
/// allowance as [`mouse_recently_active`].
pub fn input_recently_active(stats: &InputStats, now_ms: u64) -> (r: bool)
    ensures
        r == (stats.last_meaningful_input_timestamp_ms > 0 && (
        stats.last_meaningful_input_timestamp_ms > now_ms || spec_input_recently_active(
            *stats,
            now_ms,
        ))),
{
    stats.last_meaningful_input_timestamp_ms > 0 && now_ms.saturating_sub(
        stats.last_meaningful_input_timestamp_ms,
    ) <= RECENT_INPUT_WINDOW_MS
}

/// What the window-sensing collaborator reports about the active window,
/// reduced to the fields the pipeline actually reads.
#[derive(Debug, Clone)]
pub struct WindowSample {
    /// Application name, such as an executable name.
    pub app_name: String,
    /// Window title.
    pub title: String,
}

impl WindowSample {
    pub fn new(app_name: String, title: String) -> (r: WindowSample)
        ensures
            r.app_name@ == app_name@,
            r.title@ == title@,
    {
        WindowSample { app_name, title }
    }
}

/// The monitoring session currently underway, as the session-manager
/// collaborator persists it.
#[derive(Debug, Clone)]
pub struct ActiveSessionInfo {
    pub session_id: String,
    pub task_id: Option<String>,
    /// Session start, in Unix seconds.
    pub start_time_s: u64,
}

impl ActiveSessionInfo {
    /// Seconds the session has been running at `now_s`; zero when the
    /// clock reads earlier than the recorded start.
    pub fn elapsed_seconds(&self, now_s: u64) -> (r: u64)
        ensures
            r == if now_s >= self.start_time_s {
                now_s - self.start_time_s
            } else {
                0
            },
    {
        now_s.saturating_sub(self.start_time_s)
    }
}

/// One running process, as the process-enumeration collaborator reports it.
#[derive(Debug, Clone)]
pub struct ProcessSummary {
    pub name: String,
    /// Process start, in Unix seconds.
    pub start_time_unix_s: u64,
}

} // verus!
