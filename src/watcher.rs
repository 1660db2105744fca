use vstd::prelude::*;

use crate::config::{reload, reloaded, LoadOutcome, SettingsConfig};
use crate::settings::{change_signals, changes_view, snapshot_changes, SettingChange};

verus! {

/// What the file-change notification stream delivered.
#[derive(Clone, Copy, Debug, PartialEq, Eq, Structural)]
pub enum WatchEvent {
    /// A change was observed somewhere under the watched directory.
    Changed,
    /// The watcher reported an error for one notification.
    Failed,
    /// The notification stream ended.
    Closed,
}

/// What the watch loop does next.
#[derive(Clone, Copy, Debug, PartialEq, Eq, Structural)]
pub enum WatchStep {
    /// Reload the settings and broadcast them.
    Reload,
    /// Note the error and wait for the next notification.
    Skip,
    /// Leave the loop for good.
    Stop,
}

pub open spec fn step_for(event: WatchEvent) -> WatchStep {
    match event {
        WatchEvent::Changed => WatchStep::Reload,
        WatchEvent::Failed => WatchStep::Skip,
        WatchEvent::Closed => WatchStep::Stop,
    }
}

/// Every change, whatever its path or kind, triggers a full reload; a
/// reported error is skipped; the end of the stream stops the loop.
pub fn next_step(event: WatchEvent) -> (r: WatchStep)
    ensures
        r == step_for(event),
{
    match event {
        WatchEvent::Changed => WatchStep::Reload,
        WatchEvent::Failed => WatchStep::Skip,
        WatchEvent::Closed => WatchStep::Stop,
    }
}

/// One reload: the next snapshot, and the two notifications to broadcast
/// for it, scheme first, accent color second, carrying the new values.
pub fn apply_reload(current: SettingsConfig, outcome: &LoadOutcome) -> (r: (SettingsConfig, Vec<SettingChange>))
    ensures
        r.0@ == reloaded(current@, *outcome),
        changes_view(r.1@) == snapshot_changes(r.0@),
{
    let next = reload(current, outcome);
    let signals = change_signals(&next);
    (next, signals)
}

} // verus!
