use vstd::prelude::*;

verus! {

/// File-system events on the shader file that arrive within this many
/// milliseconds of each other count as one change.
pub const DEBOUNCE_MS: u64 = 2000;

/// After a change, wait this many milliseconds before reading the file, so
/// that it is not read half-written.
pub const SETTLE_MS: u64 = 100;

/// What the debounced file watch reports.
#[derive(Clone, Copy, Debug, PartialEq, Eq, Structural)]
pub enum FileEvent {
    /// A write or removal has begun; its debounced event follows.
    Notice,
    /// The contents may have changed: written, created, renamed onto, or
    /// events were lost and the file must be looked at again.
    Modified,
    /// The file is gone (an editor may write it anew).
    Removed,
    /// Only its permissions or times changed.
    AttributesChanged,
    /// The watch itself reported an error.
    Failed,
    /// The watch has stopped delivering events.
    Closed,
}

/// What the watcher does with an event.
#[derive(Clone, Copy, Debug, PartialEq, Eq, Structural)]
pub enum WatchAction {
    /// Nothing: wait for the next event.
    Wait,
    /// Wait `settle_ms`, read the whole file and send its text for reloading;
    /// a failed read is reported and the watch goes on.
    Reload { settle_ms: u64 },
    /// Report the error and go on watching.
    Report,
    /// Stop watching.
    Finish,
}

pub open spec fn action_for(e: FileEvent) -> WatchAction {
    match e {
        FileEvent::Modified => WatchAction::Reload { settle_ms: SETTLE_MS },
        FileEvent::Failed => WatchAction::Report,
        FileEvent::Closed => WatchAction::Finish,
        _ => WatchAction::Wait,
    }
}

/// Decides what the watcher does with one event: only a change of the
/// contents leads to a reload, errors never end the watch, and the watch
/// ends only once no more events can come.
pub fn on_file_event(e: FileEvent) -> (r: WatchAction)
    ensures
        r == action_for(e),
{
    match e {
        FileEvent::Modified => WatchAction::Reload { settle_ms: SETTLE_MS },
        FileEvent::Failed => WatchAction::Report,
        FileEvent::Closed => WatchAction::Finish,
        FileEvent::Notice | FileEvent::Removed | FileEvent::AttributesChanged => WatchAction::Wait,
    }
}

} // verus!
