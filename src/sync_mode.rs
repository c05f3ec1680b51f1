//! The transient sync status and how events move it.
use vstd::prelude::*;

verus! {

/// Where synchronisation with the remote document stands. Never stored:
/// every start begins at `NotSynced`.
#[derive(Clone, Copy, Debug, PartialEq, Eq, Structural)]
pub enum SyncMode {
    NotSynced,
    Pushing,
    Pulling,
    InSync,
    Failed,
}

/// What happens to the sync status.
#[derive(Clone, Copy, Debug, PartialEq, Eq, Structural)]
pub enum SyncEvent {
    /// A push was started.
    PushStarted,
    /// A pull was started.
    PullStarted,
    /// The operation in flight succeeded.
    Succeeded,
    /// A push failed.
    PushFailed,
    /// A pull failed.
    PullFailed,
    /// The token, document id or file name became missing or empty.
    ConfigIncomplete,
}

/// The status after `event`.
pub open spec fn next_mode(mode: SyncMode, event: SyncEvent) -> SyncMode {
    match event {
        SyncEvent::PushStarted => SyncMode::Pushing,
        SyncEvent::PullStarted => SyncMode::Pulling,
        SyncEvent::Succeeded => SyncMode::InSync,
        SyncEvent::PushFailed => SyncMode::NotSynced,
        SyncEvent::PullFailed => SyncMode::Failed,
        SyncEvent::ConfigIncomplete => SyncMode::NotSynced,
    }
}

impl SyncMode {
    /// An operation is in flight.
    pub open spec fn spec_busy(self) -> bool {
        self == SyncMode::Pushing || self == SyncMode::Pulling
    }

    /// The status after `event`.
    pub fn next(self, event: SyncEvent) -> (r: SyncMode)
        ensures
            r == next_mode(self, event),
    {
        match event {
            SyncEvent::PushStarted => SyncMode::Pushing,
            SyncEvent::PullStarted => SyncMode::Pulling,
            SyncEvent::Succeeded => SyncMode::InSync,
            SyncEvent::PushFailed => SyncMode::NotSynced,
            SyncEvent::PullFailed => SyncMode::Failed,
            SyncEvent::ConfigIncomplete => SyncMode::NotSynced,
        }
    }

    /// An operation is in flight, so actions that would start another one
    /// are held back.
    pub fn is_busy(&self) -> (r: bool)
        ensures
            r == self.spec_busy(),
    {
        *self == SyncMode::Pushing || *self == SyncMode::Pulling
    }
}

} // verus!
