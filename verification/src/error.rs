//! Typed errors of the task-queue subsystem.

use vstd::prelude::*;
use crate::games::GameVariant;
use crate::task::UpdaterHandle;

verus! {

/// A single task's status probe failed (network, disk, corruption).
/// Local to that task: it is reported once per occurrence and never stops
/// the queue or other tasks. The message comes verbatim from the updater.
#[derive(Debug)]
pub struct StatusQueryError {
    pub message: String,
}

/// A task was requested for a game variant with no registered updater
/// factory. Recoverable: the exclusively owned updater handle is returned
/// to the caller unused.
#[derive(Debug)]
pub struct UnsupportedVariantError {
    pub variant: GameVariant,
    pub updater: UpdaterHandle,
}

/// The periodic refresh trigger failed to start. Fatal: without it the queue
/// can never progress, so subsystem initialization must fail loudly.
#[derive(Debug)]
pub struct PollerInitError {
    pub message: String,
}

} // verus!
