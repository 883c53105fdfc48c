//! A queued install/update job, bound to one game and exclusively owning
//! one updater handle.

use vstd::prelude::*;
use crate::games::GameVariant;
use crate::progress::Progress;
use crate::status::{GenshinDiffStatus, UnifiedTaskStatus, spec_map_genshin_status, map_genshin_status};
use crate::error::{StatusQueryError, UnsupportedVariantError};

verus! {

/// Token standing for a live, exclusively owned updater: the stateful
/// resource that performs the actual download/install outside the core.
/// It is move-only — duplicating it would duplicate control over a single
/// I/O operation — and the id ties probe reports to the updater they came
/// from.
#[derive(Debug, PartialEq, Eq, Structural)]
pub struct UpdaterHandle {
    id: u64,
}

impl UpdaterHandle {
    pub closed spec fn spec_id(&self) -> u64 {
        self.id
    }

    /// Wrap the id under which the owner of the real updater registered it.
    pub fn new(id: u64) -> (r: Self)
        ensures
            r.spec_id() == id,
    {
        UpdaterHandle { id }
    }

    /// The id this handle was created with.
    pub fn id(&self) -> (r: u64)
        ensures
            r == self.spec_id(),
    {
        self.id
    }
}

/// One queued job. A task is tagged by its game variant for its whole
/// lifetime and exclusively owns its updater handle; `progress` is the
/// latest completion fraction observed for it.
#[derive(Debug)]
pub enum Task {
    DownloadGenshinDiff { updater: UpdaterHandle, progress: Progress },
}

impl Task {
    /// The game the task belongs to, fixed at creation.
    pub open spec fn spec_variant(&self) -> GameVariant {
        match self {
            Task::DownloadGenshinDiff { .. } => GameVariant::Genshin,
        }
    }

    /// Identity of the owned updater.
    pub open spec fn spec_updater_id(&self) -> u64 {
        match self {
            Task::DownloadGenshinDiff { updater, .. } => updater.spec_id(),
        }
    }

    /// The latest observed completion fraction.
    pub open spec fn spec_progress(&self) -> int {
        match self {
            Task::DownloadGenshinDiff { progress, .. } => progress@,
        }
    }

    /// Create the download task for a game variant, handing it ownership of
    /// the updater handle. Succeeds exactly for the variants with a
    /// registered updater factory; for any other variant the handle is
    /// returned unused inside the typed error.
    pub fn new(variant: GameVariant, updater: UpdaterHandle) -> (r: Result<Task, UnsupportedVariantError>)
        ensures
            variant.spec_is_supported() <==> r is Ok,
            (r matches Ok(t) ==> {
                &&& t.spec_variant() == variant
                &&& t.spec_updater_id() == updater.spec_id()
                &&& t.spec_progress() == 0
            }),
            (r matches Err(e) ==> e.variant == variant && e.updater.spec_id() == updater.spec_id()),
    {
        match variant {
            GameVariant::Genshin => Ok(Task::DownloadGenshinDiff {
                updater,
                progress: Progress::zero(),
            }),
            _ => Err(UnsupportedVariantError { variant, updater }),
        }
    }

    /// Identity of the owned updater; the owner of the real
    /// updaters uses it to probe the right one.
    pub fn get_updater_id(&self) -> (r: u64)
        ensures
            r == self.spec_updater_id(),
    {
        match self {
            Task::DownloadGenshinDiff { updater, .. } => updater.id(),
        }
    }

    /// The game variant the task was created for.
    pub fn get_variant(&self) -> (r: GameVariant)
        ensures
            r == self.spec_variant(),
    {
        match self {
            Task::DownloadGenshinDiff { .. } => GameVariant::Genshin,
        }
    }

    /// Task completion progress, as last observed; the returned fraction
    /// always lies within [0, 1].
    pub fn get_progress(&self) -> (r: Progress)
        ensures
            r@ == self.spec_progress(),
            0 <= r@ <= crate::progress::PROGRESS_SCALE,
    {
        match self {
            Task::DownloadGenshinDiff { progress, .. } => {
                proof {
                    use_type_invariant(progress);
                }
                *progress
            },
        }
    }

    /// Record the completion fraction a probe of the owned updater
    /// reported. Nothing else about the task changes.
    pub fn record_progress(&mut self, progress: Progress)
        ensures
            final(self).spec_progress() == progress@,
            final(self).spec_variant() == old(self).spec_variant(),
            final(self).spec_updater_id() == old(self).spec_updater_id(),
    {
        match self {
            Task::DownloadGenshinDiff { progress: p, .. } => {
                *p = progress;
            },
        }
    }

    /// Translate the probed native status of the owned updater into the
    /// unified vocabulary. A fault reported by the updater becomes a
    /// `StatusQueryError` carrying the updater's message verbatim.
    pub fn get_unified_status(&self, status: Result<GenshinDiffStatus, String>) -> (r: Result<
        UnifiedTaskStatus,
        StatusQueryError,
    >)
        ensures
            (match status {
                Ok(native) => r matches Ok(u) && u == spec_map_genshin_status(native),
                Err(message) => r matches Err(e) && e.message@ == message@,
            }),
    {
        match self {
            Task::DownloadGenshinDiff { .. } => {
                match status {
                    Ok(native) => Ok(map_genshin_status(native)),
                    Err(message) => Err(StatusQueryError { message }),
                }
            },
        }
    }
}

} // verus!
