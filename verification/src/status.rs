//! Per-game native statuses, the shared phase vocabulary, and the unified
//! status mapper: a total, pure translation per supported game.

use vstd::prelude::*;

verus! {

/// Phases reported by the Genshin diff updater, in its own vocabulary.
#[derive(Debug, Clone, Copy, PartialEq, Eq, Structural)]
pub enum GenshinDiffStatus {
    PreparingTransition,
    Downloading,
    Unpacking,
    FinishingTransition,
    ApplyingHdiffPatches,
    DeletingObsoleteFiles,
}

/// All the possible tasks statuses in one enum.
#[derive(Debug, Clone, Copy, PartialEq, Eq, Structural)]
pub enum UnifiedTaskStatus {
    PreparingTransition,
    Downloading,
    Unpacking,
    FinishingTransition,
    ApplyingHdiffPatches,
    DeletingObsoleteFiles,
}

/// The unified phase a Genshin native status translates to.
pub open spec fn spec_map_genshin_status(status: GenshinDiffStatus) -> UnifiedTaskStatus {
    match status {
        GenshinDiffStatus::PreparingTransition => UnifiedTaskStatus::PreparingTransition,
        GenshinDiffStatus::Downloading => UnifiedTaskStatus::Downloading,
        GenshinDiffStatus::Unpacking => UnifiedTaskStatus::Unpacking,
        GenshinDiffStatus::FinishingTransition => UnifiedTaskStatus::FinishingTransition,
        GenshinDiffStatus::ApplyingHdiffPatches => UnifiedTaskStatus::ApplyingHdiffPatches,
        GenshinDiffStatus::DeletingObsoleteFiles => UnifiedTaskStatus::DeletingObsoleteFiles,
    }
}

/// Total, pure mapping of a Genshin native status to the shared vocabulary.
/// Adding support for a new game means adding one such mapping function.
pub fn map_genshin_status(status: GenshinDiffStatus) -> (r: UnifiedTaskStatus)
    ensures
        r == spec_map_genshin_status(status),
{
    match status {
        GenshinDiffStatus::PreparingTransition => UnifiedTaskStatus::PreparingTransition,
        GenshinDiffStatus::Downloading => UnifiedTaskStatus::Downloading,
        GenshinDiffStatus::Unpacking => UnifiedTaskStatus::Unpacking,
        GenshinDiffStatus::FinishingTransition => UnifiedTaskStatus::FinishingTransition,
        GenshinDiffStatus::ApplyingHdiffPatches => UnifiedTaskStatus::ApplyingHdiffPatches,
        GenshinDiffStatus::DeletingObsoleteFiles => UnifiedTaskStatus::DeletingObsoleteFiles,
    }
}

/// The display summary the queue shows for a unified status.
pub open spec fn spec_status_title(status: UnifiedTaskStatus) -> Seq<char> {
    match status {
        UnifiedTaskStatus::PreparingTransition => "Preparing transition..."@,
        UnifiedTaskStatus::Downloading => "Downloading..."@,
        UnifiedTaskStatus::Unpacking => "Unpacking..."@,
        UnifiedTaskStatus::FinishingTransition => "Finishing transition..."@,
        UnifiedTaskStatus::ApplyingHdiffPatches => "Applying hdiff patches..."@,
        UnifiedTaskStatus::DeletingObsoleteFiles => "Deleting obsolete files..."@,
    }
}

/// Human-readable summary for a unified status, shown under the active task.
pub fn status_title(status: UnifiedTaskStatus) -> (r: String)
    ensures
        r@ == spec_status_title(status),
{
    match status {
        UnifiedTaskStatus::PreparingTransition => String::from_str("Preparing transition..."),
        UnifiedTaskStatus::Downloading => String::from_str("Downloading..."),
        UnifiedTaskStatus::Unpacking => String::from_str("Unpacking..."),
        UnifiedTaskStatus::FinishingTransition => String::from_str("Finishing transition..."),
        UnifiedTaskStatus::ApplyingHdiffPatches => String::from_str("Applying hdiff patches..."),
        UnifiedTaskStatus::DeletingObsoleteFiles => String::from_str("Deleting obsolete files..."),
    }
}

} // verus!
