//! The progress record of an import: its stages, which one is under way,
//! and how the job ends. The weighted progress percentages are kept by the
//! caller beside this record.
use vstd::prelude::*;
use crate::ids::Uuid;
use crate::time::{UtcDateTime, utc_now};

verus! {

/// The stages of an import, in the order they run.
#[derive(Clone, Copy, Debug, PartialEq, Eq, Structural)]
pub enum ImportStage {
    Fetching,
    Processing,
    TfIdfAnalysis,
    KMeansClustering,
    Optimization,
    Saving,
}

/// Where a stage stands.
#[derive(Clone, Debug, PartialEq)]
pub enum StageStatus {
    Pending,
    InProgress,
    Completed,
    Failed(String),
}

/// Where the whole import stands.
#[derive(Clone, Copy, Debug, PartialEq, Eq, Structural)]
pub enum ImportStatus {
    Starting,
    InProgress,
    Completed,
    Failed,
    Cancelled,
}

/// One stage of an import.
#[derive(Clone, Debug, PartialEq)]
pub struct ImportStageInfo {
    pub stage: ImportStage,
    pub name: String,
    pub description: String,
    pub status: StageStatus,
    pub duration_ms: Option<u64>,
}

/// An import under way.
#[derive(Clone, Debug, PartialEq)]
pub struct ImportJob {
    pub id: Uuid,
    pub status: ImportStatus,
    pub message: String,
    pub created_at: UtcDateTime,
    pub current_stage: ImportStage,
    pub stages: Vec<ImportStageInfo>,
    pub can_cancel: bool,
}

/// The stages a new import goes through: kind, name and description.
pub open spec fn stage_plan() -> Seq<(ImportStage, Seq<char>, Seq<char>)> {
    seq![
        (
            ImportStage::Fetching,
            "Fetching Data"@,
            "Downloading playlist information and video metadata"@,
        ),
        (
            ImportStage::Processing,
            "Processing Content"@,
            "Analyzing video titles and extracting content features"@,
        ),
        (
            ImportStage::TfIdfAnalysis,
            "TF-IDF Analysis"@,
            "Computing term frequency and semantic similarity scores"@,
        ),
        (
            ImportStage::KMeansClustering,
            "K-Means Clustering"@,
            "Grouping videos into coherent learning modules"@,
        ),
        (
            ImportStage::Optimization,
            "Structure Optimization"@,
            "Refining module boundaries and optimizing learning flow"@,
        ),
        (
            ImportStage::Saving,
            "Saving Course"@,
            "Persisting course structure and metadata to database"@,
        ),
    ]
}

/// Whether `k` is the first stage of the list of the given kind.
pub open spec fn first_of_kind(s: Seq<ImportStageInfo>, stage: ImportStage, k: int) -> bool {
    &&& 0 <= k < s.len()
    &&& s[k].stage == stage
    &&& forall|j: int| 0 <= j < k ==> #[trigger] s[j].stage != stage
}

/// Whether `k` is the first stage under way.
pub open spec fn first_in_progress(s: Seq<ImportStageInfo>, k: int) -> bool {
    &&& 0 <= k < s.len()
    &&& s[k].status is InProgress
    &&& forall|j: int| 0 <= j < k ==> !(#[trigger] s[j].status is InProgress)
}

/// Whether `k` is the first stage not yet started.
pub open spec fn first_pending(s: Seq<ImportStageInfo>, k: int) -> bool {
    &&& 0 <= k < s.len()
    &&& s[k].status is Pending
    &&& forall|j: int| 0 <= j < k ==> !(#[trigger] s[j].status is Pending)
}

/// The stage shown as current once the stages are looked at again: the
/// first under way, else the first not started, else the one shown before.
pub open spec fn refreshed_stage(s: Seq<ImportStageInfo>, before: ImportStage, r: ImportStage) -> bool {
    if exists|k: int| 0 <= k < s.len() && #[trigger] s[k].status is InProgress {
        exists|k: int| first_in_progress(s, k) && r == s[k].stage
    } else if exists|k: int| 0 <= k < s.len() && #[trigger] s[k].status is Pending {
        exists|k: int| first_pending(s, k) && r == s[k].stage
    } else {
        r == before
    }
}

/// The stages after the first of a kind got a new status (and, where
/// given, a duration); the list is unchanged where there is no stage of
/// that kind.
pub open spec fn stages_with_status(
    old_s: Seq<ImportStageInfo>,
    new_s: Seq<ImportStageInfo>,
    stage: ImportStage,
    status: StageStatus,
    duration: Option<Option<u64>>,
) -> bool {
    &&& new_s.len() == old_s.len()
    &&& forall|k: int|
        0 <= k < old_s.len() ==> #[trigger] new_s[k] == if first_of_kind(old_s, stage, k) {
            ImportStageInfo {
                status: status,
                duration_ms: match duration {
                    Some(d) => d,
                    None => old_s[k].duration_ms,
                },
                ..old_s[k]
            }
        } else {
            old_s[k]
        }
}

/// Whether every stage is completed.
pub open spec fn all_completed(s: Seq<ImportStageInfo>) -> bool {
    forall|k: int| 0 <= k < s.len() ==> #[trigger] s[k].status is Completed
}

fn stage_info(stage: ImportStage, name: &str, description: &str) -> (r: ImportStageInfo)
    ensures
        r.stage == stage,
        r.name@ == name@,
        r.description@ == description@,
        r.status is Pending,
        r.duration_ms is None,
{
    ImportStageInfo {
        stage,
        name: String::from_str(name),
        description: String::from_str(description),
        status: StageStatus::Pending,
        duration_ms: None,
    }
}

/// Position of the first stage of a kind, if any.
fn find_stage(stages: &Vec<ImportStageInfo>, stage: ImportStage) -> (r: Option<usize>)
    ensures
        r matches Some(k) ==> first_of_kind(stages@, stage, k as int),
        r is None ==> forall|k: int| 0 <= k < stages@.len() ==> #[trigger] stages@[k].stage != stage,
{
    let mut i: usize = 0;
    while i < stages.len()
        invariant
            i <= stages@.len(),
            forall|j: int| 0 <= j < i ==> #[trigger] stages@[j].stage != stage,
        decreases stages@.len() - i,
    {
        if stages[i].stage == stage {
            return Some(i);
        }
        i = i + 1;
    }
    None
}

impl ImportJob {
    /// A new import: every stage pending, fetching first, cancellable.
    pub fn new(message: String) -> (r: ImportJob)
        ensures
            r.status == ImportStatus::Starting,
            r.message == message,
            r.current_stage == ImportStage::Fetching,
            r.can_cancel,
            r.stages@.len() == stage_plan().len(),
            forall|k: int|
                0 <= k < stage_plan().len() ==> (#[trigger] r.stages@[k]).stage == stage_plan()[k].0
                    && r.stages@[k].name@ == stage_plan()[k].1 && r.stages@[k].description@
                    == stage_plan()[k].2 && r.stages@[k].status is Pending
                    && r.stages@[k].duration_ms is None,
    {
        let stages = vec![
            stage_info(
                ImportStage::Fetching,
                "Fetching Data",
                "Downloading playlist information and video metadata",
            ),
            stage_info(
                ImportStage::Processing,
                "Processing Content",
                "Analyzing video titles and extracting content features",
            ),
            stage_info(
                ImportStage::TfIdfAnalysis,
                "TF-IDF Analysis",
                "Computing term frequency and semantic similarity scores",
            ),
            stage_info(
                ImportStage::KMeansClustering,
                "K-Means Clustering",
                "Grouping videos into coherent learning modules",
            ),
            stage_info(
                ImportStage::Optimization,
                "Structure Optimization",
                "Refining module boundaries and optimizing learning flow",
            ),
            stage_info(
                ImportStage::Saving,
                "Saving Course",
                "Persisting course structure and metadata to database",
            ),
        ];
        ImportJob {
            id: Uuid::new_v4(),
            status: ImportStatus::Starting,
            message,
            created_at: utc_now(),
            current_stage: ImportStage::Fetching,
            stages,
            can_cancel: true,
        }
    }

    /// Shows as current the first stage under way, else the first not
    /// started; with neither, the current stage stays.
    pub fn refresh_current_stage(&mut self)
        ensures
            refreshed_stage(old(self).stages@, old(self).current_stage, final(self).current_stage),
            final(self).stages == old(self).stages,
            final(self).status == old(self).status,
            final(self).message == old(self).message,
            final(self).can_cancel == old(self).can_cancel,
            final(self).id == old(self).id,
            final(self).created_at == old(self).created_at,
    {
        let mut i: usize = 0;
        while i < self.stages.len()
            invariant
                *self == *old(self),
                i <= self.stages@.len(),
                forall|j: int| 0 <= j < i ==> !(#[trigger] self.stages@[j].status is InProgress),
            decreases self.stages@.len() - i,
        {
            if let StageStatus::InProgress = self.stages[i].status {
                self.current_stage = self.stages[i].stage;
                assert(first_in_progress(self.stages@, i as int));
                return;
            }
            i = i + 1;
        }
        let mut i: usize = 0;
        while i < self.stages.len()
            invariant
                *self == *old(self),
                i <= self.stages@.len(),
                forall|j: int| 0 <= j < self.stages@.len() ==> !(#[trigger] self.stages@[j].status is InProgress),
                forall|j: int| 0 <= j < i ==> !(#[trigger] self.stages@[j].status is Pending),
            decreases self.stages@.len() - i,
        {
            if let StageStatus::Pending = self.stages[i].status {
                self.current_stage = self.stages[i].stage;
                assert(first_pending(self.stages@, i as int));
                return;
            }
            i = i + 1;
        }
    }

    /// Whether every stage is completed.
    pub fn all_stages_completed(&self) -> (r: bool)
        ensures
            r == all_completed(self.stages@),
    {
        let mut i: usize = 0;
        while i < self.stages.len()
            invariant
                i <= self.stages@.len(),
                forall|j: int| 0 <= j < i ==> #[trigger] self.stages@[j].status is Completed,
            decreases self.stages@.len() - i,
        {
            if let StageStatus::Completed = self.stages[i].status {
            } else {
                return false;
            }
            i = i + 1;
        }
        true
    }

    fn set_stage_status(&mut self, stage: ImportStage, status: StageStatus, duration: Option<Option<u64>>)
        ensures
            stages_with_status(old(self).stages@, final(self).stages@, stage, status, duration),
            final(self).status == old(self).status,
            final(self).message == old(self).message,
            final(self).can_cancel == old(self).can_cancel,
            final(self).current_stage == old(self).current_stage,
            final(self).id == old(self).id,
            final(self).created_at == old(self).created_at,
    {
        match find_stage(&self.stages, stage) {
            Some(k) => {
                let ghost before = self.stages@;
                self.stages[k].status = status;
                match duration {
                    Some(d) => {
                        self.stages[k].duration_ms = d;
                    },
                    None => {},
                }
                assert forall|j: int| 0 <= j < before.len() implies #[trigger] self.stages@[j] == if first_of_kind(before, stage, j) {
                    ImportStageInfo {
                        status: status,
                        duration_ms: match duration {
                            Some(d) => d,
                            None => before[j].duration_ms,
                        },
                        ..before[j]
                    }
                } else {
                    before[j]
                } by {
                    if j < k {
                        assert(!first_of_kind(before, stage, j));
                    } else if j > k {
                        assert(before[k as int].stage == stage);
                        assert(!first_of_kind(before, stage, j));
                    }
                }
            },
            None => {
                assert forall|j: int| 0 <= j < self.stages@.len() implies !first_of_kind(self.stages@, stage, j) by {}
            },
        }
    }

    /// A stage reports progress: it is under way and shown as current (the
    /// first under way, as refreshed), the job is in progress with the
    /// message.
    pub fn update_stage_progress(&mut self, stage: ImportStage, message: String)
        ensures
            stages_with_status(old(self).stages@, final(self).stages@, stage, StageStatus::InProgress, None),
            final(self).message == message,
            final(self).status == ImportStatus::InProgress,
            refreshed_stage(final(self).stages@, stage, final(self).current_stage),
            final(self).can_cancel == old(self).can_cancel,
            final(self).id == old(self).id,
            final(self).created_at == old(self).created_at,
    {
        self.current_stage = stage;
        self.message = message;
        self.set_stage_status(stage, StageStatus::InProgress, None);
        self.status = ImportStatus::InProgress;
        self.refresh_current_stage();
    }

    /// A stage finished after `duration_ms`: it is completed; the job is
    /// completed and no longer cancellable once every stage is, else in
    /// progress with the current stage refreshed.
    pub fn complete_stage(&mut self, stage: ImportStage, duration_ms: u64)
        ensures
            stages_with_status(old(self).stages@, final(self).stages@, stage, StageStatus::Completed, Some(Some(duration_ms))),
            all_completed(final(self).stages@) ==> final(self).status == ImportStatus::Completed
                && !final(self).can_cancel && final(self).current_stage == old(self).current_stage,
            !all_completed(final(self).stages@) ==> final(self).status == ImportStatus::InProgress
                && final(self).can_cancel == old(self).can_cancel && refreshed_stage(
                final(self).stages@,
                old(self).current_stage,
                final(self).current_stage,
            ),
            final(self).message == old(self).message,
            final(self).id == old(self).id,
            final(self).created_at == old(self).created_at,
    {
        self.set_stage_status(stage, StageStatus::Completed, Some(Some(duration_ms)));
        if self.all_stages_completed() {
            self.status = ImportStatus::Completed;
            self.can_cancel = false;
        } else {
            self.status = ImportStatus::InProgress;
            self.refresh_current_stage();
        }
    }

    /// A stage failed: it carries the error, the job failed with the error
    /// as message, is no longer cancellable, and shows that stage.
    pub fn fail_stage(&mut self, stage: ImportStage, error: String)
        ensures
            stages_with_status(old(self).stages@, final(self).stages@, stage, StageStatus::Failed(error), None),
            final(self).status == ImportStatus::Failed,
            final(self).message == error,
            !final(self).can_cancel,
            final(self).current_stage == stage,
            final(self).id == old(self).id,
            final(self).created_at == old(self).created_at,
    {
        self.set_stage_status(stage, StageStatus::Failed(error.clone()), None);
        self.status = ImportStatus::Failed;
        self.message = error;
        self.can_cancel = false;
        self.current_stage = stage;
    }

    /// The job finished: completed, no longer cancellable, every stage
    /// completed (durations kept) and saving shown as current.
    pub fn mark_completed(&mut self)
        ensures
            final(self).status == ImportStatus::Completed,
            !final(self).can_cancel,
            final(self).current_stage == ImportStage::Saving,
            final(self).message == old(self).message,
            final(self).stages@.len() == old(self).stages@.len(),
            forall|k: int|
                0 <= k < old(self).stages@.len() ==> #[trigger] final(self).stages@[k] == (ImportStageInfo {
                    status: StageStatus::Completed,
                    ..old(self).stages@[k]
                }),
            final(self).id == old(self).id,
            final(self).created_at == old(self).created_at,
    {
        self.status = ImportStatus::Completed;
        self.can_cancel = false;
        let ghost before = self.stages@;
        let mut i: usize = 0;
        while i < self.stages.len()
            invariant
                i <= self.stages@.len(),
                self.status == ImportStatus::Completed,
                !self.can_cancel,
                self.message == old(self).message,
                self.id == old(self).id,
                self.created_at == old(self).created_at,
                self.stages@.len() == before.len(),
                forall|k: int| 0 <= k < i ==> #[trigger] self.stages@[k] == (ImportStageInfo {
                    status: StageStatus::Completed,
                    ..before[k]
                }),
                forall|k: int| i <= k < before.len() ==> #[trigger] self.stages@[k] == before[k],
            decreases self.stages@.len() - i,
        {
            self.stages[i].status = StageStatus::Completed;
            i = i + 1;
        }
        self.current_stage = ImportStage::Saving;
    }

    /// The user cancelled: the job is cancelled with a message saying so
    /// and can no longer be cancelled.
    pub fn mark_cancelled(&mut self)
        ensures
            final(self).status == ImportStatus::Cancelled,
            final(self).message@ == "Import cancelled by user"@,
            !final(self).can_cancel,
            final(self).stages == old(self).stages,
            final(self).current_stage == old(self).current_stage,
            final(self).id == old(self).id,
            final(self).created_at == old(self).created_at,
    {
        self.status = ImportStatus::Cancelled;
        self.message = String::from_str("Import cancelled by user");
        self.can_cancel = false;
    }

    /// The overall progress was set with a message: the job is completed
    /// where the progress reached a hundred percent, else in progress.
    pub fn update_progress(&mut self, reached_full: bool, message: String)
        ensures
            final(self).message == message,
            final(self).status == if reached_full {
                ImportStatus::Completed
            } else {
                ImportStatus::InProgress
            },
            final(self).stages == old(self).stages,
            final(self).can_cancel == old(self).can_cancel,
            final(self).current_stage == old(self).current_stage,
            final(self).id == old(self).id,
            final(self).created_at == old(self).created_at,
    {
        self.message = message;
        self.status = if reached_full {
            ImportStatus::Completed
        } else {
            ImportStatus::InProgress
        };
    }

    /// The job failed as a whole with a message and can no longer be
    /// cancelled.
    pub fn mark_failed(&mut self, error_message: String)
        ensures
            final(self).status == ImportStatus::Failed,
            final(self).message == error_message,
            !final(self).can_cancel,
            final(self).stages == old(self).stages,
            final(self).current_stage == old(self).current_stage,
            final(self).id == old(self).id,
            final(self).created_at == old(self).created_at,
    {
        self.status = ImportStatus::Failed;
        self.message = error_message;
        self.can_cancel = false;
    }
}

} // verus!
