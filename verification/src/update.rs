//! The course of one update run, as a state machine.
//!
//! A run creates a staging directory, resolves the artifact, downloads it,
//! unpacks it and hands the staging directory to the package manager. The
//! caller does the work of each stage and reports how it ended; this module
//! decides what comes next. A failure ends the run at once, and the staging
//! directory is released on every way out.

use vstd::prelude::*;

verus! {

/// The message that is logged where no staging directory can be created.
pub const STAGING_FAILED: &'static str = "Failed to create temporary repository directory.";

/// How far a run has come.
#[derive(Clone, Copy, Debug, PartialEq, Eq, Structural)]
pub enum Stage {
    Start,
    StagingCreated,
    ArtifactResolved,
    Downloaded,
    Extracted,
    UpdateInvoked,
    Cleaned,
}

/// The work that a stage asks of the caller.
#[derive(Clone, Copy, Debug, PartialEq, Eq, Structural)]
pub enum Work {
    /// Create a fresh staging directory.
    CreateStaging,
    /// List the artifacts and choose one.
    ResolveArtifact,
    /// Download the archive into the staging directory.
    Download,
    /// Unpack the archive inside the staging directory.
    Extract,
    /// Run the package manager with the staging directory as a repository.
    InvokeUpdater,
    /// Nothing is left to attempt.
    Nothing,
}

/// What follows a stage.
#[derive(Clone, Copy, Debug, PartialEq, Eq, Structural)]
pub struct Transition {
    /// The stage that the run is in next.
    pub next: Stage,
    /// Whether the staging directory is to be removed on the way there.
    pub release: bool,
}

impl Stage {
    /// The number of stages that lie before this one.
    pub open spec fn rank(self) -> nat {
        match self {
            Stage::Start => 0,
            Stage::StagingCreated => 1,
            Stage::ArtifactResolved => 2,
            Stage::Downloaded => 3,
            Stage::Extracted => 4,
            Stage::UpdateInvoked => 5,
            Stage::Cleaned => 6,
        }
    }

    /// A staging directory exists at this stage.
    pub open spec fn has_staging(self) -> bool {
        self != Stage::Start && self != Stage::Cleaned
    }

    /// The work of this stage.
    pub open spec fn work_of(self) -> Work {
        match self {
            Stage::Start => Work::CreateStaging,
            Stage::StagingCreated => Work::ResolveArtifact,
            Stage::ArtifactResolved => Work::Download,
            Stage::Downloaded => Work::Extract,
            Stage::Extracted => Work::InvokeUpdater,
            Stage::UpdateInvoked => Work::Nothing,
            Stage::Cleaned => Work::Nothing,
        }
    }

    /// The stage that follows this one, where its work succeeded or failed.
    /// How the package manager fared is not looked at, and nothing follows
    /// the last stage.
    pub open spec fn successor(self, succeeded: bool) -> Stage {
        match self {
            Stage::Start => if succeeded {
                Stage::StagingCreated
            } else {
                Stage::Cleaned
            },
            Stage::StagingCreated => if succeeded {
                Stage::ArtifactResolved
            } else {
                Stage::Cleaned
            },
            Stage::ArtifactResolved => if succeeded {
                Stage::Downloaded
            } else {
                Stage::Cleaned
            },
            Stage::Downloaded => if succeeded {
                Stage::Extracted
            } else {
                Stage::Cleaned
            },
            Stage::Extracted => Stage::UpdateInvoked,
            Stage::UpdateInvoked => Stage::Cleaned,
            Stage::Cleaned => Stage::Cleaned,
        }
    }

    /// The stage that a run is in after the outcomes `outcomes`, one for
    /// each stage that it went through, starting from this one.
    pub open spec fn after(self, outcomes: Seq<bool>) -> Stage
        decreases outcomes.len(),
    {
        if outcomes.len() == 0 {
            self
        } else {
            self.successor(outcomes[0]).after(outcomes.skip(1))
        }
    }

    /// The number of times that the staging directory is released in the
    /// course of the outcomes `outcomes`, starting from this stage.
    pub open spec fn releases(self, outcomes: Seq<bool>) -> nat
        decreases outcomes.len(),
    {
        if outcomes.len() == 0 {
            0
        } else {
            let next = self.successor(outcomes[0]);
            let here: nat = if self.has_staging() && next == Stage::Cleaned {
                1
            } else {
                0
            };
            here + next.releases(outcomes.skip(1))
        }
    }

    /// What the caller is to attempt at this stage.
    pub fn work(self) -> (w: Work)
        ensures
            w == self.work_of(),
    {
        match self {
            Stage::Start => Work::CreateStaging,
            Stage::StagingCreated => Work::ResolveArtifact,
            Stage::ArtifactResolved => Work::Download,
            Stage::Downloaded => Work::Extract,
            Stage::Extracted => Work::InvokeUpdater,
            Stage::UpdateInvoked => Work::Nothing,
            Stage::Cleaned => Work::Nothing,
        }
    }

    /// Whether the run is over.
    pub fn is_final(self) -> (b: bool)
        ensures
            b == (self == Stage::Cleaned),
    {
        match self {
            Stage::Cleaned => true,
            _ => false,
        }
    }

    /// Moves on from this stage, given whether its work succeeded. The
    /// staging directory is released exactly where the run ends and holds
    /// one.
    pub fn advance(self, succeeded: bool) -> (t: Transition)
        ensures
            t.next == self.successor(succeeded),
            t.release == (self.has_staging() && t.next == Stage::Cleaned),
    {
        let next = match self {
            Stage::Start => if succeeded {
                Stage::StagingCreated
            } else {
                Stage::Cleaned
            },
            Stage::StagingCreated => if succeeded {
                Stage::ArtifactResolved
            } else {
                Stage::Cleaned
            },
            Stage::ArtifactResolved => if succeeded {
                Stage::Downloaded
            } else {
                Stage::Cleaned
            },
            Stage::Downloaded => if succeeded {
                Stage::Extracted
            } else {
                Stage::Cleaned
            },
            Stage::Extracted => Stage::UpdateInvoked,
            Stage::UpdateInvoked => Stage::Cleaned,
            Stage::Cleaned => Stage::Cleaned,
        };
        let holds = match self {
            Stage::Start => false,
            Stage::Cleaned => false,
            _ => true,
        };
        let ends = match next {
            Stage::Cleaned => true,
            _ => false,
        };
        Transition { next, release: holds && ends }
    }
}

/// A failure ends the run at once: whatever stage fails, the next stage is
/// the last, and no later work is attempted.
pub proof fn lemma_failure_ends_run(stage: Stage)
    requires
        stage.work_of() != Work::Nothing,
        stage != Stage::Extracted,
    ensures
        stage.successor(false) == Stage::Cleaned,
        Stage::Cleaned.work_of() == Work::Nothing,
{
}

/// Every step moves a run forward, and the last stage is never left.
pub proof fn lemma_run_moves_forward(stage: Stage, succeeded: bool)
    ensures
        stage != Stage::Cleaned ==> stage.successor(succeeded).rank() > stage.rank(),
        stage == Stage::Cleaned ==> stage.successor(succeeded) == Stage::Cleaned,
{
}

/// Every run ends: after as many outcomes as there are stages left, the run
/// is in the last stage, however the work fared.
pub proof fn lemma_run_ends(stage: Stage, outcomes: Seq<bool>)
    requires
        outcomes.len() + stage.rank() >= 6,
    ensures
        stage.after(outcomes) == Stage::Cleaned,
    decreases outcomes.len(),
{
    if outcomes.len() > 0 {
        lemma_run_moves_forward(stage, outcomes[0]);
        lemma_run_ends(stage.successor(outcomes[0]), outcomes.skip(1));
    }
}

/// The staging directory is released on every way out: a run that has ended
/// released it exactly once where it had one, and never where it had none.
pub proof fn lemma_staging_released_once(stage: Stage, outcomes: Seq<bool>)
    requires
        stage.after(outcomes) == Stage::Cleaned,
    ensures
        stage.releases(outcomes) == if stage.has_staging() {
            1nat
        } else if stage == Stage::Start && outcomes.len() > 0 && outcomes[0] {
            1nat
        } else {
            0nat
        },
    decreases outcomes.len(),
{
    if outcomes.len() > 0 {
        let next = stage.successor(outcomes[0]);
        lemma_staging_released_once(next, outcomes.skip(1));
    }
}

/// The package manager runs only where every stage before it succeeded.
pub proof fn lemma_updater_needs_success(outcomes: Seq<bool>, k: int)
    requires
        0 <= k <= outcomes.len(),
        Stage::Start.after(outcomes.take(k)) == Stage::Extracted,
    ensures
        k == 4,
        forall|i: int| 0 <= i < 4 ==> outcomes[i],
{
    let o = outcomes.take(k);
    reveal_with_fuel(Stage::after, 8);
    if k >= 1 {
        let s1 = Stage::Start.successor(o[0]);
        assert(Stage::Start.after(o) == s1.after(o.skip(1)));
        if k >= 2 {
            let o1 = o.skip(1);
            let s2 = s1.successor(o1[0]);
            assert(s1.after(o1) == s2.after(o1.skip(1)));
            if k >= 3 {
                let o2 = o1.skip(1);
                let s3 = s2.successor(o2[0]);
                assert(s2.after(o2) == s3.after(o2.skip(1)));
                if k >= 4 {
                    let o3 = o2.skip(1);
                    let s4 = s3.successor(o3[0]);
                    assert(s3.after(o3) == s4.after(o3.skip(1)));
                    if k >= 5 {
                        let o4 = o3.skip(1);
                        let s5 = s4.successor(o4[0]);
                        assert(s4.after(o4) == s5.after(o4.skip(1)));
                        lemma_run_moves_forward(s4, o4[0]);
                        lemma_rank_grows(s5, o4.skip(1));
                    }
                }
            }
        }
    }
}

/// A run never goes back to an earlier stage.
pub proof fn lemma_rank_grows(stage: Stage, outcomes: Seq<bool>)
    ensures
        stage.after(outcomes).rank() >= stage.rank(),
    decreases outcomes.len(),
{
    if outcomes.len() > 0 {
        lemma_run_moves_forward(stage, outcomes[0]);
        lemma_rank_grows(stage.successor(outcomes[0]), outcomes.skip(1));
    }
}

} // verus!
