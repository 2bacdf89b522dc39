//! The decisions of the `schema apply` command, as a state machine: the
//! caller performs each action (prompting, talking to the database,
//! committing) and hands back what came of it.
use vstd::prelude::*;

verus! {

/// Where an apply run stands.
#[derive(Debug, Clone, Copy, PartialEq, Eq, Structural)]
pub enum ApplyState {
    /// Waiting for the migration plan.
    Planning,
    /// Waiting to learn whether the working tree is dirty.
    CheckingRepo,
    /// Asked whether to go on despite a dirty working tree.
    ConfirmingDirty,
    /// Asked whether to perform the update.
    ConfirmingApply,
    /// Applying the plan to the database.
    Applying,
    /// Committing the refreshed schema.
    Committing,
    Done,
}

/// What came of the last action.
#[derive(Debug, Clone, Copy, PartialEq, Eq, Structural)]
pub enum ApplyEvent {
    Planned { empty: bool },
    RepoChecked { dirty: bool },
    Answered { yes: bool },
    Applied,
    Committed,
}

/// What the caller is to do next.
#[derive(Debug, Clone, Copy, PartialEq, Eq, Structural)]
pub enum ApplyAction {
    /// Load the configuration and check whether the working tree is dirty.
    CheckRepo,
    /// Ask whether to go on although the working tree is dirty.
    AskContinueDirty,
    /// Ask whether to perform the update.
    AskApply,
    /// Apply the plan to the database.
    ApplyPlan,
    /// Commit the schema that was retrieved.
    Commit,
    /// Report that the migration was applied.
    ReportSuccess,
    /// Report that the update was cancelled.
    ReportCancelled,
    /// Fail: the working tree is dirty and the user did not go on.
    FailDirty,
    /// Stop: there is nothing to apply.
    Finish,
    /// The event does not belong to this state; nothing changes.
    Ignore,
}

/// The transition of an apply run.
pub open spec fn apply_next(state: ApplyState, event: ApplyEvent) -> (ApplyState, ApplyAction) {
    match (state, event) {
        (ApplyState::Planning, ApplyEvent::Planned { empty }) => if empty {
            (ApplyState::Done, ApplyAction::Finish)
        } else {
            (ApplyState::CheckingRepo, ApplyAction::CheckRepo)
        },
        (ApplyState::CheckingRepo, ApplyEvent::RepoChecked { dirty }) => if dirty {
            (ApplyState::ConfirmingDirty, ApplyAction::AskContinueDirty)
        } else {
            (ApplyState::ConfirmingApply, ApplyAction::AskApply)
        },
        (ApplyState::ConfirmingDirty, ApplyEvent::Answered { yes }) => if yes {
            (ApplyState::ConfirmingApply, ApplyAction::AskApply)
        } else {
            (ApplyState::Done, ApplyAction::FailDirty)
        },
        (ApplyState::ConfirmingApply, ApplyEvent::Answered { yes }) => if yes {
            (ApplyState::Applying, ApplyAction::ApplyPlan)
        } else {
            (ApplyState::Done, ApplyAction::ReportCancelled)
        },
        (ApplyState::Applying, ApplyEvent::Applied) => (
            ApplyState::Committing,
            ApplyAction::Commit,
        ),
        (ApplyState::Committing, ApplyEvent::Committed) => (
            ApplyState::Done,
            ApplyAction::ReportSuccess,
        ),
        _ => (state, ApplyAction::Ignore),
    }
}

/// One step of an apply run: an empty plan ends it; a dirty working tree
/// needs the user's leave; the plan is applied only when the user agrees,
/// and the schema is committed only once it is applied.
pub fn apply_step(state: ApplyState, event: ApplyEvent) -> (r: (ApplyState, ApplyAction))
    ensures
        r == apply_next(state, event),
{
    match (state, event) {
        (ApplyState::Planning, ApplyEvent::Planned { empty }) => if empty {
            (ApplyState::Done, ApplyAction::Finish)
        } else {
            (ApplyState::CheckingRepo, ApplyAction::CheckRepo)
        },
        (ApplyState::CheckingRepo, ApplyEvent::RepoChecked { dirty }) => if dirty {
            (ApplyState::ConfirmingDirty, ApplyAction::AskContinueDirty)
        } else {
            (ApplyState::ConfirmingApply, ApplyAction::AskApply)
        },
        (ApplyState::ConfirmingDirty, ApplyEvent::Answered { yes }) => if yes {
            (ApplyState::ConfirmingApply, ApplyAction::AskApply)
        } else {
            (ApplyState::Done, ApplyAction::FailDirty)
        },
        (ApplyState::ConfirmingApply, ApplyEvent::Answered { yes }) => if yes {
            (ApplyState::Applying, ApplyAction::ApplyPlan)
        } else {
            (ApplyState::Done, ApplyAction::ReportCancelled)
        },
        (ApplyState::Applying, ApplyEvent::Applied) => (
            ApplyState::Committing,
            ApplyAction::Commit,
        ),
        (ApplyState::Committing, ApplyEvent::Committed) => (
            ApplyState::Done,
            ApplyAction::ReportSuccess,
        ),
        _ => (state, ApplyAction::Ignore),
    }
}

/// The plan reaches the database only from the confirmation prompt, on a
/// yes; the schema is committed only right after the plan was applied.
pub proof fn apply_only_after_consent(state: ApplyState, event: ApplyEvent)
    ensures
        apply_next(state, event).1 == ApplyAction::ApplyPlan ==> (state
            == ApplyState::ConfirmingApply && event == (ApplyEvent::Answered { yes: true })),
        apply_next(state, event).1 == ApplyAction::Commit ==> (state == ApplyState::Applying
            && event == ApplyEvent::Applied),
{
}

} // verus!
