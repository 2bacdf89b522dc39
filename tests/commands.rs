use renovate::{apply_step, ApplyAction, ApplyEvent, ApplyState};

fn run(events: &[ApplyEvent]) -> Vec<ApplyAction> {
    let mut state = ApplyState::Planning;
    let mut actions = vec![];
    for e in events {
        let (next, action) = apply_step(state, *e);
        state = next;
        actions.push(action);
    }
    actions
}

#[test]
fn empty_plan_finishes_at_once() {
    assert_eq!(run(&[ApplyEvent::Planned { empty: true }]), vec![ApplyAction::Finish]);
}

#[test]
fn clean_repo_confirmed_applies_and_commits() {
    let actions = run(&[
        ApplyEvent::Planned { empty: false },
        ApplyEvent::RepoChecked { dirty: false },
        ApplyEvent::Answered { yes: true },
        ApplyEvent::Applied,
        ApplyEvent::Committed,
    ]);
    assert_eq!(
        actions,
        vec![
            ApplyAction::CheckRepo,
            ApplyAction::AskApply,
            ApplyAction::ApplyPlan,
            ApplyAction::Commit,
            ApplyAction::ReportSuccess,
        ]
    );
}

#[test]
fn dirty_repo_declined_fails() {
    let actions = run(&[
        ApplyEvent::Planned { empty: false },
        ApplyEvent::RepoChecked { dirty: true },
        ApplyEvent::Answered { yes: false },
    ]);
    assert_eq!(
        actions,
        vec![ApplyAction::CheckRepo, ApplyAction::AskContinueDirty, ApplyAction::FailDirty]
    );
}

#[test]
fn dirty_repo_accepted_then_cancelled() {
    let actions = run(&[
        ApplyEvent::Planned { empty: false },
        ApplyEvent::RepoChecked { dirty: true },
        ApplyEvent::Answered { yes: true },
        ApplyEvent::Answered { yes: false },
    ]);
    assert_eq!(
        actions,
        vec![
            ApplyAction::CheckRepo,
            ApplyAction::AskContinueDirty,
            ApplyAction::AskApply,
            ApplyAction::ReportCancelled,
        ]
    );
}

#[test]
fn unexpected_event_is_ignored() {
    assert_eq!(
        apply_step(ApplyState::Planning, ApplyEvent::Applied),
        (ApplyState::Planning, ApplyAction::Ignore)
    );
}
