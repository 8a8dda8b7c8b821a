use honkers_launcher::first_run::{FirstRunAction, FirstRunMessage, FirstRunState, Step, ToastData};

fn at(step: Step) -> FirstRunState {
    FirstRunState { current_step: step, loading: None, toast: None }
}

#[test]
fn new_state_starts_at_welcome() {
    let s = FirstRunState::new();
    assert_eq!(s.current_step, Step::Welcome);
    assert_eq!(s.loading, None);
    assert_eq!(s.toast, None);
}

#[test]
fn step_positions() {
    let all = [
        Step::Welcome,
        Step::TosWarning,
        Step::Dependencies,
        Step::DefaultPaths,
        Step::DownloadComponents,
        Step::Finish,
    ];
    for (i, s) in all.iter().enumerate() {
        assert_eq!(s.index(), i);
    }
}

#[test]
fn next_step_walk_with_dependencies() {
    let mut s = FirstRunState::new();
    assert_eq!(s.update(FirstRunMessage::NextStep, true), FirstRunAction::Nothing);
    assert_eq!(s.current_step, Step::TosWarning);
    assert_eq!(s.update(FirstRunMessage::NextStep, true), FirstRunAction::Nothing);
    assert_eq!(s.current_step, Step::DefaultPaths);
    assert_eq!(s.update(FirstRunMessage::NextStep, true), FirstRunAction::SyncComponentsIndex);
    assert_eq!(s.current_step, Step::DefaultPaths);
    assert_eq!(s.loading, Some("Updating components index...".to_string()));
    assert_eq!(s.update(FirstRunMessage::SyncComponentsFinished(Ok(())), true), FirstRunAction::Nothing);
    assert_eq!(s.current_step, Step::DownloadComponents);
    assert_eq!(s.loading, None);
    s.update(FirstRunMessage::NextStep, true);
    assert_eq!(s.current_step, Step::Finish);
    s.update(FirstRunMessage::NextStep, true);
    assert_eq!(s.current_step, Step::Finish);
}

#[test]
fn missing_dependencies_page() {
    let mut s = at(Step::TosWarning);
    s.update(FirstRunMessage::AgreeTos, false);
    assert_eq!(s.current_step, Step::Dependencies);
    s.update(FirstRunMessage::NextStep, false);
    assert_eq!(s.current_step, Step::DefaultPaths);
}

#[test]
fn previous_steps() {
    let cases = [
        (Step::Welcome, Step::Welcome),
        (Step::TosWarning, Step::Welcome),
        (Step::Dependencies, Step::TosWarning),
        (Step::DefaultPaths, Step::TosWarning),
        (Step::DownloadComponents, Step::DefaultPaths),
        (Step::Finish, Step::DownloadComponents),
    ];
    for (from, to) in cases {
        let mut s = at(from);
        assert_eq!(s.update(FirstRunMessage::PreviousStep, false), FirstRunAction::Nothing);
        assert_eq!(s.current_step, to);
    }
}

#[test]
fn agree_tos_is_next_step() {
    for deps in [true, false] {
        for step in [Step::Welcome, Step::TosWarning, Step::DefaultPaths, Step::Finish] {
            let mut a = at(step);
            let mut b = at(step);
            let ra = a.update(FirstRunMessage::AgreeTos, deps);
            let rb = b.update(FirstRunMessage::NextStep, deps);
            assert_eq!(ra, rb);
            assert_eq!(a, b);
        }
    }
}

#[test]
fn back_undoes_next_on_some_pages() {
    for step in [Step::Welcome, Step::TosWarning, Step::DownloadComponents] {
        for deps in [true, false] {
            let mut s = at(step);
            s.update(FirstRunMessage::NextStep, deps);
            s.update(FirstRunMessage::PreviousStep, deps);
            assert_eq!(s.current_step, step);
        }
    }
    let mut s = at(Step::Dependencies);
    s.update(FirstRunMessage::NextStep, true);
    s.update(FirstRunMessage::PreviousStep, true);
    assert_eq!(s.current_step, Step::TosWarning);
}

#[test]
fn dependency_check_needed_only_on_tos_page() {
    let s = at(Step::TosWarning);
    assert!(s.needs_dependency_check(&FirstRunMessage::NextStep));
    assert!(s.needs_dependency_check(&FirstRunMessage::AgreeTos));
    assert!(!s.needs_dependency_check(&FirstRunMessage::PreviousStep));
    let s = at(Step::Welcome);
    assert!(!s.needs_dependency_check(&FirstRunMessage::NextStep));
}

#[test]
fn sync_failure_shows_toast() {
    let mut s = at(Step::DefaultPaths);
    s.loading = Some("x".to_string());
    let a = s.update(FirstRunMessage::SyncComponentsFinished(Err("timeout".to_string())), true);
    assert_eq!(
        a,
        FirstRunAction::DeliverToast(ToastData {
            title: "Failed to sync components index".to_string(),
            description: Some("timeout".to_string()),
        })
    );
    assert_eq!(s.current_step, Step::DownloadComponents);
    assert_eq!(s.loading, None);
}

#[test]
fn toasts_and_loading() {
    let mut s = FirstRunState::new();
    let t = ToastData { title: "t".to_string(), description: None };
    s.update(FirstRunMessage::ShowToast(t.clone()), false);
    assert_eq!(s.toast, Some(t));
    s.update(FirstRunMessage::DismissToast, false);
    assert_eq!(s.toast, None);
    s.update(FirstRunMessage::SetLoading(Some("busy".to_string())), false);
    assert_eq!(s.loading, Some("busy".to_string()));
    s.update(FirstRunMessage::SetLoading(None), false);
    assert_eq!(s.loading, None);
}

#[test]
fn go_to_and_outside_actions() {
    let mut s = FirstRunState::new();
    assert_eq!(s.update(FirstRunMessage::GoTo(Step::Finish), false), FirstRunAction::Nothing);
    assert_eq!(s.current_step, Step::Finish);
    assert_eq!(s.update(FirstRunMessage::OpenDebugFile, false), FirstRunAction::OpenDebugFile);
    assert_eq!(s.update(FirstRunMessage::FinishAndLaunch, false), FirstRunAction::FinishAndLaunch);
    assert_eq!(s.update(FirstRunMessage::ExitApp, false), FirstRunAction::ExitApp);
    assert_eq!(s.current_step, Step::Finish);
}

#[test]
fn message_clone_is_equal() {
    let m = FirstRunMessage::SyncComponentsFinished(Err("e".to_string()));
    assert_eq!(m.clone(), m);
    let m = FirstRunMessage::ShowToast(ToastData { title: "a".to_string(), description: Some("b".to_string()) });
    assert_eq!(m.clone(), m);
}
