use honkers_launcher::cli::CliOptions;
use honkers_launcher::launcher::{
    initial_screen, plan_entry, plan_folder, route_message, should_run_game, usage_text,
    wants_direct_start, window_title, EntryPlan, FolderPlan, LauncherStateKind, MessageKind, Route,
    ScreenKind, APP_ID,
};
use honkers_launcher::wizard::{
    step_indicator, step_page, FinishView, FirstRunScreen, TosWarningView, WelcomeView,
};
use honkers_launcher::first_run::{FirstRunMessage, FirstRunState, Step, ToastData};

#[test]
fn folder_plans() {
    assert_eq!(plan_folder(true, false), FolderPlan::Ready);
    assert_eq!(plan_folder(true, true), FolderPlan::Ready);
    assert_eq!(plan_folder(false, true), FolderPlan::BrokenSymlink);
    assert_eq!(plan_folder(false, false), FolderPlan::Create);
}

#[test]
fn direct_game_start() {
    let mut o = CliOptions::default();
    assert!(!wants_direct_start(&o));
    assert!(!should_run_game(&o, Some(LauncherStateKind::Launch)));
    o.run_game = true;
    assert!(should_run_game(&o, Some(LauncherStateKind::Launch)));
    assert!(!should_run_game(&o, Some(LauncherStateKind::PredownloadAvailable)));
    assert!(!should_run_game(&o, None));
    o.run_game = false;
    o.just_run_game = true;
    assert!(wants_direct_start(&o));
    assert!(should_run_game(&o, Some(LauncherStateKind::PredownloadAvailable)));
    assert!(!should_run_game(&o, Some(LauncherStateKind::Other)));
}

#[test]
fn screens_and_routes() {
    assert_eq!(initial_screen(true), ScreenKind::FirstRun);
    assert_eq!(initial_screen(false), ScreenKind::Main);
    assert_eq!(route_message(ScreenKind::FirstRun, MessageKind::FirstRun), Route::ToFirstRun);
    assert_eq!(route_message(ScreenKind::Main, MessageKind::FirstRun), Route::Ignore);
    assert_eq!(route_message(ScreenKind::Main, MessageKind::Main), Route::ToMain);
    assert_eq!(route_message(ScreenKind::FirstRun, MessageKind::Main), Route::Ignore);
    assert_eq!(route_message(ScreenKind::FirstRun, MessageKind::SwitchToMain), Route::SwitchToMain);
    assert_eq!(route_message(ScreenKind::Main, MessageKind::SwitchToMain), Route::SwitchToMain);
}

#[test]
fn texts() {
    assert_eq!(APP_ID, "unified-launcher");
    assert_eq!(window_title("1.2.3"), "Honkers Launcher v1.2.3");
    let u = usage_text("0.1.0");
    assert!(u.starts_with("\nUnified Launcher 0.1.0\n\nUsage:\n  unified-launcher [OPTION...]\n"));
    assert!(u.contains("  --session <NAME>      Switch to the given session before starting\n    "));
    assert!(u.ends_with("starting\n    "));
}

#[test]
fn entry_plans() {
    assert_eq!(plan_entry(true, true, true), EntryPlan::Renamed);
    assert_eq!(plan_entry(false, true, true), EntryPlan::RecreateSymlink);
    assert_eq!(plan_entry(false, false, true), EntryPlan::MoveDirectory);
    assert_eq!(plan_entry(false, false, false), EntryPlan::CopyAndDelete);
}

#[test]
fn dependency_check() {
    assert!(TosWarningView::check_dependencies(true, true, true, false));
    assert!(TosWarningView::check_dependencies(true, true, false, true));
    assert!(!TosWarningView::check_dependencies(true, true, false, false));
    assert!(!TosWarningView::check_dependencies(false, true, true, true));
    assert!(!TosWarningView::check_dependencies(true, false, true, true));
}

#[test]
fn pages() {
    let w = WelcomeView::view();
    assert_eq!(w.title, "Unified Launcher");
    assert_eq!(w.body, "Welcome to Unified Launcher.\nAn open-source, highly optimized launcher designed for Linux.");
    assert_eq!(w.buttons.len(), 1);
    assert_eq!(w.buttons[0].label, "Continue");
    assert_eq!(w.buttons[0].message, FirstRunMessage::NextStep);
    let t = TosWarningView::view();
    assert_eq!(t.title, "Terms of Service Notice");
    assert!(t.body.contains("Terms of Service.\n\nWhile"));
    assert_eq!(t.buttons[1].message, FirstRunMessage::AgreeTos);
    let f = FinishView::view();
    assert_eq!(f.title, "Setup Completed!");
    assert_eq!(f.buttons[0].label, "Exit");
    assert_eq!(f.buttons[1].label, "Start Launcher");
    assert_eq!(f.buttons[1].message, FirstRunMessage::FinishAndLaunch);
    let d = step_page(Step::Dependencies);
    assert_eq!(d.title, "Missing Dependencies");
    assert_eq!(d.buttons[0].label, "Re-check");
    assert_eq!(step_page(Step::DownloadComponents).buttons[0].label, "Finish Setup");
    assert_eq!(step_page(Step::DefaultPaths).body, "Paths are verified and configured.");
}

#[test]
fn indicator_marks_current_step() {
    assert_eq!(step_indicator(Step::Welcome), vec![true, false, false, false, false, false]);
    assert_eq!(step_indicator(Step::Finish), vec![false, false, false, false, false, true]);
    assert_eq!(step_indicator(Step::DefaultPaths), vec![false, false, false, true, false, false]);
}

#[test]
fn wizard_screen() {
    let mut s = FirstRunState::new();
    match s.view() {
        FirstRunScreen::Wizard { page, indicator, toast } => {
            assert_eq!(page.title, "Unified Launcher");
            assert!(indicator[0]);
            assert!(toast.is_none());
        }
        other => panic!("unexpected {other:?}"),
    }
    s.update(FirstRunMessage::ShowToast(ToastData { title: "T".into(), description: None }), false);
    match s.view() {
        FirstRunScreen::Wizard { toast: Some(tv), .. } => {
            assert_eq!(tv.toast.title, "T");
            assert_eq!(tv.log_button.label, "Log");
            assert_eq!(tv.log_button.message, FirstRunMessage::OpenDebugFile);
            assert_eq!(tv.close_button.label, "✕");
            assert_eq!(tv.close_button.message, FirstRunMessage::DismissToast);
        }
        other => panic!("unexpected {other:?}"),
    }
    s.update(FirstRunMessage::SetLoading(Some("Working".into())), false);
    assert_eq!(s.view(), FirstRunScreen::Loading { message: "Working".into() });
}
