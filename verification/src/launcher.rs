//! Start-up decisions of the launcher: its folders, the direct game start, which screen comes
//! first and where messages go, and how the files of a folder are moved.
use vstd::prelude::*;

use crate::cli::CliOptions;
use crate::text::join_str;

verus! {

/// The application's identifier.
pub const APP_ID: &'static str = "unified-launcher";

/// What to do about a folder the launcher needs.
#[derive(Debug, Clone, Copy, PartialEq, Eq)]
pub enum FolderPlan {
    /// It is there.
    Ready,
    /// It is missing: create it.
    Create,
    /// Its path is a symlink to nothing: give up with an error.
    BrokenSymlink,
}

/// The plan for a folder whose path `exists` (following symlinks) and `is_symlink`.
pub fn plan_folder(exists: bool, is_symlink: bool) -> (r: FolderPlan)
    ensures
        exists ==> r == FolderPlan::Ready,
        !exists && is_symlink ==> r == FolderPlan::BrokenSymlink,
        !exists && !is_symlink ==> r == FolderPlan::Create,
{
    if exists {
        FolderPlan::Ready
    } else if is_symlink {
        FolderPlan::BrokenSymlink
    } else {
        FolderPlan::Create
    }
}

/// What the game's installation looks like, as far as starting it goes.
#[derive(Debug, Clone, Copy, PartialEq, Eq)]
pub enum LauncherStateKind {
    /// Ready to be started.
    Launch,
    /// Ready, and a pre-download of the next version is available.
    PredownloadAvailable,
    /// Anything else (an update or an installation is needed, ...).
    Other,
}

/// Whether the command line asks to start the game directly.
pub fn wants_direct_start(opts: &CliOptions) -> (r: bool)
    ensures
        r == (opts.run_game || opts.just_run_game),
{
    opts.run_game || opts.just_run_game
}

/// Whether to start the game without showing the launcher: the command line asks for it and
/// the game is ready; with `--just-run-game` an available pre-download does not hold it up.
/// `state` is `None` when the state could not be found out.
pub fn should_run_game(opts: &CliOptions, state: Option<LauncherStateKind>) -> (r: bool)
    ensures
        r == ((opts.run_game || opts.just_run_game) && (state == Some(LauncherStateKind::Launch)
            || (state == Some(LauncherStateKind::PredownloadAvailable) && opts.just_run_game))),
{
    if !wants_direct_start(opts) {
        return false;
    }
    match state {
        Some(LauncherStateKind::Launch) => true,
        Some(LauncherStateKind::PredownloadAvailable) => opts.just_run_game,
        _ => false,
    }
}

/// The screens of the application.
#[derive(Debug, Clone, Copy, PartialEq, Eq)]
pub enum ScreenKind {
    FirstRun,
    Main,
}

/// The kinds of application messages.
#[derive(Debug, Clone, Copy, PartialEq, Eq)]
pub enum MessageKind {
    /// A message for the first-run wizard.
    FirstRun,
    /// A message for the main screen.
    Main,
    /// Leave the wizard for the main screen.
    SwitchToMain,
}

/// Where an application message goes.
#[derive(Debug, Clone, Copy, PartialEq, Eq)]
pub enum Route {
    /// Hand it to the wizard.
    ToFirstRun,
    /// Hand it to the main screen.
    ToMain,
    /// Replace the current screen by a new main screen.
    SwitchToMain,
    /// Drop it: it is meant for a screen that is not shown.
    Ignore,
}

/// The first screen: the wizard when the first-run marker file exists, else the main screen.
pub fn initial_screen(first_run_marker_exists: bool) -> (r: ScreenKind)
    ensures
        r == (if first_run_marker_exists {
            ScreenKind::FirstRun
        } else {
            ScreenKind::Main
        }),
{
    if first_run_marker_exists {
        ScreenKind::FirstRun
    } else {
        ScreenKind::Main
    }
}

/// Where a message of kind `message` goes while `screen` is shown.
pub fn route_message(screen: ScreenKind, message: MessageKind) -> (r: Route)
    ensures
        message == MessageKind::SwitchToMain ==> r == Route::SwitchToMain,
        message == MessageKind::FirstRun ==> r == (if screen == ScreenKind::FirstRun {
            Route::ToFirstRun
        } else {
            Route::Ignore
        }),
        message == MessageKind::Main ==> r == (if screen == ScreenKind::Main {
            Route::ToMain
        } else {
            Route::Ignore
        }),
{
    match (screen, message) {
        (ScreenKind::FirstRun, MessageKind::FirstRun) => Route::ToFirstRun,
        (ScreenKind::Main, MessageKind::Main) => Route::ToMain,
        (_, MessageKind::SwitchToMain) => Route::SwitchToMain,
        _ => Route::Ignore,
    }
}

/// The window title for launcher version `version`.
pub fn window_title(version: &str) -> (r: String)
    ensures
        r@ == "Honkers Launcher v"@ + version@,
{
    join_str("Honkers Launcher v", version)
}

/// The usage text before the version.
pub open spec fn usage_head() -> Seq<char> {
    "\nUnified Launcher "@
}

/// The usage text after the version.
pub open spec fn usage_tail() -> Seq<char> {
    "\n\nUsage:\n  unified-launcher [OPTION...]\n\nOptions:\n  -h, --help            Show this help message and exit\n  --debug               Force debug output in stdout (repeat for trace)\n  --no-verbose-tracing  Disable verbose tracing output in stdout\n  --run-game            Launch the game right away if it's ready\n  --just-run-game       Same as --run-game, but also pre-downloads\n  --session <NAME>      Switch to the given session before starting\n    "@
}

/// The text that `--help` prints, for launcher version `version`.
pub fn usage_text(version: &str) -> (r: String)
    ensures
        r@ == usage_head() + version@ + usage_tail(),
{
    let head = join_str("\nUnified Launcher ", version);
    join_str(
        head.as_str(),
        "\n\nUsage:\n  unified-launcher [OPTION...]\n\nOptions:\n  -h, --help            Show this help message and exit\n  --debug               Force debug output in stdout (repeat for trace)\n  --no-verbose-tracing  Disable verbose tracing output in stdout\n  --run-game            Launch the game right away if it's ready\n  --just-run-game       Same as --run-game, but also pre-downloads\n  --session <NAME>      Switch to the given session before starting\n    ",
    )
}

/// How one entry of a folder being moved is handled.
#[derive(Debug, Clone, Copy, PartialEq, Eq)]
pub enum EntryPlan {
    /// Renaming it into the target folder worked: done.
    Renamed,
    /// Make a symlink with the same target at the new place and remove the old one.
    RecreateSymlink,
    /// Create the folder at the new place, move its entries into it, remove the old one.
    MoveDirectory,
    /// Copy the file to the new place and remove the old one.
    CopyAndDelete,
}

/// The plan for an entry: nothing more when the rename worked; otherwise by the entry's own
/// type (not following symlinks), a symlink before a folder before anything else.
pub fn plan_entry(renamed: bool, is_symlink: bool, is_dir: bool) -> (r: EntryPlan)
    ensures
        renamed ==> r == EntryPlan::Renamed,
        !renamed && is_symlink ==> r == EntryPlan::RecreateSymlink,
        !renamed && !is_symlink && is_dir ==> r == EntryPlan::MoveDirectory,
        !renamed && !is_symlink && !is_dir ==> r == EntryPlan::CopyAndDelete,
{
    if renamed {
        EntryPlan::Renamed
    } else if is_symlink {
        EntryPlan::RecreateSymlink
    } else if is_dir {
        EntryPlan::MoveDirectory
    } else {
        EntryPlan::CopyAndDelete
    }
}

} // verus!
