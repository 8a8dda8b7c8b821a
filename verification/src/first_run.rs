//! The first-run wizard: its steps, the messages it reacts to, and what each message does.
use vstd::prelude::*;

use crate::text::{copy_opt, opt_view, owned};

verus! {

/// A page of the first-run wizard, in the order in which they are shown.
#[derive(Debug, Clone, Copy, PartialEq, Eq, Structural)]
pub enum Step {
    Welcome,
    TosWarning,
    Dependencies,
    DefaultPaths,
    DownloadComponents,
    Finish,
}

impl Step {
    /// The position of the step in the wizard, from 0 to 5.
    pub open spec fn position(self) -> nat {
        match self {
            Step::Welcome => 0,
            Step::TosWarning => 1,
            Step::Dependencies => 2,
            Step::DefaultPaths => 3,
            Step::DownloadComponents => 4,
            Step::Finish => 5,
        }
    }

    /// The position of the step in the wizard.
    pub fn index(self) -> (r: usize)
        ensures
            r == self.position(),
    {
        match self {
            Step::Welcome => 0,
            Step::TosWarning => 1,
            Step::Dependencies => 2,
            Step::DefaultPaths => 3,
            Step::DownloadComponents => 4,
            Step::Finish => 5,
        }
    }
}

/// A notification shown in a corner of the wizard.
#[derive(Debug, PartialEq, Eq)]
pub struct ToastData {
    pub title: String,
    pub description: Option<String>,
}

/// The content of a [`ToastData`].
pub struct ToastModel {
    pub title: Seq<char>,
    pub description: Option<Seq<char>>,
}

impl View for ToastData {
    type V = ToastModel;

    open spec fn view(&self) -> ToastModel {
        ToastModel { title: self.title@, description: opt_view(self.description) }
    }
}

impl Clone for ToastData {
    fn clone(&self) -> (r: ToastData)
        ensures
            r == *self,
    {
        ToastData { title: self.title.clone(), description: copy_opt(&self.description) }
    }
}

/// The view of an optional toast.
pub open spec fn opt_toast_view(t: Option<ToastData>) -> Option<ToastModel> {
    match t {
        Some(x) => Some(x@),
        None => None,
    }
}

/// What the wizard reacts to.
#[derive(Debug, PartialEq, Eq)]
pub enum FirstRunMessage {
    NextStep,
    PreviousStep,
    GoTo(Step),
    AgreeTos,
    SetLoading(Option<String>),
    SyncComponentsFinished(Result<(), String>),
    ShowToast(ToastData),
    DismissToast,
    OpenDebugFile,
    FinishAndLaunch,
    ExitApp,
}

impl Clone for FirstRunMessage {
    fn clone(&self) -> (r: FirstRunMessage)
        ensures
            r == *self,
    {
        match self {
            FirstRunMessage::NextStep => FirstRunMessage::NextStep,
            FirstRunMessage::PreviousStep => FirstRunMessage::PreviousStep,
            FirstRunMessage::GoTo(s) => FirstRunMessage::GoTo(*s),
            FirstRunMessage::AgreeTos => FirstRunMessage::AgreeTos,
            FirstRunMessage::SetLoading(l) => FirstRunMessage::SetLoading(copy_opt(l)),
            FirstRunMessage::SyncComponentsFinished(r) => {
                let c: Result<(), String> = match r {
                    Ok(u) => Ok(*u),
                    Err(e) => Err(e.clone()),
                };
                assert(c == *r);
                FirstRunMessage::SyncComponentsFinished(c)
            },
            FirstRunMessage::ShowToast(t) => FirstRunMessage::ShowToast(t.clone()),
            FirstRunMessage::DismissToast => FirstRunMessage::DismissToast,
            FirstRunMessage::OpenDebugFile => FirstRunMessage::OpenDebugFile,
            FirstRunMessage::FinishAndLaunch => FirstRunMessage::FinishAndLaunch,
            FirstRunMessage::ExitApp => FirstRunMessage::ExitApp,
        }
    }
}

/// The content of a [`FirstRunMessage`].
pub enum MessageModel {
    NextStep,
    PreviousStep,
    GoTo(Step),
    AgreeTos,
    SetLoading(Option<Seq<char>>),
    SyncComponentsFinished(Result<(), Seq<char>>),
    ShowToast(ToastModel),
    DismissToast,
    OpenDebugFile,
    FinishAndLaunch,
    ExitApp,
}

impl View for FirstRunMessage {
    type V = MessageModel;

    open spec fn view(&self) -> MessageModel {
        match self {
            FirstRunMessage::NextStep => MessageModel::NextStep,
            FirstRunMessage::PreviousStep => MessageModel::PreviousStep,
            FirstRunMessage::GoTo(s) => MessageModel::GoTo(*s),
            FirstRunMessage::AgreeTos => MessageModel::AgreeTos,
            FirstRunMessage::SetLoading(l) => MessageModel::SetLoading(opt_view(*l)),
            FirstRunMessage::SyncComponentsFinished(r) => MessageModel::SyncComponentsFinished(
                match r {
                    Ok(()) => Ok(()),
                    Err(e) => Err(e@),
                },
            ),
            FirstRunMessage::ShowToast(t) => MessageModel::ShowToast(t@),
            FirstRunMessage::DismissToast => MessageModel::DismissToast,
            FirstRunMessage::OpenDebugFile => MessageModel::OpenDebugFile,
            FirstRunMessage::FinishAndLaunch => MessageModel::FinishAndLaunch,
            FirstRunMessage::ExitApp => MessageModel::ExitApp,
        }
    }
}

/// What the caller has to do after a message was handled.
#[derive(Debug, PartialEq, Eq)]
pub enum FirstRunAction {
    /// Nothing.
    Nothing,
    /// Bring the components index up to date, then send `SyncComponentsFinished`.
    SyncComponentsIndex,
    /// Send `ShowToast` with this toast.
    DeliverToast(ToastData),
    /// Open the debug log file.
    OpenDebugFile,
    /// Remove the first-run marker, start the launcher anew and exit.
    FinishAndLaunch,
    /// Exit the application.
    ExitApp,
}

/// The content of a [`FirstRunAction`].
pub enum ActionModel {
    Nothing,
    SyncComponentsIndex,
    DeliverToast(ToastModel),
    OpenDebugFile,
    FinishAndLaunch,
    ExitApp,
}

impl View for FirstRunAction {
    type V = ActionModel;

    open spec fn view(&self) -> ActionModel {
        match self {
            FirstRunAction::Nothing => ActionModel::Nothing,
            FirstRunAction::SyncComponentsIndex => ActionModel::SyncComponentsIndex,
            FirstRunAction::DeliverToast(t) => ActionModel::DeliverToast(t@),
            FirstRunAction::OpenDebugFile => ActionModel::OpenDebugFile,
            FirstRunAction::FinishAndLaunch => ActionModel::FinishAndLaunch,
            FirstRunAction::ExitApp => ActionModel::ExitApp,
        }
    }
}

/// The state of the wizard.
#[derive(Debug, PartialEq, Eq)]
pub struct FirstRunState {
    pub current_step: Step,
    /// While some work runs: what is being done.
    pub loading: Option<String>,
    pub toast: Option<ToastData>,
}

/// The content of a [`FirstRunState`].
pub struct FirstRunModel {
    pub step: Step,
    pub loading: Option<Seq<char>>,
    pub toast: Option<ToastModel>,
}

impl FirstRunState {
    /// The content of the state.
    pub open spec fn model(&self) -> FirstRunModel {
        FirstRunModel {
            step: self.current_step,
            loading: opt_view(self.loading),
            toast: opt_toast_view(self.toast),
        }
    }
}

/// The step that `NextStep` leads to from `step` (from `DefaultPaths` the step stays: the
/// components index is synced first). From the ToS notice the wizard skips the dependencies
/// page when the needed tools are there.
pub open spec fn next_step(step: Step, dependencies_available: bool) -> Step {
    match step {
        Step::Welcome => Step::TosWarning,
        Step::TosWarning => if dependencies_available {
            Step::DefaultPaths
        } else {
            Step::Dependencies
        },
        Step::Dependencies => Step::DefaultPaths,
        Step::DefaultPaths => Step::DefaultPaths,
        Step::DownloadComponents => Step::Finish,
        Step::Finish => Step::Finish,
    }
}

/// The step that `PreviousStep` leads to from `step`.
pub open spec fn previous_step(step: Step) -> Step {
    match step {
        Step::Welcome => Step::Welcome,
        Step::TosWarning => Step::Welcome,
        Step::Dependencies => Step::TosWarning,
        Step::DefaultPaths => Step::TosWarning,
        Step::DownloadComponents => Step::DefaultPaths,
        Step::Finish => Step::DownloadComponents,
    }
}

/// The text shown while the components index is being synced.
pub open spec fn syncing_text() -> Seq<char> {
    "Updating components index..."@
}

/// The title of the toast shown when the sync failed.
pub open spec fn sync_failed_title() -> Seq<char> {
    "Failed to sync components index"@
}

/// The effect of `NextStep` (and of `AgreeTos`).
pub open spec fn advance(s: FirstRunModel, dependencies_available: bool) -> (
    FirstRunModel,
    ActionModel,
) {
    if s.step == Step::DefaultPaths {
        (FirstRunModel { loading: Some(syncing_text()), ..s }, ActionModel::SyncComponentsIndex)
    } else {
        (
            FirstRunModel { step: next_step(s.step, dependencies_available), ..s },
            ActionModel::Nothing,
        )
    }
}

/// The new state and the action for message `m` in state `s`; `dependencies_available` is
/// whether git, dwebp and 7-Zip are installed.
pub open spec fn first_run_next(s: FirstRunModel, m: MessageModel, dependencies_available: bool) -> (
    FirstRunModel,
    ActionModel,
) {
    match m {
        MessageModel::NextStep => advance(s, dependencies_available),
        MessageModel::AgreeTos => advance(s, dependencies_available),
        MessageModel::PreviousStep => (
            FirstRunModel { step: previous_step(s.step), ..s },
            ActionModel::Nothing,
        ),
        MessageModel::GoTo(t) => (FirstRunModel { step: t, ..s }, ActionModel::Nothing),
        MessageModel::SetLoading(l) => (FirstRunModel { loading: l, ..s }, ActionModel::Nothing),
        MessageModel::SyncComponentsFinished(res) => (
            FirstRunModel { loading: None, step: Step::DownloadComponents, ..s },
            match res {
                Ok(()) => ActionModel::Nothing,
                Err(e) => ActionModel::DeliverToast(
                    ToastModel { title: sync_failed_title(), description: Some(e) },
                ),
            },
        ),
        MessageModel::ShowToast(t) => (FirstRunModel { toast: Some(t), ..s }, ActionModel::Nothing),
        MessageModel::DismissToast => (FirstRunModel { toast: None, ..s }, ActionModel::Nothing),
        MessageModel::OpenDebugFile => (s, ActionModel::OpenDebugFile),
        MessageModel::FinishAndLaunch => (s, ActionModel::FinishAndLaunch),
        MessageModel::ExitApp => (s, ActionModel::ExitApp),
    }
}

/// Whether handling `m` in step `step` looks at the installed tools.
pub open spec fn consults_dependencies(step: Step, m: MessageModel) -> bool {
    step == Step::TosWarning && (m is NextStep || m is AgreeTos)
}

impl FirstRunState {
    /// The wizard at its first page, idle and without a toast.
    pub fn new() -> (r: FirstRunState)
        ensures
            r.current_step == Step::Welcome,
            r.loading is None,
            r.toast is None,
    {
        FirstRunState { current_step: Step::Welcome, loading: None, toast: None }
    }

    /// Whether [`FirstRunState::update`] needs to know if the tools are installed for this
    /// message; where it does not, the value it is given does not matter.
    pub fn needs_dependency_check(&self, message: &FirstRunMessage) -> (r: bool)
        ensures
            r == consults_dependencies(self.current_step, message@),
    {
        match message {
            FirstRunMessage::NextStep | FirstRunMessage::AgreeTos => self.current_step
                == Step::TosWarning,
            _ => false,
        }
    }

    fn advance_step(&mut self, dependencies_available: bool) -> (r: FirstRunAction)
        ensures
            final(self).model() == advance(old(self).model(), dependencies_available).0,
            r@ == advance(old(self).model(), dependencies_available).1,
    {
        match self.current_step {
            Step::Welcome => self.current_step = Step::TosWarning,
            Step::TosWarning => {
                if dependencies_available {
                    self.current_step = Step::DefaultPaths;
                } else {
                    self.current_step = Step::Dependencies;
                }
            },
            Step::Dependencies => self.current_step = Step::DefaultPaths,
            Step::DefaultPaths => {
                self.loading = Some(owned("Updating components index..."));
                return FirstRunAction::SyncComponentsIndex;
            },
            Step::DownloadComponents => self.current_step = Step::Finish,
            Step::Finish => {},
        }
        FirstRunAction::Nothing
    }

    /// Handles one message: changes the state and says what the caller has to do.
    /// `dependencies_available` tells whether git, dwebp and 7z (or 7za) are installed; it is
    /// looked at only where [`FirstRunState::needs_dependency_check`] says so.
    pub fn update(&mut self, message: FirstRunMessage, dependencies_available: bool) -> (r:
        FirstRunAction)
        ensures
            final(self).model() == first_run_next(old(self).model(), message@, dependencies_available).0,
            r@ == first_run_next(old(self).model(), message@, dependencies_available).1,
    {
        match message {
            FirstRunMessage::NextStep => self.advance_step(dependencies_available),
            FirstRunMessage::AgreeTos => self.advance_step(dependencies_available),
            FirstRunMessage::PreviousStep => {
                match self.current_step {
                    Step::TosWarning => self.current_step = Step::Welcome,
                    Step::Dependencies => self.current_step = Step::TosWarning,
                    Step::DefaultPaths => self.current_step = Step::TosWarning,
                    Step::DownloadComponents => self.current_step = Step::DefaultPaths,
                    Step::Finish => self.current_step = Step::DownloadComponents,
                    Step::Welcome => {},
                }
                FirstRunAction::Nothing
            },
            FirstRunMessage::GoTo(step) => {
                self.current_step = step;
                FirstRunAction::Nothing
            },
            FirstRunMessage::SetLoading(status) => {
                self.loading = status;
                FirstRunAction::Nothing
            },
            FirstRunMessage::SyncComponentsFinished(res) => {
                self.loading = None;
                self.current_step = Step::DownloadComponents;
                match res {
                    Ok(()) => FirstRunAction::Nothing,
                    Err(err) => FirstRunAction::DeliverToast(
                        ToastData {
                            title: owned("Failed to sync components index"),
                            description: Some(err),
                        },
                    ),
                }
            },
            FirstRunMessage::ShowToast(toast) => {
                self.toast = Some(toast);
                FirstRunAction::Nothing
            },
            FirstRunMessage::DismissToast => {
                self.toast = None;
                FirstRunAction::Nothing
            },
            FirstRunMessage::OpenDebugFile => FirstRunAction::OpenDebugFile,
            FirstRunMessage::FinishAndLaunch => FirstRunAction::FinishAndLaunch,
            FirstRunMessage::ExitApp => FirstRunAction::ExitApp,
        }
    }
}

/// `AgreeTos` does exactly what `NextStep` does.
pub proof fn law_agree_tos_is_next_step(s: FirstRunModel, dependencies_available: bool)
    ensures
        first_run_next(s, MessageModel::AgreeTos, dependencies_available) == first_run_next(
            s,
            MessageModel::NextStep,
            dependencies_available,
        ),
{
}

/// `NextStep` never moves the wizard back, and `PreviousStep` never moves it forward.
pub proof fn law_steps_move_one_way(s: FirstRunModel, dependencies_available: bool)
    ensures
        first_run_next(s, MessageModel::NextStep, dependencies_available).0.step.position()
            >= s.step.position(),
        first_run_next(s, MessageModel::PreviousStep, dependencies_available).0.step.position()
            <= s.step.position(),
{
}

/// Whether the tools are installed matters only where `needs_dependency_check` says so.
pub proof fn law_dependencies_matter_only_on_tos_page(s: FirstRunModel, m: MessageModel)
    requires
        !consults_dependencies(s.step, m),
    ensures
        first_run_next(s, m, true) == first_run_next(s, m, false),
{
}

/// From the welcome page, the ToS notice and the download page, going back after going
/// forward returns to the page one started from. (Elsewhere it need not: from the
/// dependencies page, forward then back ends on the ToS notice.)
pub proof fn law_back_undoes_next(s: FirstRunModel, dependencies_available: bool)
    requires
        s.step == Step::Welcome || s.step == Step::TosWarning || s.step
            == Step::DownloadComponents,
    ensures
        first_run_next(
            first_run_next(s, MessageModel::NextStep, dependencies_available).0,
            MessageModel::PreviousStep,
            dependencies_available,
        ).0 == s,
{
}

/// Whatever the outcome of the sync, the wizard stops loading and shows the download page;
/// a failure is reported by a toast that carries the error.
pub proof fn law_sync_finish_lands_on_download_page(
    s: FirstRunModel,
    res: Result<(), Seq<char>>,
    dependencies_available: bool,
)
    ensures
        ({
            let (t, a) = first_run_next(
                s,
                MessageModel::SyncComponentsFinished(res),
                dependencies_available,
            );
            &&& t.step == Step::DownloadComponents
            &&& t.loading is None
            &&& t.toast == s.toast
            &&& (a is Nothing) == (res is Ok)
            &&& res matches Err(e) ==> a == ActionModel::DeliverToast(
                ToastModel { title: sync_failed_title(), description: Some(e) },
            )
        }),
{
}

/// A toast that was shown is the one stored, and dismissing it leaves no toast.
pub proof fn law_dismiss_after_show(s: FirstRunModel, t: ToastModel, dependencies_available: bool)
    ensures
        first_run_next(s, MessageModel::ShowToast(t), dependencies_available).0.toast == Some(t),
        first_run_next(
            first_run_next(s, MessageModel::ShowToast(t), dependencies_available).0,
            MessageModel::DismissToast,
            dependencies_available,
        ).0.toast is None,
{
}

/// `NextStep` walks the wizard page by page: welcome to the ToS notice; from the notice to
/// the paths page when git, dwebp and 7-Zip are installed and to the dependencies page when
/// they are not; from the dependencies page to the paths page; on the paths page it stays and
/// starts syncing the components index, showing "Updating components index..."; from the
/// download page to the last page, where it stays. Only the step (or, on the paths page, the
/// loading text) changes.
pub proof fn law_next_step_walk(s: FirstRunModel, deps: bool)
    ensures
        ({
            let (t, a) = first_run_next(s, MessageModel::NextStep, deps);
            &&& t.toast == s.toast
            &&& s.step == Step::Welcome ==> t.step == Step::TosWarning && a is Nothing
            &&& s.step == Step::TosWarning && deps ==> t.step == Step::DefaultPaths && a is Nothing
            &&& s.step == Step::TosWarning && !deps ==> t.step == Step::Dependencies && a is Nothing
            &&& s.step == Step::Dependencies ==> t.step == Step::DefaultPaths && a is Nothing
            &&& s.step == Step::DefaultPaths ==> t.step == Step::DefaultPaths && a is SyncComponentsIndex
                && t.loading == Some("Updating components index..."@)
            &&& s.step == Step::DownloadComponents ==> t.step == Step::Finish && a is Nothing
            &&& s.step == Step::Finish ==> t.step == Step::Finish && a is Nothing
            &&& s.step != Step::DefaultPaths ==> t.loading == s.loading
        }),
{
}

/// `PreviousStep` goes one page back, skipping the dependencies page on the way back from the
/// paths page, and stays on the welcome page; only the step changes.
pub proof fn law_previous_step_walk(s: FirstRunModel, deps: bool)
    ensures
        ({
            let (t, a) = first_run_next(s, MessageModel::PreviousStep, deps);
            &&& a is Nothing
            &&& t.toast == s.toast
            &&& t.loading == s.loading
            &&& s.step == Step::Welcome ==> t.step == Step::Welcome
            &&& s.step == Step::TosWarning ==> t.step == Step::Welcome
            &&& s.step == Step::Dependencies ==> t.step == Step::TosWarning
            &&& s.step == Step::DefaultPaths ==> t.step == Step::TosWarning
            &&& s.step == Step::DownloadComponents ==> t.step == Step::DefaultPaths
            &&& s.step == Step::Finish ==> t.step == Step::DownloadComponents
        }),
{
}

/// `GoTo` shows the page it names, `SetLoading` sets the loading text it carries, and the
/// debug-log, finish and exit messages leave the state as it is and ask for their own action.
pub proof fn law_direct_messages(s: FirstRunModel, step: Step, l: Option<Seq<char>>, deps: bool)
    ensures
        first_run_next(s, MessageModel::GoTo(step), deps).0.step == step,
        first_run_next(s, MessageModel::GoTo(step), deps).0.loading == s.loading,
        first_run_next(s, MessageModel::SetLoading(l), deps).0.loading == l,
        first_run_next(s, MessageModel::SetLoading(l), deps).0.step == s.step,
        first_run_next(s, MessageModel::OpenDebugFile, deps) == (s, ActionModel::OpenDebugFile),
        first_run_next(s, MessageModel::FinishAndLaunch, deps) == (s, ActionModel::FinishAndLaunch),
        first_run_next(s, MessageModel::ExitApp, deps) == (s, ActionModel::ExitApp),
{
}

} // verus!
