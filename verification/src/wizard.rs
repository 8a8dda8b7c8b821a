//! What each page of the first-run wizard shows: titles, texts, buttons and the messages the
//! buttons send. Drawing them is left to the user interface.
use vstd::prelude::*;

use crate::first_run::{FirstRunMessage, FirstRunState, MessageModel, Step, ToastData};
use crate::text::owned;

verus! {

/// A button: its label and the message it sends.
#[derive(Debug, PartialEq, Eq)]
pub struct ButtonModel {
    pub label: String,
    pub message: FirstRunMessage,
}

/// A page: a title, a text and a row of buttons.
#[derive(Debug, PartialEq, Eq)]
pub struct PageModel {
    pub title: String,
    pub body: String,
    pub buttons: Vec<ButtonModel>,
}

/// The content of a [`PageModel`]: title, text, and the buttons as (label, message).
pub struct PageSpec {
    pub title: Seq<char>,
    pub body: Seq<char>,
    pub buttons: Seq<(Seq<char>, MessageModel)>,
}

impl View for PageModel {
    type V = PageSpec;

    open spec fn view(&self) -> PageSpec {
        PageSpec {
            title: self.title@,
            body: self.body@,
            buttons: self.buttons@.map_values(|b: ButtonModel| (b.label@, b.message@)),
        }
    }
}

/// The text of the welcome page.
pub open spec fn welcome_text() -> Seq<char> {
    "Welcome to Unified Launcher.\nAn open-source, highly optimized launcher designed for Linux."@
}

/// The text of the Terms of Service notice.
pub open spec fn tos_text() -> Seq<char> {
    "Using custom launchers or running the game through Wine/Proton on Linux may technically violate the game's Terms of Service.\n\nWhile the community has not observed bans solely for using this launcher, you proceed at your own risk."@
}

/// The text of the last page.
pub open spec fn finish_text() -> Seq<char> {
    "Configuration has been saved successfully.\nClick Start to launch into the main application."@
}

/// What the page of `step` shows.
pub open spec fn page_for(step: Step) -> PageSpec {
    match step {
        Step::Welcome => PageSpec {
            title: "Unified Launcher"@,
            body: welcome_text(),
            buttons: seq![("Continue"@, MessageModel::NextStep)],
        },
        Step::TosWarning => PageSpec {
            title: "Terms of Service Notice"@,
            body: tos_text(),
            buttons: seq![("Exit"@, MessageModel::ExitApp), ("I Agree"@, MessageModel::AgreeTos)],
        },
        Step::Dependencies => PageSpec {
            title: "Missing Dependencies"@,
            body: "Please install: git, dwebp, 7z (or 7za) using your package manager."@,
            buttons: seq![("Re-check"@, MessageModel::NextStep)],
        },
        Step::DefaultPaths => PageSpec {
            title: "Default Paths Configuration"@,
            body: "Paths are verified and configured."@,
            buttons: seq![("Next"@, MessageModel::NextStep)],
        },
        Step::DownloadComponents => PageSpec {
            title: "Download Game Components"@,
            body: "You can download Wine / DXVK versions now or later in Settings."@,
            buttons: seq![("Finish Setup"@, MessageModel::NextStep)],
        },
        Step::Finish => PageSpec {
            title: "Setup Completed!"@,
            body: finish_text(),
            buttons: seq![
                ("Exit"@, MessageModel::ExitApp),
                ("Start Launcher"@, MessageModel::FinishAndLaunch),
            ],
        },
    }
}

fn button(label: &str, message: FirstRunMessage) -> (r: ButtonModel)
    ensures
        r.label@ == label@,
        r.message == message,
{
    ButtonModel { label: owned(label), message }
}

fn page(title: &str, body: &str, buttons: Vec<ButtonModel>) -> (r: PageModel)
    ensures
        r.title@ == title@,
        r.body@ == body@,
        r.buttons == buttons,
{
    PageModel { title: owned(title), body: owned(body), buttons }
}

fn one_button(label: &str, message: FirstRunMessage) -> (r: Vec<ButtonModel>)
    ensures
        r@.len() == 1,
        r@[0].label@ == label@,
        r@[0].message == message,
{
    let mut v: Vec<ButtonModel> = Vec::new();
    v.push(button(label, message));
    v
}

fn two_buttons(l1: &str, m1: FirstRunMessage, l2: &str, m2: FirstRunMessage) -> (r: Vec<
    ButtonModel,
>)
    ensures
        r@.len() == 2,
        r@[0].label@ == l1@,
        r@[0].message == m1,
        r@[1].label@ == l2@,
        r@[1].message == m2,
{
    let mut v: Vec<ButtonModel> = Vec::new();
    v.push(button(l1, m1));
    v.push(button(l2, m2));
    v
}

/// The welcome page.
pub struct WelcomeView;

impl WelcomeView {
    /// The welcome page: the launcher's name, a short introduction and a "Continue" button.
    pub fn view() -> (r: PageModel)
        ensures
            r@ == page_for(Step::Welcome),
    {
        let r = page(
            "Unified Launcher",
            "Welcome to Unified Launcher.\nAn open-source, highly optimized launcher designed for Linux.",
            one_button("Continue", FirstRunMessage::NextStep),
        );
        assert(r@.buttons =~= page_for(Step::Welcome).buttons);
        r
    }
}

/// The Terms of Service notice.
pub struct TosWarningView;

impl TosWarningView {
    /// Whether the tools the launcher needs are installed: git, dwebp, and 7z or 7za.
    pub fn check_dependencies(git: bool, dwebp: bool, seven_z: bool, seven_za: bool) -> (r: bool)
        ensures
            r == (git && dwebp && (seven_z || seven_za)),
    {
        git && dwebp && (seven_z || seven_za)
    }

    /// The notice: a warning that custom launchers may break the game's Terms of Service,
    /// with "Exit" and "I Agree" buttons.
    pub fn view() -> (r: PageModel)
        ensures
            r@ == page_for(Step::TosWarning),
    {
        let r = page(
            "Terms of Service Notice",
            "Using custom launchers or running the game through Wine/Proton on Linux may technically violate the game's Terms of Service.\n\nWhile the community has not observed bans solely for using this launcher, you proceed at your own risk.",
            two_buttons("Exit", FirstRunMessage::ExitApp, "I Agree", FirstRunMessage::AgreeTos),
        );
        assert(r@.buttons =~= page_for(Step::TosWarning).buttons);
        r
    }
}

/// The last page.
pub struct FinishView;

impl FinishView {
    /// The last page: setup is done, with "Exit" and "Start Launcher" buttons.
    pub fn view() -> (r: PageModel)
        ensures
            r@ == page_for(Step::Finish),
    {
        let r = page(
            "Setup Completed!",
            "Configuration has been saved successfully.\nClick Start to launch into the main application.",
            two_buttons(
                "Exit",
                FirstRunMessage::ExitApp,
                "Start Launcher",
                FirstRunMessage::FinishAndLaunch,
            ),
        );
        assert(r@.buttons =~= page_for(Step::Finish).buttons);
        r
    }
}

/// The page of `step`.
pub fn step_page(step: Step) -> (r: PageModel)
    ensures
        r@ == page_for(step),
{
    match step {
        Step::Welcome => WelcomeView::view(),
        Step::TosWarning => TosWarningView::view(),
        Step::Dependencies => {
            let r = page(
                "Missing Dependencies",
                "Please install: git, dwebp, 7z (or 7za) using your package manager.",
                one_button("Re-check", FirstRunMessage::NextStep),
            );
            assert(r@.buttons =~= page_for(step).buttons);
            r
        },
        Step::DefaultPaths => {
            let r = page(
                "Default Paths Configuration",
                "Paths are verified and configured.",
                one_button("Next", FirstRunMessage::NextStep),
            );
            assert(r@.buttons =~= page_for(step).buttons);
            r
        },
        Step::DownloadComponents => {
            let r = page(
                "Download Game Components",
                "You can download Wine / DXVK versions now or later in Settings.",
                one_button("Finish Setup", FirstRunMessage::NextStep),
            );
            assert(r@.buttons =~= page_for(step).buttons);
            r
        },
        Step::Finish => FinishView::view(),
    }
}

/// The row of dots under the pages: one per step, the current one filled.
pub open spec fn indicator_for(step: Step) -> Seq<bool> {
    Seq::new(6, |i: int| i == step.position())
}

/// The row of dots under the pages for `step`.
pub fn step_indicator(step: Step) -> (r: Vec<bool>)
    ensures
        r@ == indicator_for(step),
{
    let current = step.index();
    let mut r: Vec<bool> = Vec::new();
    let mut i: usize = 0;
    while i < 6
        invariant
            i <= 6,
            current == step.position(),
            r@.len() == i,
            forall|k: int| 0 <= k < i ==> r@[k] == (k == current),
        decreases 6 - i,
    {
        r.push(i == current);
        i = i + 1;
    }
    assert(r@ =~= indicator_for(step));
    r
}

/// A toast as shown: its texts with a "Log" button that opens the debug log and a close
/// button.
#[derive(Debug, PartialEq, Eq)]
pub struct ToastView {
    pub toast: ToastData,
    pub log_button: ButtonModel,
    pub close_button: ButtonModel,
}

/// What the wizard shows.
#[derive(Debug, PartialEq, Eq)]
pub enum FirstRunScreen {
    /// "Please wait..." over what is being done.
    Loading { message: String },
    /// The page of the current step, the step dots, and the toast if there is one.
    Wizard { page: PageModel, indicator: Vec<bool>, toast: Option<ToastView> },
}

impl FirstRunState {
    /// What the wizard shows: while loading, a wait screen with the loading text; otherwise
    /// the current page with its dots and the toast, if any.
    pub fn view(&self) -> (r: FirstRunScreen)
        ensures
            self.loading matches Some(l) ==> (r matches FirstRunScreen::Loading { message } && message@
                == l@),
            self.loading is None ==> (r matches FirstRunScreen::Wizard { page, indicator, toast } && {
                &&& page@ == page_for(self.current_step)
                &&& indicator@ == indicator_for(self.current_step)
                &&& (toast is None) == (self.toast is None)
                &&& toast matches Some(tv) ==> {
                    &&& self.toast == Some(tv.toast)
                    &&& tv.log_button.label@ == "Log"@
                    &&& tv.log_button.message == FirstRunMessage::OpenDebugFile
                    &&& tv.close_button.label@ == "\u{2715}"@
                    &&& tv.close_button.message == FirstRunMessage::DismissToast
                }
            }),
    {
        match &self.loading {
            Some(l) => FirstRunScreen::Loading { message: l.clone() },
            None => {
                let toast = match &self.toast {
                    Some(t) => Some(
                        ToastView {
                            toast: t.clone(),
                            log_button: button("Log", FirstRunMessage::OpenDebugFile),
                            close_button: button("\u{2715}", FirstRunMessage::DismissToast),
                        },
                    ),
                    None => None,
                };
                FirstRunScreen::Wizard {
                    page: step_page(self.current_step),
                    indicator: step_indicator(self.current_step),
                    toast,
                }
            },
        }
    }
}

/// Every button of every page sends what its label says: a button labelled "Exit" quits the
/// application and no other button does; only "I Agree" accepts the Terms of Service; only
/// "Start Launcher" finishes the setup and starts the launcher; every other button moves the
/// wizard on to the next step.
pub proof fn law_buttons_send_what_they_say(step: Step, i: int)
    requires
        0 <= i < page_for(step).buttons.len(),
    ensures
        ({
            let (label, msg) = page_for(step).buttons[i];
            &&& (label == "Exit"@) <==> (msg is ExitApp)
            &&& (label == "I Agree"@) <==> (msg is AgreeTos)
            &&& (label == "Start Launcher"@) <==> (msg is FinishAndLaunch)
            &&& (label != "Exit"@ && label != "I Agree"@ && label != "Start Launcher"@) ==> (msg is NextStep)
        }),
{
    reveal_strlit("Exit");
    reveal_strlit("I Agree");
    reveal_strlit("Start Launcher");
    reveal_strlit("Continue");
    reveal_strlit("Re-check");
    reveal_strlit("Next");
    reveal_strlit("Finish Setup");
    assert("Exit"@.len() == 4);
    assert("I Agree"@.len() == 7);
    assert("Start Launcher"@.len() == 14);
    assert("Continue"@.len() == 8);
    assert("Re-check"@.len() == 8);
    assert("Next"@.len() == 4);
    assert("Finish Setup"@.len() == 12);
    assert("Exit"@[0] == 'E');
    assert("Next"@[0] == 'N');
    assert("Continue"@[0] == 'C');
    assert("Re-check"@[0] == 'R');
}

/// The Terms of Service notice offers "Exit", which quits, and "I Agree", which accepts.
pub proof fn law_tos_page_buttons()
    ensures
        page_for(Step::TosWarning).buttons.len() == 2,
        page_for(Step::TosWarning).buttons[0] == ("Exit"@, MessageModel::ExitApp),
        page_for(Step::TosWarning).buttons[1] == ("I Agree"@, MessageModel::AgreeTos),
{
}

/// The step dots: six of them, and exactly the one of the current step is filled.
pub proof fn law_indicator_marks_current_step(step: Step, i: int)
    requires
        0 <= i < 6,
    ensures
        indicator_for(step).len() == 6,
        indicator_for(step)[i] <==> i == step.position(),
        indicator_for(step)[step.position() as int],
{
}

} // verus!
