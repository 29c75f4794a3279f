//! The window lifecycle controller: which windows to show, close, focus or
//! create, decided from the windows that exist.
//!
//! The controller owns no window. It is handed a `WindowSet`, a record of
//! what a lookup by label finds, and answers with the `WindowAction` to
//! perform. Opening the settings window can take two actions and can
//! fail; `open_settings_window` and `resume_settings` lead through it.

use crate::text::{option_text, outcome_text};
use vstd::prelude::*;
use vstd::string::StringExecFns;

verus! {

/// The label by which a window is looked up.
#[derive(Clone, Copy, PartialEq, Eq, Debug, Structural)]
pub enum WindowLabel {
    Main,
    Splashscreen,
    Settings,
}

/// Whether a window can be seen.
#[derive(Clone, Copy, PartialEq, Eq, Debug, Structural)]
pub enum Visibility {
    Visible,
    Hidden,
    /// The windowing subsystem could not tell.
    Unknown,
}

/// The windows that exist, as lookups by label find them.
#[derive(Clone, Copy, PartialEq, Eq, Debug)]
pub struct WindowSet {
    /// The main window's visibility; `None` where no main window exists.
    pub main: Option<Visibility>,
    /// Whether the splash screen exists.
    pub splashscreen: bool,
    /// Whether the settings window exists.
    pub settings: bool,
}

/// How a window is to be created.
#[derive(PartialEq, Eq, Debug)]
pub struct WindowConfig {
    pub label: WindowLabel,
    /// The page to load, relative to the application's own pages.
    pub url: String,
    pub title: String,
    /// Initial inner size, in logical pixels.
    pub width: u32,
    pub height: u32,
    /// Smallest inner size, in logical pixels.
    pub min_width: u32,
    pub min_height: u32,
    pub resizable: bool,
    /// Whether the window has the native title bar and borders.
    pub decorations: bool,
    pub transparent: bool,
    /// Whether the window is placed in the middle of the screen.
    pub centered: bool,
}

/// One operation on a window.
#[derive(PartialEq, Eq, Debug)]
pub enum WindowAction {
    Show(WindowLabel),
    Close(WindowLabel),
    Focus(WindowLabel),
    /// Deliver an event with a text payload to a window.
    Emit { target: WindowLabel, event: String, payload: String },
    Create(WindowConfig),
}

/// Where the opening of the settings window stands.
#[derive(PartialEq, Eq, Debug)]
pub enum SettingsStep {
    /// The action is to be performed and its outcome reported back.
    Perform(WindowAction),
    /// The command has ended, with success or with the message of the
    /// action that failed.
    Finished(Result<(), String>),
}

/// A `WindowConfig` with its texts as sequences of characters.
pub struct WindowConfigView {
    pub label: WindowLabel,
    pub url: Seq<char>,
    pub title: Seq<char>,
    pub width: u32,
    pub height: u32,
    pub min_width: u32,
    pub min_height: u32,
    pub resizable: bool,
    pub decorations: bool,
    pub transparent: bool,
    pub centered: bool,
}

/// A `WindowAction` with its texts as sequences of characters.
pub enum WindowActionView {
    Show(WindowLabel),
    Close(WindowLabel),
    Focus(WindowLabel),
    Emit { target: WindowLabel, event: Seq<char>, payload: Seq<char> },
    Create(WindowConfigView),
}

/// A `SettingsStep` with its texts as sequences of characters.
pub enum SettingsStepView {
    Perform(WindowActionView),
    Finished(Result<(), Seq<char>>),
}

impl View for WindowConfig {
    type V = WindowConfigView;

    open spec fn view(&self) -> WindowConfigView {
        WindowConfigView {
            label: self.label,
            url: self.url@,
            title: self.title@,
            width: self.width,
            height: self.height,
            min_width: self.min_width,
            min_height: self.min_height,
            resizable: self.resizable,
            decorations: self.decorations,
            transparent: self.transparent,
            centered: self.centered,
        }
    }
}

impl View for WindowAction {
    type V = WindowActionView;

    open spec fn view(&self) -> WindowActionView {
        match self {
            WindowAction::Show(label) => WindowActionView::Show(*label),
            WindowAction::Close(label) => WindowActionView::Close(*label),
            WindowAction::Focus(label) => WindowActionView::Focus(*label),
            WindowAction::Emit { target, event, payload } => WindowActionView::Emit {
                target: *target,
                event: event@,
                payload: payload@,
            },
            WindowAction::Create(config) => WindowActionView::Create(config@),
        }
    }
}

impl View for SettingsStep {
    type V = SettingsStepView;

    open spec fn view(&self) -> SettingsStepView {
        match self {
            SettingsStep::Perform(action) => SettingsStepView::Perform(action@),
            SettingsStep::Finished(outcome) => SettingsStepView::Finished(outcome_text(*outcome)),
        }
    }
}

/// The action of an optional action.
pub open spec fn option_action(action: Option<WindowAction>) -> Option<WindowActionView> {
    match action {
        Some(a) => Some(a@),
        None => None,
    }
}

impl WindowLabel {
    /// The label as the windowing subsystem knows it.
    pub open spec fn name(self) -> Seq<char> {
        match self {
            WindowLabel::Main => "main"@,
            WindowLabel::Splashscreen => "splashscreen"@,
            WindowLabel::Settings => "settings"@,
        }
    }

    /// The label as the windowing subsystem knows it.
    pub fn as_str(self) -> (name: &'static str)
        ensures
            name@ == self.name(),
    {
        match self {
            WindowLabel::Main => "main",
            WindowLabel::Splashscreen => "splashscreen",
            WindowLabel::Settings => "settings",
        }
    }
}

impl WindowSet {
    /// Whether a window with this label exists.
    pub open spec fn has(self, label: WindowLabel) -> bool {
        match label {
            WindowLabel::Main => self.main is Some,
            WindowLabel::Splashscreen => self.splashscreen,
            WindowLabel::Settings => self.settings,
        }
    }

    /// The windows once `action` has been performed with success. Showing
    /// makes the main window visible; closing removes a window; creating
    /// adds one, a main window as a visible one; focusing a window and
    /// delivering an event change none of this. An action on a window that
    /// does not exist changes nothing.
    pub open spec fn after(self, action: WindowActionView) -> WindowSet {
        match action {
            WindowActionView::Show(WindowLabel::Main) => if self.main is Some {
                WindowSet { main: Some(Visibility::Visible), ..self }
            } else {
                self
            },
            WindowActionView::Close(WindowLabel::Main) => WindowSet { main: None, ..self },
            WindowActionView::Close(WindowLabel::Splashscreen) => WindowSet {
                splashscreen: false,
                ..self
            },
            WindowActionView::Close(WindowLabel::Settings) => WindowSet { settings: false, ..self },
            WindowActionView::Create(config) => match config.label {
                WindowLabel::Main => if self.main is Some {
                    self
                } else {
                    WindowSet { main: Some(Visibility::Visible), ..self }
                },
                WindowLabel::Splashscreen => WindowSet { splashscreen: true, ..self },
                WindowLabel::Settings => WindowSet { settings: true, ..self },
            },
            _ => self,
        }
    }

    /// The windows once an optional action has been performed.
    pub open spec fn after_optional(self, action: Option<WindowActionView>) -> WindowSet {
        match action {
            Some(a) => self.after(a),
            None => self,
        }
    }

    /// Records that `action` has been performed with success.
    pub fn apply(&mut self, action: &WindowAction)
        ensures
            *final(self) == old(self).after(action@),
    {
        match action {
            WindowAction::Show(WindowLabel::Main) => {
                if self.main.is_some() {
                    self.main = Some(Visibility::Visible);
                }
            },
            WindowAction::Close(WindowLabel::Main) => {
                self.main = None;
            },
            WindowAction::Close(WindowLabel::Splashscreen) => {
                self.splashscreen = false;
            },
            WindowAction::Close(WindowLabel::Settings) => {
                self.settings = false;
            },
            WindowAction::Create(config) => match config.label {
                WindowLabel::Main => {
                    if self.main.is_none() {
                        self.main = Some(Visibility::Visible);
                    }
                },
                WindowLabel::Splashscreen => {
                    self.splashscreen = true;
                },
                WindowLabel::Settings => {
                    self.settings = true;
                },
            },
            _ => {},
        }
    }
}

/// The page of the settings window: `index.html?window=settings`, followed
/// by `&category=` and the category where one is given. The category is
/// appended as it stands.
pub open spec fn settings_url(category: Option<Seq<char>>) -> Seq<char> {
    match category {
        Some(c) => "index.html?window=settings"@ + "&category="@ + c,
        None => "index.html?window=settings"@,
    }
}

/// How the settings window is created.
pub open spec fn settings_config(category: Option<Seq<char>>) -> WindowConfigView {
    WindowConfigView {
        label: WindowLabel::Settings,
        url: settings_url(category),
        title: "Settings"@,
        width: 600,
        height: 450,
        min_width: 400,
        min_height: 300,
        resizable: true,
        decorations: false,
        transparent: true,
        centered: true,
    }
}

/// What revealing the main window takes: showing it if it is hidden.
pub open spec fn reveal_main(windows: WindowSet) -> Option<WindowActionView> {
    if windows.main == Some(Visibility::Hidden) {
        Some(WindowActionView::Show(WindowLabel::Main))
    } else {
        None
    }
}

/// What dismissing the splash screen takes: closing it if it exists.
pub open spec fn dismiss_splash(windows: WindowSet) -> Option<WindowActionView> {
    if windows.splashscreen {
        Some(WindowActionView::Close(WindowLabel::Splashscreen))
    } else {
        None
    }
}

/// The first action of opening the settings window. Where the window
/// exists: telling it the category, if one is given, and else focusing it.
/// Where it does not: creating it.
pub open spec fn settings_first(windows: WindowSet, category: Option<Seq<char>>)
    -> WindowActionView {
    if windows.settings {
        match category {
            Some(c) => WindowActionView::Emit {
                target: WindowLabel::Settings,
                event: "settings-category-change"@,
                payload: c,
            },
            None => WindowActionView::Focus(WindowLabel::Settings),
        }
    } else {
        WindowActionView::Create(settings_config(category))
    }
}

/// How opening the settings window goes on once `performed` had `outcome`:
/// a failure ends the command with its message; after an event was
/// delivered, its target is focused; any other success ends the command.
pub open spec fn settings_next(performed: WindowActionView, outcome: Result<(), Seq<char>>)
    -> SettingsStepView {
    match outcome {
        Err(message) => SettingsStepView::Finished(Err(message)),
        Ok(_) => match performed {
            WindowActionView::Emit { target, .. } => SettingsStepView::Perform(
                WindowActionView::Focus(target),
            ),
            _ => SettingsStepView::Finished(Ok(())),
        },
    }
}

/// The actions that opening the settings window performs when none fails.
pub open spec fn settings_actions(windows: WindowSet, category: Option<Seq<char>>) -> Seq<
    WindowActionView,
> {
    let first = settings_first(windows, category);
    match settings_next(first, Ok(())) {
        SettingsStepView::Perform(second) => seq![first, second],
        SettingsStepView::Finished(_) => seq![first],
    }
}

/// Shows the main window if it is hidden. Nothing is done where it is
/// visible or where its visibility is unknown.
pub fn show_main_window_if_hidden(windows: &WindowSet) -> (action: Option<WindowAction>)
    requires
        windows.main is Some,
    ensures
        option_action(action) == reveal_main(*windows),
        windows.main == Some(Visibility::Visible) ==> action is None,
{
    match windows.main {
        Some(Visibility::Hidden) => Some(WindowAction::Show(WindowLabel::Main)),
        _ => None,
    }
}

/// Closes the splash screen if it exists.
pub fn close_splashscreen_if_exists(windows: &WindowSet) -> (action: Option<WindowAction>)
    ensures
        option_action(action) == dismiss_splash(*windows),
{
    if windows.splashscreen {
        Some(WindowAction::Close(WindowLabel::Splashscreen))
    } else {
        None
    }
}

/// Begins opening the settings window, and gives the first action to
/// perform; `resume_settings` takes its outcome.
pub fn open_settings_window(windows: &WindowSet, category: Option<String>) -> (action:
    WindowAction)
    ensures
        action@ == settings_first(*windows, option_text(category)),
        windows.settings ==> !(action is Create),
{
    if windows.settings {
        match category {
            Some(c) => WindowAction::Emit {
                target: WindowLabel::Settings,
                event: String::from_str("settings-category-change"),
                payload: c,
            },
            None => WindowAction::Focus(WindowLabel::Settings),
        }
    } else {
        let mut url = String::from_str("index.html?window=settings");
        match &category {
            Some(c) => {
                url.append("&category=");
                url.append(c.as_str());
            },
            None => {},
        }
        WindowAction::Create(
            WindowConfig {
                label: WindowLabel::Settings,
                url,
                title: String::from_str("Settings"),
                width: 600,
                height: 450,
                min_width: 400,
                min_height: 300,
                resizable: true,
                decorations: false,
                transparent: true,
                centered: true,
            },
        )
    }
}

/// Goes on with opening the settings window once `performed` had
/// `outcome`.
pub fn resume_settings(performed: &WindowAction, outcome: Result<(), String>) -> (step:
    SettingsStep)
    ensures
        step@ == settings_next(performed@, outcome_text(outcome)),
        !(step matches SettingsStep::Perform(WindowAction::Create(_))),
{
    match outcome {
        Err(message) => SettingsStep::Finished(Err(message)),
        Ok(_) => match performed {
            WindowAction::Emit { target, .. } => SettingsStep::Perform(
                WindowAction::Focus(*target),
            ),
            _ => SettingsStep::Finished(Ok(())),
        },
    }
}

/// What a second launch of the application does to the running one: it
/// focuses the main window.
pub fn second_instance_launched(windows: &WindowSet) -> (action: WindowAction)
    requires
        windows.main is Some,
    ensures
        action == WindowAction::Focus(WindowLabel::Main),
{
    WindowAction::Focus(WindowLabel::Main)
}

/// The actions of `calls` requests, one after the other, to reveal the
/// main window, each on the windows that the one before it left.
pub open spec fn reveal_main_each(windows: WindowSet, calls: nat) -> Seq<Option<WindowActionView>>
    decreases calls,
{
    if calls == 0 {
        seq![]
    } else {
        let action = reveal_main(windows);
        seq![action] + reveal_main_each(windows.after_optional(action), (calls - 1) as nat)
    }
}

/// The actions of `calls` requests, one after the other, to dismiss the
/// splash screen, each on the windows that the one before it left.
pub open spec fn dismiss_splash_each(windows: WindowSet, calls: nat) -> Seq<
    Option<WindowActionView>,
>
    decreases calls,
{
    if calls == 0 {
        seq![]
    } else {
        let action = dismiss_splash(windows);
        seq![action] + dismiss_splash_each(windows.after_optional(action), (calls - 1) as nat)
    }
}

/// However often the main window is revealed, only the first request shows
/// it, and only if it was hidden; every later request does nothing.
pub proof fn lemma_main_shown_once(windows: WindowSet, calls: nat)
    ensures
        reveal_main_each(windows, calls).len() == calls,
        forall|i: int|
            0 <= i < calls ==> #[trigger] reveal_main_each(windows, calls)[i] == (if i == 0
                && windows.main == Some(Visibility::Hidden) {
                Some(WindowActionView::Show(WindowLabel::Main))
            } else {
                None
            }),
    decreases calls,
{
    if calls > 0 {
        let left = windows.after_optional(reveal_main(windows));
        let rest = reveal_main_each(left, (calls - 1) as nat);
        lemma_main_shown_once(left, (calls - 1) as nat);
        assert forall|i: int| 0 <= i < calls implies #[trigger] reveal_main_each(windows, calls)[i]
            == (if i == 0 && windows.main == Some(Visibility::Hidden) {
            Some(WindowActionView::Show(WindowLabel::Main))
        } else {
            None
        }) by {
            if i > 0 {
                assert(reveal_main_each(windows, calls)[i] == rest[i - 1]);
            }
        }
    }
}

/// However often the splash screen is dismissed, only the first request
/// closes it, and only if it exists; every later request does nothing.
pub proof fn lemma_splash_closed_once(windows: WindowSet, calls: nat)
    ensures
        dismiss_splash_each(windows, calls).len() == calls,
        forall|i: int|
            0 <= i < calls ==> #[trigger] dismiss_splash_each(windows, calls)[i] == (if i == 0
                && windows.splashscreen {
                Some(WindowActionView::Close(WindowLabel::Splashscreen))
            } else {
                None
            }),
    decreases calls,
{
    if calls > 0 {
        let left = windows.after_optional(dismiss_splash(windows));
        let rest = dismiss_splash_each(left, (calls - 1) as nat);
        lemma_splash_closed_once(left, (calls - 1) as nat);
        assert forall|i: int|
            0 <= i < calls implies #[trigger] dismiss_splash_each(windows, calls)[i] == (if i == 0
            && windows.splashscreen {
            Some(WindowActionView::Close(WindowLabel::Splashscreen))
        } else {
            None
        }) by {
            if i > 0 {
                assert(dismiss_splash_each(windows, calls)[i] == rest[i - 1]);
            }
        }
    }
}

/// Where a settings window exists, opening it, with whatever category,
/// creates no window and leaves the windows as they are; and opening it
/// after that with a category delivers that category to the window in a
/// `settings-category-change` event and then focuses the window.
pub proof fn lemma_settings_reopened(
    windows: WindowSet,
    earlier: Option<Seq<char>>,
    category: Seq<char>,
)
    requires
        windows.settings,
    ensures
        forall|i: int|
            0 <= i < settings_actions(windows, earlier).len() ==> !(#[trigger] settings_actions(
                windows,
                earlier,
            )[i] is Create) && windows.after(settings_actions(windows, earlier)[i]) == windows,
        settings_actions(windows, Some(category)) == seq![
            WindowActionView::Emit {
                target: WindowLabel::Settings,
                event: "settings-category-change"@,
                payload: category,
            },
            WindowActionView::Focus(WindowLabel::Settings),
        ],
{
}

/// Where no settings window exists, opening it creates one, with the page
/// of the category asked for; opening it once more creates no second one.
pub proof fn lemma_settings_created_once(
    windows: WindowSet,
    category: Option<Seq<char>>,
    later: Option<Seq<char>>,
)
    requires
        !windows.settings,
    ensures
        settings_actions(windows, category) == seq![
            WindowActionView::Create(settings_config(category)),
        ],
        windows.after(settings_actions(windows, category)[0]).settings,
        forall|i: int|
            0 <= i < settings_actions(
                windows.after(settings_actions(windows, category)[0]),
                later,
            ).len() ==> !(#[trigger] settings_actions(
                windows.after(settings_actions(windows, category)[0]),
                later,
            )[i] is Create),
{
}

} // verus!
