//! The application model around the metronome: which context page is
//! selected, whether its drawer is open, the configuration, and the
//! metronome itself.
//!
//! [`AppModel::update`] decides what a [`Message`] does to the model and
//! which [`Effect`] the surrounding program has to carry out. The model draws
//! nothing and opens nothing itself.

use vstd::prelude::*;
use crate::metronome::{Intent, Metronome, MetronomeState};

verus! {

/// The context page to display in the context drawer.
#[derive(Clone, Copy, Debug, PartialEq, Eq, Structural)]
pub enum ContextPage {
    About,
}

impl Default for ContextPage {
    fn default() -> (page: ContextPage)
        ensures
            page == ContextPage::About,
    {
        ContextPage::About
    }
}

impl ContextPage {
    /// The identifier of the message that titles this page. The text shown
    /// to the user is looked up under it in the active language.
    pub fn title(&self) -> (title: String)
        ensures
            title@ == (match *self {
                ContextPage::About => "about"@,
            }),
    {
        match self {
            ContextPage::About => "about".to_owned(),
        }
    }
}

/// An entry of the menu bar.
#[derive(Clone, Copy, Debug, PartialEq, Eq, Structural)]
pub enum MenuAction {
    About,
}

impl MenuAction {
    /// The message that choosing this entry sends.
    pub fn message(&self) -> (message: Message)
        ensures
            message == (match *self {
                MenuAction::About => Message::ToggleContextPage(ContextPage::About),
            }),
    {
        match self {
            MenuAction::About => Message::ToggleContextPage(ContextPage::About),
        }
    }
}

/// The stored configuration. The model keeps the latest one it was given and
/// decides nothing by it.
#[derive(Debug, Default, PartialEq, Eq)]
pub struct Config {
    pub demo: String,
}

impl Clone for Config {
    fn clone(&self) -> (copy: Config)
        ensures
            copy == *self,
    {
        Config { demo: self.demo.clone() }
    }
}

/// What can happen to the application.
#[derive(Debug)]
pub enum Message {
    OpenRepositoryUrl,
    SubscriptionChannel,
    ToggleContextPage(ContextPage),
    UpdateConfig(Config),
    ButtonUpPressed,
    ButtonDownPressed,
    ButtonModePressed,
    ButtonPlayPressed,
}

impl Clone for Message {
    fn clone(&self) -> (copy: Message)
        ensures
            copy == *self,
    {
        match self {
            Message::OpenRepositoryUrl => Message::OpenRepositoryUrl,
            Message::SubscriptionChannel => Message::SubscriptionChannel,
            Message::ToggleContextPage(page) => Message::ToggleContextPage(*page),
            Message::UpdateConfig(config) => Message::UpdateConfig(config.clone()),
            Message::ButtonUpPressed => Message::ButtonUpPressed,
            Message::ButtonDownPressed => Message::ButtonDownPressed,
            Message::ButtonModePressed => Message::ButtonModePressed,
            Message::ButtonPlayPressed => Message::ButtonPlayPressed,
        }
    }
}

/// What the surrounding program has to do once a message has been handled.
#[derive(Clone, Copy, Debug, PartialEq, Eq, Structural)]
pub enum Effect {
    /// Open the project's repository in the user's browser.
    OpenRepositoryUrl,
    /// Set the title of the context drawer to that of the given page.
    SetContextTitle(ContextPage),
}

impl Message {
    /// The intent that a message carries to the metronome: one for each of
    /// the four buttons, none for any other message.
    pub open spec fn spec_intent(self) -> Option<Intent> {
        match self {
            Message::ButtonUpPressed => Some(Intent::Up),
            Message::ButtonDownPressed => Some(Intent::Down),
            Message::ButtonModePressed => Some(Intent::ToggleMode),
            Message::ButtonPlayPressed => Some(Intent::Play),
            _ => None,
        }
    }

    /// The effect that a message asks for, if any. It depends on the message
    /// alone.
    pub open spec fn effect(self) -> Option<Effect> {
        match self {
            Message::OpenRepositoryUrl => Some(Effect::OpenRepositoryUrl),
            Message::ToggleContextPage(page) => Some(Effect::SetContextTitle(page)),
            _ => None,
        }
    }

    /// The metronome's intent behind a button press, `None` for a message that
    /// is no button press.
    pub fn intent(&self) -> (intent: Option<Intent>)
        ensures
            intent == self.spec_intent(),
    {
        match self {
            Message::ButtonUpPressed => Some(Intent::Up),
            Message::ButtonDownPressed => Some(Intent::Down),
            Message::ButtonModePressed => Some(Intent::ToggleMode),
            Message::ButtonPlayPressed => Some(Intent::Play),
            _ => None,
        }
    }
}

/// The application model as a mathematical value.
pub struct AppView {
    pub context_page: ContextPage,
    pub show_context: bool,
    pub config: Config,
    pub metronome: Metronome,
}

impl AppView {
    /// The model that follows `self` on `message`.
    ///
    /// Toggling the page that is already selected opens or closes the drawer;
    /// toggling another page selects it and opens the drawer. A new
    /// configuration replaces the old one. A button press is the metronome's
    /// transition for its intent. No other message changes the model.
    pub open spec fn update(self, message: Message) -> AppView {
        match message {
            Message::ToggleContextPage(page) => AppView {
                context_page: page,
                show_context: self.context_page != page || !self.show_context,
                ..self
            },
            Message::UpdateConfig(config) => AppView { config, ..self },
            _ => match message.spec_intent() {
                Some(intent) => AppView { metronome: self.metronome.apply(intent), ..self },
                None => self,
            },
        }
    }

    /// Whether an [`AppModel`] with this view can take `message`: a button
    /// press has to be one that the metronome accepts.
    pub open spec fn accepts(self, message: Message) -> bool {
        message.spec_intent() matches Some(intent) ==> self.metronome.accepts(intent)
    }

    /// The page that the context drawer shows, if the drawer is open.
    pub open spec fn context_drawer(self) -> Option<ContextPage> {
        if self.show_context {
            Some(self.context_page)
        } else {
            None
        }
    }

    /// The caption of the mode button: the name of the counter that Up and
    /// Down edit.
    pub open spec fn mode_label(self) -> Seq<char> {
        if self.metronome.is_tempo_mode {
            "Tempo"@
        } else {
            "Beats"@
        }
    }
}

/// The application model.
pub struct AppModel {
    /// The page selected for the context drawer.
    pub context_page: ContextPage,
    /// Whether the context drawer is open.
    pub show_context: bool,
    /// The configuration last received.
    pub config: Config,
    /// The metronome's counters and mode.
    pub metronome: MetronomeState,
}

impl View for AppModel {
    type V = AppView;

    open spec fn view(&self) -> AppView {
        AppView {
            context_page: self.context_page,
            show_context: self.show_context,
            config: self.config,
            metronome: self.metronome@,
        }
    }
}

impl AppModel {
    /// Creates the model that an application starts with: the About page
    /// selected, the drawer open or closed as the window has it, the given
    /// configuration, and a metronome in its initial state.
    pub fn init(show_context: bool, config: Config) -> (model: AppModel)
        ensures
            model@ == (AppView {
                context_page: ContextPage::About,
                show_context,
                config,
                metronome: Metronome::initial(),
            }),
    {
        AppModel {
            context_page: ContextPage::default(),
            show_context,
            config,
            metronome: MetronomeState::new(),
        }
    }

    /// Tells whether `message` can be handled in this state, that is whether
    /// the precondition of [`AppModel::update`] holds for it.
    pub fn accepts(&self, message: &Message) -> (ok: bool)
        ensures
            ok == self@.accepts(*message),
    {
        match message.intent() {
            Some(intent) => self.metronome.accepts(intent),
            None => true,
        }
    }

    /// Handles one message to completion and returns what is left for the
    /// surrounding program to do.
    pub fn update(&mut self, message: Message) -> (effect: Option<Effect>)
        requires
            old(self)@.accepts(message),
        ensures
            final(self)@ == old(self)@.update(message),
            final(self)@.metronome.wf(),
            effect == message.effect(),
    {
        proof {
            use_type_invariant(&self.metronome);
        }
        match message {
            Message::OpenRepositoryUrl => Some(Effect::OpenRepositoryUrl),
            Message::SubscriptionChannel => None,
            Message::ToggleContextPage(context_page) => {
                if self.context_page == context_page {
                    // The selected page again: the drawer opens if it was closed
                    // and closes if it was open.
                    self.show_context = !self.show_context;
                } else {
                    // Another page: select it and open the drawer on it.
                    self.context_page = context_page;
                    self.show_context = true;
                }
                Some(Effect::SetContextTitle(context_page))
            },
            Message::UpdateConfig(config) => {
                self.config = config;
                None
            },
            Message::ButtonUpPressed => {
                self.metronome.handle(Intent::Up);
                None
            },
            Message::ButtonDownPressed => {
                self.metronome.handle(Intent::Down);
                None
            },
            Message::ButtonModePressed => {
                self.metronome.handle(Intent::ToggleMode);
                None
            },
            Message::ButtonPlayPressed => {
                self.metronome.handle(Intent::Play);
                None
            },
        }
    }

    /// The page that the context drawer has to show, or `None` while the
    /// drawer is closed.
    pub fn context_drawer(&self) -> (page: Option<ContextPage>)
        ensures
            page == self@.context_drawer(),
    {
        if !self.show_context {
            return None;
        }
        Some(self.context_page)
    }

    /// The caption of the mode button: "Tempo" while Up and Down edit the
    /// tempo, "Beats" while they edit the beats.
    pub fn mode_label(&self) -> (label: &'static str)
        ensures
            label@ == self@.mode_label(),
    {
        if self.metronome.is_tempo_mode() {
            "Tempo"
        } else {
            "Beats"
        }
    }
}

} // verus!
