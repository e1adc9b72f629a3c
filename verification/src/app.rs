//! The bar as a whole: which menu is open, and the routing of messages to the
//! modules.

use crate::modules::clock;
use crate::modules::clock::Clock;
use crate::modules::settings;
use crate::modules::settings::{effect_of, menu_after, Effect, Settings, SettingsView};
use crate::utils::launcher::PowerAction;
use vstd::prelude::*;

verus! {

/// The menu that is currently shown below the bar.
#[derive(Clone, Copy, Debug, PartialEq, Eq, Structural)]
pub enum OpenMenu {
    Updates,
    Privacy,
    Settings,
}

/// The part of the configuration that the routing reads.
#[derive(Debug, Clone)]
pub struct Config {
    /// The command line of the application launcher, if one is set up.
    pub app_launcher_cmd: Option<String>,
}

/// Everything that the bar reacts to.
#[derive(Debug, Clone)]
pub enum Message {
    Noop,
    ConfigChanged(Box<Config>),
    CloseMenu,
    OpenLauncher,
    Clock(clock::Message),
    Settings(settings::Message),
}

/// What the host has to do after a message was applied.
#[derive(Debug, Clone, PartialEq, Eq)]
pub enum Action {
    Nothing,
    OpenMenu,
    CloseMenu,
    Power(PowerAction),
    /// Run this command line in a shell.
    Launch(String),
}

/// Mathematical model of an `Action`.
#[verifier::ext_equal]
pub enum ActionView {
    Nothing,
    OpenMenu,
    CloseMenu,
    Power(PowerAction),
    Launch(Seq<char>),
}

impl View for Action {
    type V = ActionView;

    open spec fn view(&self) -> ActionView {
        match *self {
            Action::Nothing => ActionView::Nothing,
            Action::OpenMenu => ActionView::OpenMenu,
            Action::CloseMenu => ActionView::CloseMenu,
            Action::Power(action) => ActionView::Power(action),
            Action::Launch(command) => ActionView::Launch(command@),
        }
    }
}

/// The model of an optional command line.
pub open spec fn command_line_view(command: Option<String>) -> Option<Seq<char>> {
    match command {
        Some(c) => Some(c@),
        None => None,
    }
}

/// The action that stands for an effect of the settings module.
pub open spec fn action_of_effect(effect: Effect) -> ActionView {
    match effect {
        Effect::Nothing => ActionView::Nothing,
        Effect::OpenMenu => ActionView::OpenMenu,
        Effect::CloseMenu => ActionView::CloseMenu,
        Effect::Power(action) => ActionView::Power(action),
    }
}

/// Mathematical model of `App`.
#[verifier::ext_equal]
pub struct AppView {
    pub launcher: Option<Seq<char>>,
    pub menu: Option<OpenMenu>,
    pub hour: int,
    pub settings: SettingsView,
}

impl AppView {
    /// The state after a message that arrived at the hour `now_hour` of the
    /// day. Each message changes the part that it is for and nothing else.
    pub open spec fn apply(self, message: Message, now_hour: int) -> AppView {
        match message {
            Message::Noop => self,
            Message::ConfigChanged(config) => AppView {
                launcher: command_line_view(config.app_launcher_cmd),
                ..self
            },
            Message::CloseMenu => AppView { menu: None, ..self },
            Message::OpenLauncher => self,
            Message::Clock(clock::Message::Update) => AppView { hour: now_hour % 24, ..self },
            Message::Settings(inner) => AppView {
                menu: menu_after(self.menu, inner),
                settings: self.settings.apply(inner),
                ..self
            },
        }
    }

    /// What is left to the host after a message.
    pub open spec fn action(self, message: Message) -> ActionView {
        match message {
            Message::CloseMenu => if self.menu is Some {
                ActionView::CloseMenu
            } else {
                ActionView::Nothing
            },
            Message::OpenLauncher => match self.launcher {
                Some(command) => ActionView::Launch(command),
                None => ActionView::Nothing,
            },
            Message::Settings(inner) => action_of_effect(effect_of(self.menu, inner)),
            _ => ActionView::Nothing,
        }
    }
}

/// Only a tick of the clock looks at the hour: every other message leads to
/// the same state at whatever hour it arrives, and a tick changes the hour
/// alone.
pub proof fn lemma_only_a_tick_reads_the_hour(
    state: AppView,
    message: Message,
    hour: int,
    other_hour: int,
)
    ensures
        !(message is Clock) ==> state.apply(message, hour) == state.apply(message, other_hour),
        !(message is Clock) ==> state.apply(message, hour).hour == state.hour,
        message is Clock ==> state.apply(message, hour) == (AppView { hour: hour % 24, ..state }),
{
}

/// The state of the bar. One owner applies one message at a time.
pub struct App {
    config: Config,
    menu: Option<OpenMenu>,
    clock: Clock,
    pub settings: Settings,
}

impl View for App {
    type V = AppView;

    closed spec fn view(&self) -> AppView {
        AppView {
            launcher: command_line_view(self.config.app_launcher_cmd),
            menu: self.menu,
            hour: self.clock.hour(),
            settings: self.settings@,
        }
    }
}

impl App {
    /// The bar at startup: no menu open, the clock at the hour `now_hour`
    /// that the host read, the settings empty.
    pub fn new(config: Config, now_hour: u32) -> (app: App)
        ensures
            app@ == (AppView {
                launcher: command_line_view(config.app_launcher_cmd),
                menu: None,
                hour: (now_hour % 24) as int,
                settings: SettingsView::initial(),
            }),
    {
        App { config, menu: None, clock: Clock::at(now_hour), settings: Settings::new() }
    }

    /// Applies one message, handing it to the module that it is for, and
    /// tells the host what is left for it to do.
    ///
    /// `now_hour` is the hour of the day that the host read when the message
    /// arrived. Only a tick of the clock looks at it.
    pub fn update(&mut self, message: Message, now_hour: u32) -> (action: Action)
        ensures
            final(self)@ == old(self)@.apply(message, now_hour as int),
            action@ == old(self)@.action(message),
    {
        match message {
            Message::Noop => Action::Nothing,
            Message::ConfigChanged(config) => {
                self.config = *config;
                Action::Nothing
            },
            Message::CloseMenu => {
                let was_open = self.menu.is_some();
                self.menu = None;
                if was_open {
                    Action::CloseMenu
                } else {
                    Action::Nothing
                }
            },
            Message::OpenLauncher => {
                match &self.config.app_launcher_cmd {
                    Some(command) => Action::Launch(command.clone()),
                    None => Action::Nothing,
                }
            },
            Message::Clock(inner) => {
                self.clock.update_at(inner, now_hour);
                Action::Nothing
            },
            Message::Settings(inner) => {
                match self.settings.update(inner, &mut self.menu) {
                    Effect::Nothing => Action::Nothing,
                    Effect::OpenMenu => Action::OpenMenu,
                    Effect::CloseMenu => Action::CloseMenu,
                    Effect::Power(action) => Action::Power(action),
                }
            },
        }
    }

    /// The menu that is open.
    pub fn open_menu(&self) -> (menu: Option<OpenMenu>)
        ensures
            menu == self@.menu,
    {
        self.menu
    }

    /// The clock of the bar.
    pub fn clock(&self) -> (clock: &Clock)
        ensures
            clock.hour() == self@.hour,
    {
        &self.clock
    }

    /// The settings module.
    pub fn settings(&self) -> (settings: &Settings)
        ensures
            settings@ == self@.settings,
    {
        &self.settings
    }
}

} // verus!
