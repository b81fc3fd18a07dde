//! The configuration menu: its options, the selected one, and what each key
//! does to it.

use vstd::prelude::*;
use crate::config::AppConfig;
use crate::key::{Event, Key};

verus! {

/// The options of the configuration menu.
#[derive(Debug, Clone, Copy, PartialEq, Eq, Structural)]
pub enum ConfigMenuOptions {
    SaveCurrentConfig,
    SetRefreshRate1s,
}

impl ConfigMenuOptions {
    /// The text of the option.
    pub fn as_str(&self) -> (r: &'static str)
        ensures
            r@ == match self {
                ConfigMenuOptions::SaveCurrentConfig => "Save current config"@,
                ConfigMenuOptions::SetRefreshRate1s => "Set refresh rate to 1s"@,
            },
    {
        match self {
            ConfigMenuOptions::SaveCurrentConfig => "Save current config",
            ConfigMenuOptions::SetRefreshRate1s => "Set refresh rate to 1s",
        }
    }
}

/// The configuration menu and its selected option.
#[derive(Debug)]
pub struct ConfigManagerMenu {
    menu_options: Vec<ConfigMenuOptions>,
    menu_selection: usize,
}

impl ConfigManagerMenu {
    /// There is an option and the selection names one.
    #[verifier::type_invariant]
    spec fn inv(&self) -> bool {
        0 < self.menu_options@.len() && self.menu_selection < self.menu_options@.len()
    }

    pub closed spec fn options_view(&self) -> Seq<ConfigMenuOptions> {
        self.menu_options@
    }

    pub closed spec fn selection_view(&self) -> usize {
        self.menu_selection
    }

    /// Selects the next option, staying on the last.
    fn inc_selection(&mut self)
        ensures
            final(self).options_view() == old(self).options_view(),
            final(self).selection_view() == if old(self).selection_view() + 1 < old(
                self,
            ).options_view().len() {
                (old(self).selection_view() + 1) as usize
            } else {
                old(self).selection_view()
            },
    {
        proof {
            use_type_invariant(&*self);
        }
        if self.menu_selection < self.menu_options.len() - 1 {
            self.menu_selection = self.menu_selection + 1;
        }
    }

    /// Selects the previous option, staying on the first.
    fn dec_selection(&mut self)
        ensures
            final(self).options_view() == old(self).options_view(),
            final(self).selection_view() == if old(self).selection_view() > 0 {
                (old(self).selection_view() - 1) as usize
            } else {
                0
            },
    {
        proof {
            use_type_invariant(&*self);
        }
        self.menu_selection = self.menu_selection.saturating_sub(1);
    }

    pub fn menu_options(&self) -> (r: &Vec<ConfigMenuOptions>)
        ensures
            r@ == self.options_view(),
    {
        &self.menu_options
    }

    pub fn menu_selection(&self) -> (r: usize)
        ensures
            r == self.selection_view(),
            r < self.options_view().len(),
    {
        proof {
            use_type_invariant(self);
        }
        self.menu_selection
    }
}

impl Default for ConfigManagerMenu {
    fn default() -> (r: Self)
        ensures
            r.options_view() == seq![ConfigMenuOptions::SaveCurrentConfig, ConfigMenuOptions::SetRefreshRate1s],
            r.selection_view() == 0,
    {
        ConfigManagerMenu {
            menu_options: vec![ConfigMenuOptions::SaveCurrentConfig, ConfigMenuOptions::SetRefreshRate1s],
            menu_selection: 0,
        }
    }
}

/// The configuration and its menu.
#[derive(Debug)]
pub struct ConfigManagerComponent {
    config: AppConfig,
    menu: ConfigManagerMenu,
}

/// What a key press in the configuration menu gave.
#[derive(Debug, Clone, Copy, PartialEq, Eq, Structural)]
pub enum ConfigManagerEventState {
    Consumed,
    NotConsumed,
    SaveCurrentConfig,
}

impl ConfigManagerComponent {
    pub closed spec fn config_view(&self) -> AppConfig {
        self.config
    }

    pub closed spec fn menu_view(&self) -> (Seq<ConfigMenuOptions>, usize) {
        (self.menu.options_view(), self.menu.selection_view())
    }

    pub fn new(config: AppConfig) -> (r: Self)
        ensures
            r.config_view() == config,
            r.menu_view() == (seq![ConfigMenuOptions::SaveCurrentConfig, ConfigMenuOptions::SetRefreshRate1s], 0usize),
    {
        ConfigManagerComponent { config, menu: ConfigManagerMenu::default() }
    }

    /// The configuration, to edit.
    pub fn mut_app_config(&mut self) -> (r: &mut AppConfig)
        ensures
            *r == old(self).config_view(),
            final(self).config_view() == *final(r),
            final(self).menu_view() == old(self).menu_view(),
    {
        &mut self.config
    }

    /// The configuration.
    pub fn app_config(&self) -> (r: &AppConfig)
        ensures
            *r == self.config_view(),
    {
        &self.config
    }

    /// The menu, to edit.
    pub fn mut_menu(&mut self) -> (r: &mut ConfigManagerMenu)
        ensures
            (r.options_view(), r.selection_view()) == old(self).menu_view(),
            final(self).menu_view() == (final(r).options_view(), final(r).selection_view()),
            final(self).config_view() == old(self).config_view(),
    {
        &mut self.menu
    }

    pub fn menu(&self) -> (r: &ConfigManagerMenu)
        ensures
            (r.options_view(), r.selection_view()) == self.menu_view(),
    {
        &self.menu
    }
}

impl Event for ConfigManagerComponent {
    type EventState = ConfigManagerEventState;

    /// Up and down move the selection within the menu; enter on "save"
    /// asks for the configuration to be saved, and on the refresh rate does
    /// nothing yet.
    fn event(&mut self, key: Key) -> (r: ConfigManagerEventState)
        ensures
            final(self).config_view() == old(self).config_view(),
            final(self).menu_view().0 == old(self).menu_view().0,
            match key {
                Key::Up => r == ConfigManagerEventState::Consumed && final(self).menu_view().1 == (
                if old(self).menu_view().1 > 0 {
                    (old(self).menu_view().1 - 1) as usize
                } else {
                    0
                }),
                Key::Down => r == ConfigManagerEventState::Consumed && final(self).menu_view().1
                    == (if old(self).menu_view().1 + 1 < old(self).menu_view().0.len() {
                    (old(self).menu_view().1 + 1) as usize
                } else {
                    old(self).menu_view().1
                }),
                Key::Enter => final(self).menu_view() == old(self).menu_view() && r == match old(
                    self,
                ).menu_view().0[old(self).menu_view().1 as int] {
                    ConfigMenuOptions::SaveCurrentConfig => ConfigManagerEventState::SaveCurrentConfig,
                    ConfigMenuOptions::SetRefreshRate1s => ConfigManagerEventState::Consumed,
                },
                _ => r == ConfigManagerEventState::NotConsumed && final(self).menu_view() == old(
                    self,
                ).menu_view(),
            },
    {
        match key {
            Key::Up => {
                self.mut_menu().dec_selection();
            },
            Key::Down => {
                self.mut_menu().inc_selection();
            },
            Key::Enter => {
                let sel = self.menu().menu_selection();
                let event = self.menu().menu_options()[sel];
                match event {
                    ConfigMenuOptions::SaveCurrentConfig => {
                        return ConfigManagerEventState::SaveCurrentConfig;
                    },
                    ConfigMenuOptions::SetRefreshRate1s => {},
                }
            },
            _ => {
                return ConfigManagerEventState::NotConsumed;
            },
        }
        ConfigManagerEventState::Consumed
    }
}

} // verus!
