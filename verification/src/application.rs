//! The application: the process table and the configuration menu, which of
//! them has the focus, and where each key goes.

use vstd::prelude::*;
use crate::config::{AppConfig, ProcessTableViewsConfig};
use crate::config_manager::{ConfigManagerComponent, ConfigManagerEventState, ConfigMenuOptions};
use crate::error::Error;
use crate::key::{Event, Key};
use crate::process::Process;
use crate::process_table_component::{key_outcome, ProcessTableComponent, ProcessTableEventState};
use crate::views::ProcessTableViews;

verus! {

/// The component that takes the keys.
#[derive(Debug, Clone, Copy, PartialEq, Eq, Structural)]
pub enum Focus {
    Table,
    Config,
}

impl Default for Focus {
    fn default() -> (r: Self)
        ensures
            r == Focus::Table,
    {
        Focus::Table
    }
}

/// What a key press gave the application: whether it was used, or a
/// request to save the configuration, which then holds the current views,
/// or to terminate a process.
#[derive(Debug, Clone, Copy, PartialEq, Eq, Structural)]
pub enum AppEventState {
    Consumed,
    NotConsumed,
    SaveConfig,
    TerminatePid(u32),
}

/// The views that a configuration describes: the stored ones when there
/// are any and they are whole, the default ones when none are stored.
pub fn views_from_config(config: &AppConfig) -> (r: Option<ProcessTableViews>)
    ensures
        match config.views_config_view() {
            None => r matches Some(v) && v@.views.len() == 1 && v@.selection == 0,
            Some(m) => (m.views.len() > 0 && m.selection < m.views.len()) <==> r is Some,
        },
        match (r, config.views_config_view()) {
            (Some(v), Some(m)) => v@ == m,
            _ => true,
        },
{
    match config.tables_views_config() {
        Some(c) => c.to_views(),
        None => Some(ProcessTableViews::default()),
    }
}

/// The application state.
pub struct App {
    process_table: ProcessTableComponent,
    config_manager: ConfigManagerComponent,
    focus: Focus,
}

impl App {
    pub closed spec fn table_component(&self) -> ProcessTableComponent {
        self.process_table
    }

    pub closed spec fn manager(&self) -> ConfigManagerComponent {
        self.config_manager
    }

    pub closed spec fn focus_view(&self) -> Focus {
        self.focus
    }

    /// Builds the application over `processes` with the views that `config`
    /// stores; when those are not whole, with the default configuration
    /// instead.
    pub fn new_with_config(config: AppConfig, processes: Vec<Process>) -> (r: Result<Self, Error>)
        ensures
            r matches Ok(app) && {
                &&& app.focus_view() == Focus::Table
                &&& app.table_component().table_view().processes_view() == processes@.map_values(
                    |p: Process| p@,
                )
                &&& match config.views_config_view() {
                    None => app.table_component().views_view().views.len() == 1
                        && app.manager().config_view() == config,
                    Some(m) => if m.views.len() > 0 && m.selection < m.views.len() {
                        app.table_component().views_view() == m && app.manager().config_view()
                            == config
                    } else {
                        app.table_component().views_view().views.len() == 1
                            && app.manager().config_view().views_config_view() is None
                    },
                }
            },
    {
        let (views, app_config) = match views_from_config(&config) {
            Some(views) => (views, config),
            None => (ProcessTableViews::default(), AppConfig::default()),
        };
        let process_table = ProcessTableComponent::with_views(processes, views);
        let config_manager = ConfigManagerComponent::new(app_config);
        Ok(App { process_table, config_manager, focus: Focus::default() })
    }

    /// Replaces the processes of the table.
    pub fn model_update(&mut self, processes: Vec<Process>) -> (r: Result<(), Error>)
        ensures
            r is Ok,
            final(self).table_component().table_view().processes_view() == processes@.map_values(
                |p: Process| p@,
            ),
            final(self).focus_view() == old(self).focus_view(),
            final(self).manager() == old(self).manager(),
    {
        self.process_table.new_snapshot(processes)
    }

    /// Sends `key` to the component with the focus. A key the table does
    /// not use moves the focus to the menu when it is control-x; a key the
    /// menu does not use moves it back when it is escape. Saving from the
    /// menu first stores the current views in the configuration.
    pub fn key_event(&mut self, key: Key) -> (r: AppEventState)
        ensures
            old(self).focus_view() == Focus::Table ==> {
                &&& final(self).manager() == old(self).manager()
                &&& final(self).table_component().table_view() == old(self).table_component().table_view()
                &&& exists|t: ProcessTableEventState|
                    {
                        &&& key_outcome(
                            old(self).table_component().views_view(),
                            old(self).table_component().table_view().processes_view(),
                            key,
                            final(self).table_component().views_view(),
                            t,
                        )
                        &&& match t {
                            ProcessTableEventState::Consumed => r == AppEventState::Consumed
                                && final(self).focus_view() == Focus::Table,
                            ProcessTableEventState::NotConsumed => if key == Key::Ctrlx {
                                r == AppEventState::Consumed && final(self).focus_view()
                                    == Focus::Config
                            } else {
                                r == AppEventState::NotConsumed && final(self).focus_view()
                                    == Focus::Table
                            },
                            ProcessTableEventState::TerminatePid(_) => r
                                == AppEventState::NotConsumed && final(self).focus_view()
                                == Focus::Table,
                        }
                    }
            },
            old(self).focus_view() == Focus::Config ==> {
                &&& final(self).table_component() == old(self).table_component()
                &&& final(self).manager().menu_view().0 == old(self).manager().menu_view().0
                &&& match key {
                    Key::Up => r == AppEventState::Consumed && final(self).focus_view() == Focus::Config
                        && final(self).manager().config_view() == old(self).manager().config_view()
                        && final(self).manager().menu_view().1 == (if old(self).manager().menu_view().1 > 0 {
                        (old(self).manager().menu_view().1 - 1) as usize
                    } else {
                        0
                    }),
                    Key::Down => r == AppEventState::Consumed && final(self).focus_view() == Focus::Config
                        && final(self).manager().config_view() == old(self).manager().config_view()
                        && final(self).manager().menu_view().1 == (if old(self).manager().menu_view().1 + 1
                        < old(self).manager().menu_view().0.len() {
                        (old(self).manager().menu_view().1 + 1) as usize
                    } else {
                        old(self).manager().menu_view().1
                    }),
                    Key::Enter => final(self).focus_view() == Focus::Config && final(self).manager().menu_view() == old(self).manager().menu_view() && match old(self).manager().menu_view().0[old(self).manager().menu_view().1 as int] {
                        ConfigMenuOptions::SaveCurrentConfig => r == AppEventState::SaveConfig
                            && final(self).manager().config_view().refresh_view() == old(self).manager().config_view().refresh_view() && final(self).manager().config_view().views_config_view() == Some(
                            old(self).table_component().views_view(),
                        ),
                        ConfigMenuOptions::SetRefreshRate1s => r == AppEventState::Consumed
                            && final(self).manager().config_view() == old(self).manager().config_view(),
                    },
                    Key::Esc => r == AppEventState::Consumed && final(self).focus_view()
                        == Focus::Table && final(self).manager().menu_view() == old(self).manager().menu_view()
                        && final(self).manager().config_view() == old(self).manager().config_view(),
                    _ => r == AppEventState::NotConsumed && final(self).focus_view() == Focus::Config
                        && final(self).manager().menu_view() == old(self).manager().menu_view()
                        && final(self).manager().config_view() == old(self).manager().config_view(),
                }
            },
    {
        match self.focus {
            Focus::Table => {
                match self.process_table.event(key) {
                    ProcessTableEventState::TerminatePid(_pid) => {},
                    ProcessTableEventState::NotConsumed => {
                        if key == Key::Ctrlx {
                            self.focus = Focus::Config;
                            return AppEventState::Consumed;
                        }
                    },
                    ProcessTableEventState::Consumed => {
                        return AppEventState::Consumed;
                    },
                }
            },
            Focus::Config => {
                match self.config_manager.event(key) {
                    ConfigManagerEventState::SaveCurrentConfig => {
                        let views_config = ProcessTableViewsConfig::from_views(
                            self.process_table.views(),
                        );
                        self.config_manager.mut_app_config().update_table_views_config(
                            &views_config,
                        );
                        return AppEventState::SaveConfig;
                    },
                    ConfigManagerEventState::NotConsumed => {
                        if key == Key::Esc {
                            self.focus = Focus::Table;
                            return AppEventState::Consumed;
                        }
                    },
                    ConfigManagerEventState::Consumed => {
                        return AppEventState::Consumed;
                    },
                }
            },
        }
        AppEventState::NotConsumed
    }

    pub fn focus(&self) -> (r: Focus)
        ensures
            r == self.focus_view(),
    {
        self.focus
    }

    /// The process table component.
    pub fn process_table(&self) -> (r: &ProcessTableComponent)
        ensures
            *r == self.table_component(),
    {
        &self.process_table
    }

    /// The process table component, to draw.
    pub fn mut_process_table(&mut self) -> (r: &mut ProcessTableComponent)
        ensures
            *r == old(self).table_component(),
            final(self).table_component() == *final(r),
            final(self).manager() == old(self).manager(),
            final(self).focus_view() == old(self).focus_view(),
    {
        &mut self.process_table
    }

    /// The configuration menu component.
    pub fn config_manager(&self) -> (r: &ConfigManagerComponent)
        ensures
            *r == self.manager(),
    {
        &self.config_manager
    }
}

} // verus!
