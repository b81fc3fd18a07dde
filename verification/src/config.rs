//! The application's configuration: the refresh rate, the stored views and
//! the stored column layout.

use vstd::prelude::*;
use crate::views::{copy_views, ProcessTableView, ProcessTableViews, ViewsModel, ViewsOrientation};

verus! {

/// A refresh interval: whole seconds and nanoseconds beyond them.
pub open spec fn valid_refresh_interval(secs: u64, nanos: u32) -> bool {
    nanos == 0 && (secs == 1 || secs == 2 || secs == 5)
}

/// How often the processes are sampled.
#[derive(Debug, Clone, Copy, PartialEq, Eq, Structural)]
pub struct RefreshRateConfig {
    interval_secs: u64,
    interval_nanos: u32,
}

impl RefreshRateConfig {
    pub closed spec fn interval_view(&self) -> (u64, u32) {
        (self.interval_secs, self.interval_nanos)
    }

    /// Sets the interval when it is one second, two or five; returns
    /// whether it did.
    pub fn set_interval(&mut self, secs: u64, nanos: u32) -> (r: bool)
        ensures
            r == valid_refresh_interval(secs, nanos),
            r ==> final(self).interval_view() == (secs, nanos),
            !r ==> final(self).interval_view() == old(self).interval_view(),
    {
        if nanos == 0 && (secs == 1 || secs == 2 || secs == 5) {
            self.interval_secs = secs;
            self.interval_nanos = nanos;
            true
        } else {
            false
        }
    }

    /// The interval: whole seconds and nanoseconds beyond them.
    pub fn interval(&self) -> (r: (u64, u32))
        ensures
            r == self.interval_view(),
    {
        (self.interval_secs, self.interval_nanos)
    }
}

impl Default for RefreshRateConfig {
    fn default() -> (r: Self)
        ensures
            r.interval_view() == (2u64, 0u32),
    {
        RefreshRateConfig { interval_secs: 2, interval_nanos: 0 }
    }
}

/// The views as they are stored in the configuration.
#[derive(Debug)]
pub struct ProcessTableViewsConfig {
    views: Vec<ProcessTableView>,
    views_selection: usize,
    views_orientation: ViewsOrientation,
    capacity: usize,
}

impl ProcessTableViewsConfig {
    pub closed spec fn model(&self) -> ViewsModel {
        ViewsModel {
            views: self.views@.map_values(|v: ProcessTableView| v@),
            selection: self.views_selection,
            orientation: self.views_orientation,
            capacity: self.capacity,
        }
    }

    /// The stored form of `views`.
    pub fn from_views(views: &ProcessTableViews) -> (r: Self)
        ensures
            r.model() == views@,
    {
        let all = views.views();
        let copy = copy_views(all);
        ProcessTableViewsConfig {
            views: copy,
            views_selection: views.views_selection(),
            views_orientation: *views.views_orientation(),
            capacity: views.capacity(),
        }
    }

    /// The views again; `None` when the stored ones have no view or name
    /// none as active.
    pub fn to_views(&self) -> (r: Option<ProcessTableViews>)
        ensures
            (self.model().views.len() > 0 && self.model().selection < self.model().views.len())
                <==> r is Some,
            r matches Some(v) ==> v@ == self.model(),
    {
        let copy = copy_views(&self.views);
        ProcessTableViews::from_parts(copy, self.views_selection, self.views_orientation, self.capacity)
    }

    /// The stored views, for writing out.
    pub fn views(&self) -> (r: &Vec<ProcessTableView>)
        ensures
            r@.map_values(|v: ProcessTableView| v@) == self.model().views,
    {
        &self.views
    }

    pub fn views_selection(&self) -> (r: usize)
        ensures
            r == self.model().selection,
    {
        self.views_selection
    }

    pub fn views_orientation(&self) -> (r: ViewsOrientation)
        ensures
            r == self.model().orientation,
    {
        self.views_orientation
    }

    pub fn capacity(&self) -> (r: usize)
        ensures
            r == self.model().capacity,
    {
        self.capacity
    }

    /// Stored views as they were read back.
    pub fn from_parts(
        views: Vec<ProcessTableView>,
        views_selection: usize,
        views_orientation: ViewsOrientation,
        capacity: usize,
    ) -> (r: Self)
        ensures
            r.model() == (ViewsModel {
                views: views@.map_values(|v: ProcessTableView| v@),
                selection: views_selection,
                orientation: views_orientation,
                capacity,
            }),
    {
        ProcessTableViewsConfig { views, views_selection, views_orientation, capacity }
    }
}

impl Clone for ProcessTableViewsConfig {
    fn clone(&self) -> (r: Self)
        ensures
            r.model() == self.model(),
    {
        let copy = copy_views(&self.views);
        ProcessTableViewsConfig {
            views: copy,
            views_selection: self.views_selection,
            views_orientation: self.views_orientation,
            capacity: self.capacity,
        }
    }
}

/// The configuration of the application.
#[derive(Debug)]
pub struct AppConfig {
    refresh_rate_config: RefreshRateConfig,
    table_views_config: Option<ProcessTableViewsConfig>,
}

impl AppConfig {
    pub closed spec fn refresh_view(&self) -> RefreshRateConfig {
        self.refresh_rate_config
    }

    pub closed spec fn views_config_view(&self) -> Option<ViewsModel> {
        match self.table_views_config {
            Some(c) => Some(c.model()),
            None => None,
        }
    }

    pub fn new(refresh_rate_config: RefreshRateConfig, table_views_config: Option<ProcessTableViewsConfig>) -> (r: Self)
        ensures
            r.refresh_view() == refresh_rate_config,
            r.views_config_view() == match table_views_config {
                Some(c) => Some(c.model()),
                None => None::<ViewsModel>,
            },
    {
        AppConfig { refresh_rate_config, table_views_config }
    }

    /// Stores a copy of `config` as the views.
    pub fn update_table_views_config(&mut self, config: &ProcessTableViewsConfig)
        ensures
            final(self).refresh_view() == old(self).refresh_view(),
            final(self).views_config_view() == Some(config.model()),
    {
        self.table_views_config = Some(config.clone());
    }

    pub fn refresh_rate_config(&self) -> (r: &RefreshRateConfig)
        ensures
            *r == self.refresh_view(),
    {
        &self.refresh_rate_config
    }

    pub fn tables_views_config(&self) -> (r: &Option<ProcessTableViewsConfig>)
        ensures
            match r {
                Some(c) => self.views_config_view() == Some(c.model()),
                None => self.views_config_view() is None,
            },
    {
        &self.table_views_config
    }
}

impl Default for AppConfig {
    fn default() -> (r: Self)
        ensures
            r.refresh_view().interval_view() == (2u64, 0u32),
            r.views_config_view() is None,
    {
        AppConfig { refresh_rate_config: RefreshRateConfig::default(), table_views_config: None }
    }
}

impl Clone for AppConfig {
    fn clone(&self) -> (r: Self)
        ensures
            r.refresh_view() == self.refresh_view(),
            r.views_config_view() == self.views_config_view(),
    {
        AppConfig {
            refresh_rate_config: self.refresh_rate_config,
            table_views_config: match &self.table_views_config {
                Some(c) => Some(c.clone()),
                None => None,
            },
        }
    }
}

/// The stored column layout, as text read from the configuration file.
#[derive(Debug, Clone)]
pub struct Config {
    columns_config: Option<String>,
}

impl Config {
    pub closed spec fn columns_config_view(&self) -> Option<Seq<char>> {
        match self.columns_config {
            Some(s) => Some(s@),
            None => None,
        }
    }

    /// A configuration holding the column layout read, if any.
    pub fn new(columns_config: Option<String>) -> (r: Self)
        ensures
            r.columns_config_view() == match columns_config {
                Some(s) => Some(s@),
                None => None::<Seq<char>>,
            },
    {
        Config { columns_config }
    }

    pub fn get_columns_config(&self) -> (r: Option<&str>)
        ensures
            match r {
                Some(s) => self.columns_config_view() == Some(s@),
                None => self.columns_config_view() is None,
            },
    {
        match &self.columns_config {
            Some(s) => Some(s.as_str()),
            None => None,
        }
    }
}

} // verus!
