//! The configuration that decides which bars exist on which monitor.

use crate::modules::{ModuleConfig, ModuleConfigView};
use vstd::prelude::*;

verus! {

/// What an optional piece of text says.
pub open spec fn text_view(text: Option<String>) -> Option<Seq<char>> {
    match text {
        Some(s) => Some(s@),
        None => None,
    }
}

/// A copy of an optional piece of text.
pub fn clone_text(text: &Option<String>) -> (copy: Option<String>)
    ensures
        text_view(copy) == text_view(*text),
{
    match text {
        Some(s) => Some(s.clone()),
        None => None,
    }
}

/// Settings that every module accepts, whatever it shows.
#[derive(Debug)]
pub struct CommonConfig {
    /// Name given to the module's widget.
    pub name: Option<String>,
    /// Style class added to the module's widget.
    pub class: Option<String>,
    /// Text shown when the pointer rests on the widget.
    pub tooltip: Option<String>,
}

/// The content of a [`CommonConfig`].
pub struct CommonConfigView {
    pub name: Option<Seq<char>>,
    pub class: Option<Seq<char>>,
    pub tooltip: Option<Seq<char>>,
}

impl CommonConfigView {
    /// The settings of a module that sets none.
    pub open spec fn unset() -> Self {
        CommonConfigView { name: None, class: None, tooltip: None }
    }
}

impl View for CommonConfig {
    type V = CommonConfigView;

    open spec fn view(&self) -> CommonConfigView {
        CommonConfigView {
            name: text_view(self.name),
            class: text_view(self.class),
            tooltip: text_view(self.tooltip),
        }
    }
}

impl Default for CommonConfig {
    fn default() -> (config: Self)
        ensures
            config@ == CommonConfigView::unset(),
    {
        CommonConfig { name: None, class: None, tooltip: None }
    }
}

impl Clone for CommonConfig {
    fn clone(&self) -> (copy: Self)
        ensures
            copy@ == self@,
    {
        CommonConfig {
            name: clone_text(&self.name),
            class: clone_text(&self.class),
            tooltip: clone_text(&self.tooltip),
        }
    }
}

/// What a region of a bar shows.
pub open spec fn region_view(region: Option<Vec<ModuleConfig>>) -> Option<Seq<ModuleConfigView>> {
    match region {
        Some(modules) => Some(modules@.map_values(|m: ModuleConfig| m@)),
        None => None,
    }
}

/// A copy of a region.
pub fn clone_region(region: &Option<Vec<ModuleConfig>>) -> (copy: Option<Vec<ModuleConfig>>)
    ensures
        region_view(copy) == region_view(*region),
{
    match region {
        Some(modules) => {
            let mut out: Vec<ModuleConfig> = Vec::new();
            let mut i: usize = 0;
            while i < modules.len()
                invariant
                    i <= modules.len(),
                    out.len() == i,
                    forall|j: int| 0 <= j < i ==> out[j]@ == modules[j]@,
                decreases modules.len() - i,
            {
                out.push(modules[i].clone());
                i += 1;
            }
            assert(out@.map_values(|m: ModuleConfig| m@) =~= modules@.map_values(
                |m: ModuleConfig| m@,
            ));
            Some(out)
        },
        None => None,
    }
}

/// The settings of one bar.
#[derive(Debug)]
pub struct BarConfig {
    /// The name by which the bar is addressed; the monitor's name where absent.
    pub name: Option<String>,
    /// Modules at the start edge of the bar.
    pub start: Option<Vec<ModuleConfig>>,
    /// Modules in the middle of the bar.
    pub center: Option<Vec<ModuleConfig>>,
    /// Modules at the end edge of the bar.
    pub end: Option<Vec<ModuleConfig>>,
}

/// The content of a [`BarConfig`].
pub struct BarConfigView {
    pub name: Option<Seq<char>>,
    pub start: Option<Seq<ModuleConfigView>>,
    pub center: Option<Seq<ModuleConfigView>>,
    pub end: Option<Seq<ModuleConfigView>>,
}

impl BarConfigView {
    /// Whether at least one of the three regions is configured.
    pub open spec fn has_region(self) -> bool {
        self.start is Some || self.center is Some || self.end is Some
    }

    /// A bar without a name and without regions.
    pub open spec fn unset() -> Self {
        BarConfigView { name: None, start: None, center: None, end: None }
    }
}

impl View for BarConfig {
    type V = BarConfigView;

    open spec fn view(&self) -> BarConfigView {
        BarConfigView {
            name: text_view(self.name),
            start: region_view(self.start),
            center: region_view(self.center),
            end: region_view(self.end),
        }
    }
}

impl Default for BarConfig {
    fn default() -> (config: Self)
        ensures
            config@ == BarConfigView::unset(),
    {
        BarConfig { name: None, start: None, center: None, end: None }
    }
}

impl Clone for BarConfig {
    fn clone(&self) -> (copy: Self)
        ensures
            copy@ == self@,
    {
        BarConfig {
            name: clone_text(&self.name),
            start: clone_region(&self.start),
            center: clone_region(&self.center),
            end: clone_region(&self.end),
        }
    }
}

impl BarConfig {
    /// Whether at least one of the three regions is configured.
    pub fn has_region(&self) -> (yes: bool)
        ensures
            yes == self@.has_region(),
    {
        self.start.is_some() || self.center.is_some() || self.end.is_some()
    }
}

/// The bars of one monitor: a single bar or several.
#[derive(Debug)]
pub enum MonitorConfig {
    /// One bar on the monitor.
    Single(BarConfig),
    /// One bar for each entry, in this order.
    Multiple(Vec<BarConfig>),
}

/// The content of a [`MonitorConfig`].
pub enum MonitorConfigView {
    Single(BarConfigView),
    Multiple(Seq<BarConfigView>),
}

impl MonitorConfigView {
    /// The bars that the entry asks for, in order.
    pub open spec fn bars(self) -> Seq<BarConfigView> {
        match self {
            MonitorConfigView::Single(bar) => seq![bar],
            MonitorConfigView::Multiple(bars) => bars,
        }
    }
}

impl View for MonitorConfig {
    type V = MonitorConfigView;

    open spec fn view(&self) -> MonitorConfigView {
        match self {
            MonitorConfig::Single(bar) => MonitorConfigView::Single(bar@),
            MonitorConfig::Multiple(bars) => MonitorConfigView::Multiple(
                bars@.map_values(|b: BarConfig| b@),
            ),
        }
    }
}

/// One monitor's entry in the configuration.
#[derive(Debug)]
struct MonitorEntry {
    name: String,
    config: MonitorConfig,
}

/// The monitors that a list of entries configures. Where a name occurs more
/// than once, the entry added last counts.
spec fn entries_map(entries: Seq<MonitorEntry>) -> Map<Seq<char>, MonitorConfigView>
    decreases entries.len(),
{
    if entries.len() == 0 {
        Map::empty()
    } else {
        entries_map(entries.drop_last()).insert(entries.last().name@, entries.last().config@)
    }
}

/// The whole configuration: the bar shown on monitors that have no entry of
/// their own, and the entries of those that have.
#[derive(Debug)]
pub struct Config {
    bar: BarConfig,
    monitors: Vec<MonitorEntry>,
}

/// The content of a [`Config`].
pub struct ConfigView {
    pub bar: BarConfigView,
    pub monitors: Map<Seq<char>, MonitorConfigView>,
}

impl ConfigView {
    /// The bars to show on the monitor called `monitor`. An entry for the
    /// monitor decides alone; without one, the default bar is shown if it
    /// configures at least one region, and nothing otherwise.
    pub open spec fn bars_for(self, monitor: Seq<char>) -> Seq<BarConfigView> {
        if self.monitors.contains_key(monitor) {
            self.monitors[monitor].bars()
        } else if self.bar.has_region() {
            seq![self.bar]
        } else {
            Seq::empty()
        }
    }
}

impl View for Config {
    type V = ConfigView;

    closed spec fn view(&self) -> ConfigView {
        ConfigView { bar: self.bar@, monitors: entries_map(self.monitors@) }
    }
}

impl Default for Config {
    fn default() -> (config: Self)
        ensures
            config@ == (ConfigView { bar: BarConfigView::unset(), monitors: Map::empty() }),
    {
        Config { bar: BarConfig::default(), monitors: Vec::new() }
    }
}

impl Config {
    /// A configuration with the default bar `bar` and no monitor entries.
    pub fn new(bar: BarConfig) -> (config: Self)
        ensures
            config@ == (ConfigView { bar: bar@, monitors: Map::empty() }),
    {
        Config { bar, monitors: Vec::new() }
    }

    /// The bar of every monitor without an entry of its own.
    pub fn default_bar(&self) -> (bar: &BarConfig)
        ensures
            bar@ == self@.bar,
    {
        &self.bar
    }

    /// Gives the monitor called `name` the entry `config`, in place of any
    /// entry it had.
    pub fn set_monitor(&mut self, name: String, config: MonitorConfig)
        ensures
            final(self)@ == (ConfigView {
                bar: old(self)@.bar,
                monitors: old(self)@.monitors.insert(name@, config@),
            }),
    {
        let ghost before = self.monitors@;
        self.monitors.push(MonitorEntry { name, config });
        assert(self.monitors@.drop_last() =~= before);
    }

    /// The entry of the monitor called `name`, if it has one.
    pub fn monitor(&self, name: &str) -> (entry: Option<&MonitorConfig>)
        ensures
            entry is Some <==> self@.monitors.contains_key(name@),
            entry matches Some(config) ==> config@ == self@.monitors[name@],
    {
        let wanted: String = name.to_owned();
        let mut i: usize = self.monitors.len();
        assert(self.monitors@.take(i as int) =~= self.monitors@);
        while i > 0
            invariant
                i <= self.monitors.len(),
                wanted@ == name@,
                entries_map(self.monitors@).contains_key(name@) == entries_map(
                    self.monitors@.take(i as int),
                ).contains_key(name@),
                entries_map(self.monitors@).contains_key(name@) ==> entries_map(
                    self.monitors@,
                )[name@] == entries_map(self.monitors@.take(i as int))[name@],
            decreases i,
        {
            let ghost prefix = self.monitors@.take(i as int);
            assert(prefix.drop_last() =~= self.monitors@.take(i - 1));
            assert(prefix.last() == self.monitors@[i - 1]);
            i -= 1;
            if self.monitors[i].name == wanted {
                return Some(&self.monitors[i].config);
            }
        }
        assert(self.monitors@.take(0) =~= Seq::<MonitorEntry>::empty());
        None
    }
}

} // verus!
