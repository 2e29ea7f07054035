//! A bar: one rendered status bar, bound to one named output.

use crate::config::{BarConfig, BarConfigView};
use crate::ids::IdGenerator;
use vstd::prelude::*;

verus! {

/// One bar. The toolkit objects that render it are kept beside this record,
/// under the bar's identifier.
#[derive(Debug)]
pub struct Bar {
    id: usize,
    monitor_name: String,
    name: String,
    config: BarConfig,
}

/// The content of a [`Bar`].
pub struct BarView {
    /// The bar's own identifier.
    pub id: usize,
    /// The name of the output that the bar is bound to.
    pub monitor_name: Seq<char>,
    /// The name by which users address the bar.
    pub name: Seq<char>,
    /// The settings that the bar was made from.
    pub config: BarConfigView,
}

impl BarView {
    /// The bar that `config` asks for on the monitor called `monitor`, under
    /// the identifier `id`. It is addressed by the configured name, or by the
    /// monitor's where none is configured.
    pub open spec fn create(config: BarConfigView, monitor: Seq<char>, id: usize) -> BarView {
        BarView {
            id,
            monitor_name: monitor,
            name: match config.name {
                Some(name) => name,
                None => monitor,
            },
            config,
        }
    }
}

impl View for Bar {
    type V = BarView;

    closed spec fn view(&self) -> BarView {
        BarView {
            id: self.id,
            monitor_name: self.monitor_name@,
            name: self.name@,
            config: self.config@,
        }
    }
}

impl Clone for Bar {
    fn clone(&self) -> (copy: Self)
        ensures
            copy@ == self@,
    {
        Bar {
            id: self.id,
            monitor_name: self.monitor_name.clone(),
            name: self.name.clone(),
            config: self.config.clone(),
        }
    }
}

/// The contents of a list of bars, in order.
pub open spec fn bars_view(bars: Seq<Bar>) -> Seq<BarView> {
    bars.map_values(|bar: Bar| bar@)
}

impl Bar {
    /// Makes the bar that `config` asks for on the monitor called
    /// `monitor_name`, and takes its identifier from `ids`.
    pub fn new(monitor_name: &str, config: &BarConfig, ids: &mut IdGenerator) -> (bar: Self)
        ensures
            bar@ == BarView::create(config@, monitor_name@, old(ids).upcoming()),
            final(ids).upcoming() == IdGenerator::successor(old(ids).upcoming()),
    {
        let name: String = match &config.name {
            Some(name) => name.clone(),
            None => monitor_name.to_owned(),
        };
        Bar { id: ids.unique_id(), monitor_name: monitor_name.to_owned(), name, config: config.clone() }
    }

    /// The bar's own identifier.
    pub fn id(&self) -> (id: usize)
        ensures
            id == self@.id,
    {
        self.id
    }

    /// The name of the output that the bar is bound to.
    pub fn monitor_name(&self) -> (name: &str)
        ensures
            name@ == self@.monitor_name,
    {
        self.monitor_name.as_str()
    }

    /// The name by which users address the bar.
    pub fn name(&self) -> (name: &str)
        ensures
            name@ == self@.name,
    {
        self.name.as_str()
    }

    /// Whether the bar is bound to the output called `monitor_name`.
    pub fn is_on_monitor(&self, monitor_name: &String) -> (yes: bool)
        ensures
            yes == (self@.monitor_name == monitor_name@),
    {
        self.monitor_name == *monitor_name
    }

    /// Whether users address the bar as `name`.
    pub fn is_named(&self, name: &String) -> (yes: bool)
        ensures
            yes == (self@.name == name@),
    {
        self.name == *name
    }

    /// The settings that the bar was made from.
    pub fn config(&self) -> (config: &BarConfig)
        ensures
            config@ == self@.config,
    {
        &self.config
    }
}

} // verus!
