//! The bar lifecycle: which bars exist, as outputs come and go.
//!
//! Output events are handled one at a time, in the order in which they
//! arrive. None is handled before the toolkit has signalled activation and
//! handed over its token: events that arrive earlier wait, and are handled in
//! their order of arrival once it has.

use crate::bar::{bars_view, Bar, BarView};
use crate::config::{BarConfig, BarConfigView, Config, ConfigView, MonitorConfig};
use crate::ids::{nth_id, IdGenerator};
use crate::output::{OutputEvent, OutputEventType, OutputEventView, OutputInfo};
use vstd::prelude::*;

verus! {

/// Why no bars were loaded for an output.
#[derive(Debug, Clone, Copy, PartialEq, Eq, Structural)]
pub enum LoadError {
    /// The output has no name, so no bar can be bound to it.
    MissingMonitorName,
}

impl LoadError {
    /// The error in words, for the log.
    pub fn message(&self) -> (message: &'static str)
        ensures
            message@ == "Output missing monitor name"@,
    {
        match self {
            LoadError::MissingMonitorName => "Output missing monitor name",
        }
    }
}

/// The bars made from `configs` on the monitor called `monitor`, one for
/// each entry and in the same order, with identifiers counted from `first_id`.
pub open spec fn planned_bars(
    configs: Seq<BarConfigView>,
    monitor: Seq<char>,
    first_id: usize,
) -> Seq<BarView> {
    Seq::new(
        configs.len(),
        |i: int| BarView::create(configs[i], monitor, nth_id(first_id, i as nat)),
    )
}

/// Holds of the bars that are not bound to the monitor called `monitor`.
pub open spec fn on_other_monitor(monitor: Seq<char>) -> spec_fn(BarView) -> bool {
    |bar: BarView| bar.monitor_name != monitor
}

/// Holds of the bars that are bound to the monitor called `monitor`.
pub open spec fn on_monitor(monitor: Seq<char>) -> spec_fn(BarView) -> bool {
    |bar: BarView| bar.monitor_name == monitor
}

/// Makes the bars that `config` asks for on the output `output`.
///
/// An output without a name gets none and is reported as an error. A named
/// output gets one bar for each entry that the configuration resolves to for
/// its name, which may be none.
pub fn load_output_bars(config: &Config, output: &OutputInfo, ids: &mut IdGenerator) -> (result:
    Result<Vec<Bar>, LoadError>)
    ensures
        match output@.name {
            None => {
                &&& result matches Err(error)
                &&& error == LoadError::MissingMonitorName
                &&& final(ids).upcoming() == old(ids).upcoming()
            },
            Some(name) => {
                &&& result matches Ok(bars)
                &&& bars_view(bars@) == planned_bars(
                    config@.bars_for(name),
                    name,
                    old(ids).upcoming(),
                )
                &&& final(ids).upcoming() == nth_id(
                    old(ids).upcoming(),
                    config@.bars_for(name).len(),
                )
            },
        },
{
    let monitor_name: &str = match &output.name {
        Some(name) => name.as_str(),
        None => {
            return Err(LoadError::MissingMonitorName);
        },
    };
    let ghost first = ids.upcoming();
    let ghost wanted = config@.bars_for(monitor_name@);
    let mut bars: Vec<Bar> = Vec::new();
    match config.monitor(monitor_name) {
        Some(MonitorConfig::Single(bar_config)) => {
            bars.push(Bar::new(monitor_name, bar_config, ids));
        },
        Some(MonitorConfig::Multiple(configs)) => {
            let mut i: usize = 0;
            while i < configs.len()
                invariant
                    i <= configs.len(),
                    wanted == configs@.map_values(|b: BarConfig| b@),
                    bars.len() == i,
                    ids.upcoming() == nth_id(first, i as nat),
                    forall|j: int|
                        0 <= j < i ==> (#[trigger] bars[j])@ == BarView::create(
                            wanted[j],
                            monitor_name@,
                            nth_id(first, j as nat),
                        ),
                decreases configs.len() - i,
            {
                bars.push(Bar::new(monitor_name, &configs[i], ids));
                i += 1;
            }
        },
        None => {
            if config.default_bar().has_region() {
                bars.push(Bar::new(monitor_name, config.default_bar(), ids));
            }
        },
    }
    assert(ids.upcoming() == nth_id(first, wanted.len())) by {
        reveal_with_fuel(nth_id, 2);
    }
    assert(bars_view(bars@) =~= planned_bars(wanted, monitor_name@, first));
    Ok(bars)
}

/// A copy of a list of bars.
fn clone_bars(bars: &Vec<Bar>) -> (copy: Vec<Bar>)
    ensures
        bars_view(copy@) == bars_view(bars@),
{
    let mut copy: Vec<Bar> = Vec::new();
    let mut i: usize = 0;
    while i < bars.len()
        invariant
            i <= bars.len(),
            copy.len() == i,
            forall|j: int| 0 <= j < i ==> (#[trigger] copy[j])@ == bars[j]@,
        decreases bars.len() - i,
    {
        copy.push(bars[i].clone());
        i += 1;
    }
    assert(bars_view(copy@) =~= bars_view(bars@));
    copy
}

/// Takes the bars bound to the monitor called `monitor_name` out of `bars`
/// and returns them. The others stay, in their order.
fn remove_monitor(bars: &mut Vec<Bar>, monitor_name: &str) -> (removed: Vec<Bar>)
    ensures
        bars_view(final(bars)@) == bars_view(old(bars)@).filter(on_other_monitor(monitor_name@)),
        bars_view(removed@) == bars_view(old(bars)@).filter(on_monitor(monitor_name@)),
{
    let wanted: String = monitor_name.to_owned();
    let mut all: Vec<Bar> = Vec::new();
    core::mem::swap(&mut all, bars);
    let ghost before = bars_view(all@);
    let ghost stays = on_other_monitor(monitor_name@);
    let ghost leaves = on_monitor(monitor_name@);
    let mut removed: Vec<Bar> = Vec::new();
    assert(before.take(0) =~= Seq::<BarView>::empty());
    for bar in it: all
        invariant
            wanted@ == monitor_name@,
            stays == on_other_monitor(monitor_name@),
            leaves == on_monitor(monitor_name@),
            before == bars_view(it.seq()),
            bars_view(bars@) == before.take(it.index() as int).filter(stays),
            bars_view(removed@) == before.take(it.index() as int).filter(leaves),
    {
        proof {
            let done = before.take(it.index() as int);
            assert(before.take(it.index() + 1) =~= done.push(bar@));
            done.lemma_filter_push(bar@, stays);
            done.lemma_filter_push(bar@, leaves);
        }
        let ghost kept_before = bars@;
        let ghost removed_before = removed@;
        if bar.is_on_monitor(&wanted) {
            removed.push(bar);
            assert(bars_view(removed@) =~= bars_view(removed_before).push(bar@));
        } else {
            bars.push(bar);
            assert(bars_view(bars@) =~= bars_view(kept_before).push(bar@));
        }
    }
    assert(before.take(before.len() as int) =~= before);
    removed
}

/// What became of an output event.
#[derive(Debug)]
pub enum Reaction {
    /// The toolkit has not signalled activation yet: the event waits.
    Deferred,
    /// A named output was attached. `bars` are copies of the bars added for
    /// it, which may be none; its monitor is found at `position`.
    Created { position: (i32, i32), bars: Vec<Bar> },
    /// An output was attached that no bar can be bound to.
    Failed { error: LoadError },
    /// A named output was detached. `bars` are the bars that were bound to
    /// it, which may be none.
    Removed { bars: Vec<Bar> },
    /// The event asks for nothing: an update, or the detachment of an output
    /// without a name.
    Ignored,
}

/// The content of a [`Reaction`].
pub enum ReactionView {
    Deferred,
    Created { position: (i32, i32), bars: Seq<BarView> },
    Failed { error: LoadError },
    Removed { bars: Seq<BarView> },
    Ignored,
}

impl View for Reaction {
    type V = ReactionView;

    open spec fn view(&self) -> ReactionView {
        match self {
            Reaction::Deferred => ReactionView::Deferred,
            Reaction::Created { position, bars } => ReactionView::Created {
                position: *position,
                bars: bars_view(bars@),
            },
            Reaction::Failed { error } => ReactionView::Failed { error: *error },
            Reaction::Removed { bars } => ReactionView::Removed { bars: bars_view(bars@) },
            Reaction::Ignored => ReactionView::Ignored,
        }
    }
}

/// The contents of a list of events, in order.
pub open spec fn events_view(events: Seq<OutputEvent>) -> Seq<OutputEventView> {
    events.map_values(|event: OutputEvent| event@)
}

/// The contents of a list of reactions, in order.
pub open spec fn reactions_view(reactions: Seq<Reaction>) -> Seq<ReactionView> {
    reactions.map_values(|reaction: Reaction| reaction@)
}

/// The state of the lifecycle manager.
pub struct IronbarView {
    /// The live bars, in the order in which they were made.
    pub bars: Seq<BarView>,
    /// The active configuration.
    pub config: ConfigView,
    /// The identifier that is handed out next.
    pub next_id: usize,
    /// Whether the toolkit has signalled activation.
    pub activated: bool,
    /// The events that arrived before activation, oldest first.
    pub pending: Seq<OutputEventView>,
}

impl IronbarView {
    /// The state after `event` has been acted on.
    ///
    /// An attached output with a name gets its bars, which are added behind
    /// the live ones. A detached output with a name loses every bar bound to
    /// it; the others keep their order. Any other event changes nothing.
    pub open spec fn process(self, event: OutputEventView) -> IronbarView {
        match (event.event_type, event.output.name) {
            (OutputEventType::New, Some(name)) => IronbarView {
                bars: self.bars + planned_bars(self.config.bars_for(name), name, self.next_id),
                next_id: nth_id(self.next_id, self.config.bars_for(name).len()),
                ..self
            },
            (OutputEventType::Destroyed, Some(name)) => IronbarView {
                bars: self.bars.filter(on_other_monitor(name)),
                ..self
            },
            _ => self,
        }
    }

    /// What is reported when `event` is acted on in this state.
    pub open spec fn reaction(self, event: OutputEventView) -> ReactionView {
        match (event.event_type, event.output.name) {
            (OutputEventType::New, Some(name)) => ReactionView::Created {
                position: event.output.position(),
                bars: planned_bars(self.config.bars_for(name), name, self.next_id),
            },
            (OutputEventType::New, None) => ReactionView::Failed {
                error: LoadError::MissingMonitorName,
            },
            (OutputEventType::Destroyed, Some(name)) => ReactionView::Removed {
                bars: self.bars.filter(on_monitor(name)),
            },
            _ => ReactionView::Ignored,
        }
    }

    /// The state after `events` have been acted on, one after the other,
    /// oldest first.
    pub open spec fn process_all(self, events: Seq<OutputEventView>) -> IronbarView
        decreases events.len(),
    {
        if events.len() == 0 {
            self
        } else {
            self.process_all(events.drop_last()).process(events.last())
        }
    }

    /// What is reported while `events` are acted on, one after the other:
    /// for each event, the reaction in the state that its predecessors left.
    pub open spec fn reactions(self, events: Seq<OutputEventView>) -> Seq<ReactionView> {
        Seq::new(events.len(), |i: int| self.process_all(events.take(i)).reaction(events[i]))
    }

    /// The state after `event` has arrived: acted on once activated, kept
    /// for later before that.
    pub open spec fn handle(self, event: OutputEventView) -> IronbarView {
        if self.activated {
            self.process(event)
        } else {
            IronbarView { pending: self.pending.push(event), ..self }
        }
    }

    /// The state after the toolkit's activation signal: the first signal has
    /// the waiting events acted on in their order of arrival, a later one
    /// changes nothing.
    pub open spec fn activate(self) -> IronbarView {
        if self.activated {
            self
        } else {
            (IronbarView { activated: true, pending: Seq::empty(), ..self }).process_all(
                self.pending,
            )
        }
    }
}

/// The lifecycle manager: the registry of live bars, the configuration that
/// decides which bars an output gets, and the events that wait for
/// activation.
///
/// `Token` is what the toolkit hands over with its activation signal. The
/// manager keeps it for as long as it lives.
#[derive(Debug)]
pub struct Ironbar<Token> {
    bars: Vec<Bar>,
    config: Config,
    ids: IdGenerator,
    token: Option<Token>,
    pending: Vec<OutputEvent>,
}

impl<Token> View for Ironbar<Token> {
    type V = IronbarView;

    closed spec fn view(&self) -> IronbarView {
        IronbarView {
            bars: bars_view(self.bars@),
            config: self.config@,
            next_id: self.ids.upcoming(),
            activated: self.token is Some,
            pending: events_view(self.pending@),
        }
    }
}

impl<Token> Ironbar<Token> {
    /// A manager without bars that awaits activation.
    pub fn new(config: Config) -> (ironbar: Self)
        ensures
            ironbar@ == (IronbarView {
                bars: Seq::empty(),
                config: config@,
                next_id: 1,
                activated: false,
                pending: Seq::empty(),
            }),
    {
        let ironbar = Ironbar {
            bars: Vec::new(),
            config,
            ids: IdGenerator::new(),
            token: None,
            pending: Vec::new(),
        };
        assert(ironbar@.bars =~= Seq::empty());
        assert(ironbar@.pending =~= Seq::empty());
        ironbar
    }

    /// Acts on one event.
    fn process(
        bars: &mut Vec<Bar>,
        config: &Config,
        ids: &mut IdGenerator,
        event: &OutputEvent,
    ) -> (reaction: Reaction)
        ensures
            ({
                let before = IronbarView {
                    bars: bars_view(old(bars)@),
                    config: config@,
                    next_id: old(ids).upcoming(),
                    activated: true,
                    pending: Seq::empty(),
                };
                &&& bars_view(final(bars)@) == before.process(event@).bars
                &&& final(ids).upcoming() == before.process(event@).next_id
                &&& reaction@ == before.reaction(event@)
            }),
    {
        match event.event_type {
            OutputEventType::New => {
                match load_output_bars(config, &event.output, ids) {
                    Ok(mut new_bars) => {
                        let created = clone_bars(&new_bars);
                        bars.append(&mut new_bars);
                        assert(bars_view(bars@) =~= bars_view(old(bars)@) + bars_view(created@));
                        Reaction::Created { position: event.output.position(), bars: created }
                    },
                    Err(error) => Reaction::Failed { error },
                }
            },
            OutputEventType::Destroyed => {
                match &event.output.name {
                    Some(name) => {
                        let removed = remove_monitor(bars, name.as_str());
                        Reaction::Removed { bars: removed }
                    },
                    None => Reaction::Ignored,
                }
            },
            OutputEventType::Update => Reaction::Ignored,
        }
    }

    /// Takes note of an output event.
    ///
    /// Before activation the event is kept for later and nothing else
    /// changes. After activation it is acted on at once.
    pub fn handle_output_event(&mut self, event: OutputEvent) -> (reaction: Reaction)
        ensures
            final(self)@ == old(self)@.handle(event@),
            reaction@ == if old(self)@.activated {
                old(self)@.reaction(event@)
            } else {
                ReactionView::Deferred
            },
    {
        if self.token.is_some() {
            Self::process(&mut self.bars, &self.config, &mut self.ids, &event)
        } else {
            let ghost waiting = self.pending@;
            self.pending.push(event);
            assert(events_view(self.pending@) =~= events_view(waiting).push(event@));
            Reaction::Deferred
        }
    }

    /// Takes note of the toolkit's activation signal, which comes with
    /// `token`.
    ///
    /// The first signal has every waiting event acted on, oldest first, and
    /// returns their reactions in that order; its token is kept. A later
    /// signal does nothing, and its token is let go.
    pub fn activate(&mut self, token: Token) -> (reactions: Vec<Reaction>)
        ensures
            final(self)@ == old(self)@.activate(),
            reactions_view(reactions@) == if old(self)@.activated {
                Seq::<ReactionView>::empty()
            } else {
                (IronbarView { activated: true, pending: Seq::empty(), ..old(self)@ }).reactions(
                    old(self)@.pending,
                )
            },
    {
        let mut reactions: Vec<Reaction> = Vec::new();
        if self.token.is_some() {
            assert(reactions_view(reactions@) =~= Seq::<ReactionView>::empty());
            return reactions;
        }
        self.token = Some(token);
        let ghost start = IronbarView { activated: true, pending: Seq::empty(), ..old(self)@ };
        let ghost events = old(self)@.pending;
        let mut i: usize = 0;
        assert(events.take(0) =~= Seq::<OutputEventView>::empty());
        while i < self.pending.len()
            invariant
                i <= self.pending.len(),
                self.token is Some,
                events == events_view(self.pending@),
                self.config@ == start.config,
                start.activated,
                start.pending == Seq::<OutputEventView>::empty(),
                bars_view(self.bars@) == start.process_all(events.take(i as int)).bars,
                self.ids.upcoming() == start.process_all(events.take(i as int)).next_id,
                start.process_all(events.take(i as int)).config == start.config,
                reactions.len() == i,
                forall|j: int|
                    0 <= j < i ==> (#[trigger] reactions[j])@ == start.process_all(
                        events.take(j),
                    ).reaction(events[j]),
            decreases self.pending.len() - i,
        {
            proof {
                assert(events.take(i + 1).drop_last() =~= events.take(i as int));
                assert(events.take(i + 1).last() == events[i as int]);
            }
            let reaction = Self::process(
                &mut self.bars,
                &self.config,
                &mut self.ids,
                &self.pending[i],
            );
            reactions.push(reaction);
            i += 1;
        }
        assert(events.take(events.len() as int) =~= events);
        self.pending.clear();
        assert(events_view(self.pending@) =~= Seq::<OutputEventView>::empty());
        assert(reactions_view(reactions@) =~= start.reactions(events));
        proof {
            lemma_process_all_keeps(start, events);
        }
        reactions
    }
    /// The first of the live bars that users address as `name`, if there is
    /// one.
    pub fn bar_by_name(&self, name: &str) -> (found: Option<Bar>)
        ensures
            match found {
                Some(bar) => exists|i: int| is_first_named(self@.bars, name@, i) && bar@ == self@.bars[i],
                None => forall|i: int| 0 <= i < self@.bars.len() ==> self@.bars[i].name != name@,
            },
    {
        let wanted: String = name.to_owned();
        let mut i: usize = 0;
        while i < self.bars.len()
            invariant
                i <= self.bars.len(),
                wanted@ == name@,
                forall|j: int| 0 <= j < i ==> bars_view(self.bars@)[j].name != name@,
            decreases self.bars.len() - i,
        {
            if self.bars[i].is_named(&wanted) {
                let bar = self.bars[i].clone();
                assert(is_first_named(self@.bars, name@, i as int));
                return Some(bar);
            }
            i += 1;
        }
        None
    }

    /// Hands out an identifier that no earlier call has returned, as long as
    /// the counter has not wrapped around.
    pub fn unique_id(&mut self) -> (id: usize)
        ensures
            id == old(self)@.next_id,
            final(self)@ == (IronbarView { next_id: IdGenerator::successor(id), ..old(self)@ }),
    {
        self.ids.unique_id()
    }

    /// Replaces the active configuration. The live bars stay as they are;
    /// outputs attached from now on get their bars from `config`.
    pub fn reload_config(&mut self, config: Config)
        ensures
            final(self)@ == (IronbarView { config: config@, ..old(self)@ }),
    {
        self.config = config;
    }

    /// The live bars, in the order in which they were made.
    pub fn bars(&self) -> (bars: &Vec<Bar>)
        ensures
            bars_view(bars@) == self@.bars,
    {
        &self.bars
    }

    /// The active configuration.
    pub fn config(&self) -> (config: &Config)
        ensures
            config@ == self@.config,
    {
        &self.config
    }

    /// Whether the toolkit has signalled activation.
    pub fn is_activated(&self) -> (yes: bool)
        ensures
            yes == self@.activated,
    {
        self.token.is_some()
    }
}

/// Holds where `i` is the place of the first of `bars` that users address as
/// `name`.
pub open spec fn is_first_named(bars: Seq<BarView>, name: Seq<char>, i: int) -> bool {
    &&& 0 <= i < bars.len()
    &&& bars[i].name == name
    &&& forall|j: int| 0 <= j < i ==> bars[j].name != name
}

/// Acting on events changes neither the configuration nor whether the
/// manager is activated, and leaves no event waiting that did not wait.
pub proof fn lemma_process_all_keeps(state: IronbarView, events: Seq<OutputEventView>)
    ensures
        state.process_all(events).config == state.config,
        state.process_all(events).activated == state.activated,
        state.process_all(events).pending == state.pending,
    decreases events.len(),
{
    if events.len() > 0 {
        lemma_process_all_keeps(state, events.drop_last());
    }
}

} // verus!
