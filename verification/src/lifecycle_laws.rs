//! What holds of the bar lifecycle, whatever the events and the
//! configuration.

use crate::bar::BarView;
use crate::config::{BarConfigView, ConfigView, MonitorConfigView};
use crate::ids::{lemma_nth_id_counts, nth_id};
use crate::lifecycle::{on_monitor, on_other_monitor, IronbarView, ReactionView};
use crate::output::{OutputEventType, OutputEventView, OutputInfoView};
use vstd::prelude::*;

verus! {

/// The event that reports the output `output` as detached.
pub open spec fn destroyed(output: OutputInfoView) -> OutputEventView {
    OutputEventView { output, event_type: OutputEventType::Destroyed }
}

/// The event that reports the output `output` as attached.
pub open spec fn attached(output: OutputInfoView) -> OutputEventView {
    OutputEventView { output, event_type: OutputEventType::New }
}

/// Detaching an output to which no live bar is bound changes nothing, and
/// reports no bar as removed.
pub proof fn lemma_destroy_without_bars(state: IronbarView, output: OutputInfoView)
    requires
        output.name matches Some(name) ==> forall|i: int|
            0 <= i < state.bars.len() ==> state.bars[i].monitor_name != name,
    ensures
        state.process(destroyed(output)) == state,
        output.name matches Some(name) ==> state.reaction(destroyed(output))
            == (ReactionView::Removed { bars: Seq::empty() }),
{
    if let Some(name) = output.name {
        lemma_filter_all(state.bars, on_other_monitor(name));
        lemma_filter_none(state.bars, on_monitor(name));
    }
}

/// A filter keeps a sequence whole where every item passes.
proof fn lemma_filter_all<A>(s: Seq<A>, pred: spec_fn(A) -> bool)
    requires
        forall|i: int| 0 <= i < s.len() ==> pred(s[i]),
    ensures
        s.filter(pred) == s,
    decreases s.len(),
{
    reveal(Seq::filter);
    if s.len() > 0 {
        lemma_filter_all(s.drop_last(), pred);
        assert(s.drop_last().push(s.last()) =~= s);
    }
}

/// A filter leaves nothing where no item passes.
proof fn lemma_filter_none<A>(s: Seq<A>, pred: spec_fn(A) -> bool)
    requires
        forall|i: int| 0 <= i < s.len() ==> !pred(s[i]),
    ensures
        s.filter(pred) == Seq::<A>::empty(),
    decreases s.len(),
{
    reveal(Seq::filter);
    if s.len() > 0 {
        lemma_filter_none(s.drop_last(), pred);
    }
}

/// After an output was detached, no live bar is bound to it, and every bar
/// that is left was live before.
pub proof fn lemma_destroy_leaves_no_bar(state: IronbarView, name: Seq<char>, i: int)
    requires
        0 <= i < state.bars.filter(on_other_monitor(name)).len(),
    ensures
        state.bars.filter(on_other_monitor(name))[i].monitor_name != name,
        state.bars.contains(state.bars.filter(on_other_monitor(name))[i]),
{
    let left = state.bars.filter(on_other_monitor(name));
    state.bars.lemma_filter_pred(on_other_monitor(name), i);
    assert(left.contains(left[i]));
    state.bars.lemma_filter_contains_rev(on_other_monitor(name), left[i]);
}

/// Detaching an output spares every bar that is bound to another.
pub proof fn lemma_destroy_spares_other_bars(state: IronbarView, name: Seq<char>, i: int)
    requires
        0 <= i < state.bars.len(),
        state.bars[i].monitor_name != name,
    ensures
        state.bars.filter(on_other_monitor(name)).contains(state.bars[i]),
{
    state.bars.lemma_filter_contains(on_other_monitor(name), i);
}

/// Detaching an output treats each stretch of the registry by itself: the
/// bars that stay are those that stay of the front part, followed by those
/// that stay of the back part. So the bars that stay keep their order, and a
/// bar bound to another output is never lost.
pub proof fn lemma_destroy_keeps_order(front: Seq<BarView>, back: Seq<BarView>, name: Seq<char>)
    ensures
        (front + back).filter(on_other_monitor(name)) == front.filter(on_other_monitor(name))
            + back.filter(on_other_monitor(name)),
        forall|bar: BarView|
            bar.monitor_name != name ==> #[trigger] seq![bar].filter(on_other_monitor(name))
                == seq![bar],
        forall|bar: BarView|
            bar.monitor_name == name ==> #[trigger] seq![bar].filter(on_other_monitor(name))
                == Seq::<BarView>::empty(),
{
    Seq::filter_distributes_over_add(front, back, on_other_monitor(name));
    assert forall|bar: BarView| bar.monitor_name != name implies #[trigger] seq![bar].filter(
        on_other_monitor(name),
    ) == seq![bar] by {
        lemma_filter_all(seq![bar], on_other_monitor(name));
    }
    assert forall|bar: BarView| bar.monitor_name == name implies #[trigger] seq![bar].filter(
        on_other_monitor(name),
    ) == Seq::<BarView>::empty() by {
        lemma_filter_none(seq![bar], on_other_monitor(name));
    }
}

/// Detaching the same output twice does no more than detaching it once.
pub proof fn lemma_destroy_twice(state: IronbarView, output: OutputInfoView)
    ensures
        state.process(destroyed(output)).process(destroyed(output)) == state.process(
            destroyed(output),
        ),
{
    if let Some(name) = output.name {
        let left = state.bars.filter(on_other_monitor(name));
        assert forall|i: int| 0 <= i < left.len() implies on_other_monitor(name)(left[i]) by {
            state.bars.lemma_filter_pred(on_other_monitor(name), i);
        }
        lemma_filter_all(left, on_other_monitor(name));
    }
}

/// An entry for a monitor decides alone which bars the monitor gets: the
/// default bar plays no part.
pub proof fn lemma_monitor_entry_wins(config: ConfigView, monitor: Seq<char>)
    requires
        config.monitors.contains_key(monitor),
    ensures
        config.bars_for(monitor) == config.monitors[monitor].bars(),
        config.monitors[monitor] matches MonitorConfigView::Single(bar) ==> config.bars_for(
            monitor,
        ) == seq![bar],
        config.monitors[monitor] matches MonitorConfigView::Multiple(bars) ==> config.bars_for(
            monitor,
        ) == bars,
{
}

/// A monitor without an entry gets the default bar, and only that, where the
/// default bar configures at least one region; it gets no bar where the
/// default bar configures none.
pub proof fn lemma_default_bar_needs_region(config: ConfigView, monitor: Seq<char>)
    requires
        !config.monitors.contains_key(monitor),
    ensures
        config.bar.has_region() ==> config.bars_for(monitor) == seq![config.bar],
        !config.bar.has_region() ==> config.bars_for(monitor) == Seq::<BarConfigView>::empty(),
{
}

/// Attaching a named output adds one bar for each entry that the
/// configuration resolves to for its name, behind the bars that were live.
/// Each is bound to the output, is addressed by its configured name (or the
/// output's), and carries the settings of its entry.
pub proof fn lemma_attach_adds_bars(state: IronbarView, output: OutputInfoView, i: int)
    requires
        output.name is Some,
        0 <= i < state.config.bars_for(output.name->0).len(),
    ensures
        ({
            let name = output.name->0;
            let wanted = state.config.bars_for(name);
            let after = state.process(attached(output));
            let bar = after.bars[state.bars.len() + i];
            &&& after.bars.len() == state.bars.len() + wanted.len()
            &&& after.bars.take(state.bars.len() as int) == state.bars
            &&& bar.monitor_name == name
            &&& bar.config == wanted[i]
            &&& bar.name == match wanted[i].name {
                Some(own) => own,
                None => name,
            }
            &&& bar.id == nth_id(state.next_id, i as nat)
        }),
{
    let name = output.name->0;
    let after = state.process(attached(output));
    assert(after.bars.take(state.bars.len() as int) =~= state.bars);
}

/// Attaching an output without a name adds no bar and changes nothing else;
/// it is reported as an error.
pub proof fn lemma_attach_without_name(state: IronbarView, output: OutputInfoView)
    requires
        output.name is None,
    ensures
        state.process(attached(output)) == state,
        state.reaction(attached(output)) is Failed,
{
}

/// An update of an output changes nothing and is no error.
pub proof fn lemma_update_changes_nothing(state: IronbarView, output: OutputInfoView)
    ensures
        state.process(OutputEventView { output, event_type: OutputEventType::Update }) == state,
        state.reaction(OutputEventView { output, event_type: OutputEventType::Update })
            is Ignored,
{
}

/// Events are acted on strictly in their order: acting on one run of events
/// and then on a second is acting on the two runs joined.
pub proof fn lemma_process_all_in_order(
    state: IronbarView,
    first: Seq<OutputEventView>,
    second: Seq<OutputEventView>,
)
    ensures
        state.process_all(first + second) == state.process_all(first).process_all(second),
    decreases second.len(),
{
    if second.len() == 0 {
        assert(first + second =~= first);
    } else {
        lemma_process_all_in_order(state, first, second.drop_last());
        assert((first + second).drop_last() =~= first + second.drop_last());
        assert((first + second).last() == second.last());
    }
}

/// No event is lost to the activation barrier: an event that arrives before
/// activation leaves, once activation comes, the state that it would have
/// left had it arrived right after.
pub proof fn lemma_deferred_event_is_acted_on(state: IronbarView, event: OutputEventView)
    requires
        !state.activated,
    ensures
        state.handle(event).activate() == state.activate().handle(event),
{
    let ready = IronbarView { activated: true, pending: Seq::empty(), ..state };
    let waiting = state.handle(event);
    crate::lifecycle::lemma_process_all_keeps(ready, state.pending);
    assert(waiting.pending.drop_last() =~= state.pending);
    assert((IronbarView { activated: true, pending: Seq::empty(), ..waiting }) == ready);
}

/// Before activation no event touches the registry.
pub proof fn lemma_nothing_happens_before_activation(state: IronbarView, event: OutputEventView)
    requires
        !state.activated,
    ensures
        state.handle(event).bars == state.bars,
        state.handle(event).next_id == state.next_id,
        !state.handle(event).activated,
{
}

/// The outputs that are attached after `event`, given those that were
/// before. Only named outputs are counted.
pub open spec fn live_after(live: Set<Seq<char>>, event: OutputEventView) -> Set<Seq<char>> {
    match (event.event_type, event.output.name) {
        (OutputEventType::New, Some(name)) => live.insert(name),
        (OutputEventType::Destroyed, Some(name)) => live.remove(name),
        _ => live,
    }
}

/// Every bar is bound to one of the outputs `live`.
pub open spec fn bound_to_live_outputs(bars: Seq<BarView>, live: Set<Seq<char>>) -> bool {
    forall|i: int| 0 <= i < bars.len() ==> live.contains(#[trigger] bars[i].monitor_name)
}

/// Every live bar is bound to an attached output: where that holds before an
/// event, it holds after it. The bars of an output leave the registry with
/// the event that reports the output detached.
pub proof fn lemma_bars_stay_bound_to_live_outputs(
    state: IronbarView,
    live: Set<Seq<char>>,
    event: OutputEventView,
)
    requires
        bound_to_live_outputs(state.bars, live),
    ensures
        bound_to_live_outputs(state.process(event).bars, live_after(live, event)),
{
    let after = state.process(event).bars;
    match (event.event_type, event.output.name) {
        (OutputEventType::Destroyed, Some(name)) => {
            assert forall|i: int| 0 <= i < after.len() implies live.remove(name).contains(
                #[trigger] after[i].monitor_name,
            ) by {
                lemma_destroy_leaves_no_bar(state, name, i);
                let k = choose|k: int| 0 <= k < state.bars.len() && state.bars[k] == after[i];
                assert(live.contains(state.bars[k].monitor_name));
            }
        },
        _ => {},
    }
}

/// No two of the bars have the same identifier.
pub open spec fn distinct_ids(bars: Seq<BarView>) -> bool {
    forall|i: int, j: int| 0 <= i < j < bars.len() ==> bars[i].id != bars[j].id
}

/// No two of the bars are bound to the same output under the same name.
pub open spec fn distinct_names(bars: Seq<BarView>) -> bool {
    forall|i: int, j: int|
        0 <= i < j < bars.len() ==> !(bars[i].monitor_name == bars[j].monitor_name && bars[i].name
            == bars[j].name)
}

/// The identifiers of the bars are distinct and lie below the one that is
/// handed out next.
pub open spec fn ids_in_use(state: IronbarView) -> bool {
    &&& distinct_ids(state.bars)
    &&& forall|i: int| 0 <= i < state.bars.len() ==> state.bars[i].id < state.next_id
}

/// A filter keeps what holds of every two items of a sequence.
proof fn lemma_filter_keeps_pairs<A>(
    s: Seq<A>,
    pred: spec_fn(A) -> bool,
    apart: spec_fn(A, A) -> bool,
)
    requires
        forall|i: int, j: int| 0 <= i < j < s.len() ==> apart(s[i], s[j]),
    ensures
        forall|i: int, j: int|
            0 <= i < j < s.filter(pred).len() ==> apart(s.filter(pred)[i], s.filter(pred)[j]),
    decreases s.len(),
{
    reveal(Seq::filter);
    if s.len() > 0 {
        let front = s.drop_last();
        let kept = front.filter(pred);
        lemma_filter_keeps_pairs(front, pred, apart);
        if pred(s.last()) {
            assert forall|i: int, j: int| 0 <= i < j < s.filter(pred).len() implies apart(
                s.filter(pred)[i],
                s.filter(pred)[j],
            ) by {
                if j == kept.len() {
                    assert(kept.contains(kept[i]));
                    front.lemma_filter_contains_rev(pred, kept[i]);
                    let k = choose|k: int| 0 <= k < front.len() && front[k] == kept[i];
                    assert(apart(s[k], s[s.len() - 1]));
                }
            }
        }
    }
}

/// Detaching an output leaves the identifiers of the bars distinct, and
/// leaves no two bars on one output under one name where there were none.
pub proof fn lemma_destroy_keeps_bars_apart(state: IronbarView, output: OutputInfoView)
    ensures
        ids_in_use(state) ==> ids_in_use(state.process(destroyed(output))),
        distinct_names(state.bars) ==> distinct_names(state.process(destroyed(output)).bars),
{
    if let Some(name) = output.name {
        let after = state.bars.filter(on_other_monitor(name));
        if ids_in_use(state) {
            lemma_filter_keeps_pairs(
                state.bars,
                on_other_monitor(name),
                |a: BarView, b: BarView| a.id != b.id,
            );
            assert forall|i: int| 0 <= i < after.len() implies after[i].id < state.next_id by {
                lemma_destroy_leaves_no_bar(state, name, i);
                let k = choose|k: int| 0 <= k < state.bars.len() && state.bars[k] == after[i];
                assert(state.bars[k].id < state.next_id);
            }
        }
        if distinct_names(state.bars) {
            lemma_filter_keeps_pairs(
                state.bars,
                on_other_monitor(name),
                |a: BarView, b: BarView| !(a.monitor_name == b.monitor_name && a.name == b.name),
            );
        }
    }
}

/// The name by which a bar made from `config` on the output `monitor` is
/// addressed.
pub open spec fn bar_name(config: BarConfigView, monitor: Seq<char>) -> Seq<char> {
    match config.name {
        Some(name) => name,
        None => monitor,
    }
}

/// Attaching an output gives its bars identifiers that no live bar has, as
/// long as the counter does not wrap around.
pub proof fn lemma_attach_keeps_ids_apart(state: IronbarView, output: OutputInfoView)
    requires
        ids_in_use(state),
        output.name matches Some(name) ==> state.next_id + state.config.bars_for(name).len()
            <= usize::MAX,
    ensures
        ids_in_use(state.process(attached(output))),
{
    if let Some(name) = output.name {
        let wanted = state.config.bars_for(name);
        let after = state.process(attached(output));
        lemma_nth_id_counts(state.next_id, wanted.len());
        assert forall|i: int| 0 <= i < after.bars.len() implies after.bars[i].id == (if i
            < state.bars.len() {
            state.bars[i].id as int
        } else {
            state.next_id + (i - state.bars.len())
        }) by {
            if i >= state.bars.len() {
                lemma_nth_id_counts(state.next_id, (i - state.bars.len()) as nat);
            }
        }
    }
}

/// Attaching an output to which no live bar is bound, with settings that
/// give its bars names that differ from each other, leaves no two bars on
/// one output under one name where there were none.
///
/// Without these conditions nothing of the kind holds: two entries of one
/// monitor that set the same name, or none, give two bars that are told
/// apart by their identifiers only.
pub proof fn lemma_attach_keeps_names_apart(state: IronbarView, output: OutputInfoView)
    requires
        distinct_names(state.bars),
        output.name matches Some(name) ==> {
            &&& forall|i: int| 0 <= i < state.bars.len() ==> state.bars[i].monitor_name != name
            &&& forall|i: int, j: int|
                0 <= i < j < state.config.bars_for(name).len() ==> bar_name(
                    state.config.bars_for(name)[i],
                    name,
                ) != bar_name(state.config.bars_for(name)[j], name)
        },
    ensures
        distinct_names(state.process(attached(output)).bars),
{
}

/// The outputs that are attached after `events`, oldest first, given those
/// that were before.
pub open spec fn live_after_all(live: Set<Seq<char>>, events: Seq<OutputEventView>) -> Set<
    Seq<char>,
>
    decreases events.len(),
{
    if events.len() == 0 {
        live
    } else {
        live_after(live_after_all(live, events.drop_last()), events.last())
    }
}

/// However outputs come and go, every live bar is bound to an output that is
/// attached. In particular a manager that starts without bars never holds a
/// bar of an output that is gone.
pub proof fn lemma_bars_are_always_bound_to_live_outputs(
    state: IronbarView,
    live: Set<Seq<char>>,
    events: Seq<OutputEventView>,
)
    requires
        bound_to_live_outputs(state.bars, live),
    ensures
        bound_to_live_outputs(state.process_all(events).bars, live_after_all(live, events)),
    decreases events.len(),
{
    if events.len() > 0 {
        lemma_bars_are_always_bound_to_live_outputs(state, live, events.drop_last());
        lemma_bars_stay_bound_to_live_outputs(
            state.process_all(events.drop_last()),
            live_after_all(live, events.drop_last()),
            events.last(),
        );
    }
}

/// An event that cannot be acted on stops nothing: the events after it are
/// acted on as if it had not come.
pub proof fn lemma_failed_event_stops_nothing(
    state: IronbarView,
    earlier: Seq<OutputEventView>,
    output: OutputInfoView,
    later: Seq<OutputEventView>,
)
    requires
        output.name is None,
    ensures
        state.process_all(earlier.push(attached(output)) + later) == state.process_all(
            earlier + later,
        ),
{
    lemma_process_all_in_order(state, earlier.push(attached(output)), later);
    lemma_process_all_in_order(state, earlier, later);
    assert(earlier.push(attached(output)).drop_last() =~= earlier);
}

} // verus!
