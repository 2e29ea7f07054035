//! What holds of the bridge between a controller and its widgets, whatever
//! the order in which updates are sent and received.

use crate::modules::{lemma_least_cursor, ModuleUpdateEvent, WidgetContextView};
use vstd::prelude::*;

verus! {

/// One thing that happens to a widget context.
pub enum Step<TSend> {
    /// The controller sends an update with this value.
    Send(TSend),
    /// A subscription is made.
    Subscribe,
    /// The subscription with this number asks for its next update.
    Receive(int),
    /// The updates that every subscription has received are forgotten.
    Forget,
}

/// The state after `step` has happened in the state `context`.
pub open spec fn after_step<TSend, TReceive>(
    context: WidgetContextView<TSend, TReceive>,
    step: Step<TSend>,
) -> WidgetContextView<TSend, TReceive> {
    match step {
        Step::Send(value) => context.send(ModuleUpdateEvent::Update(value)),
        Step::Subscribe => context.subscribe(),
        Step::Receive(s) => context.receive(s),
        Step::Forget => context.forget(context.received_by_all()),
    }
}

/// The state after `steps` have happened one after the other, oldest first.
pub open spec fn after_steps<TSend, TReceive>(
    context: WidgetContextView<TSend, TReceive>,
    steps: Seq<Step<TSend>>,
) -> WidgetContextView<TSend, TReceive>
    decreases steps.len(),
{
    if steps.len() == 0 {
        context
    } else {
        after_step(after_steps(context, steps.drop_last()), steps.last())
    }
}

/// The values that the controller sends in the course of `steps`, oldest
/// first.
pub open spec fn values_sent<TSend>(steps: Seq<Step<TSend>>) -> Seq<TSend>
    decreases steps.len(),
{
    if steps.len() == 0 {
        Seq::empty()
    } else {
        match steps.last() {
            Step::Send(value) => values_sent(steps.drop_last()).push(value),
            _ => values_sent(steps.drop_last()),
        }
    }
}

/// The values that the subscription `s` is handed in the course of `steps`,
/// oldest first.
pub open spec fn values_received<TSend, TReceive>(
    context: WidgetContextView<TSend, TReceive>,
    steps: Seq<Step<TSend>>,
    s: int,
) -> Seq<TSend>
    decreases steps.len(),
{
    if steps.len() == 0 {
        Seq::empty()
    } else {
        let earlier = values_received(context, steps.drop_last(), s);
        match (steps.last(), after_steps(context, steps.drop_last()).next(s)) {
            (Step::Receive(t), Some(value)) if t == s => earlier.push(value),
            _ => earlier,
        }
    }
}

/// A context without subscriptions and without updates is well formed.
pub proof fn lemma_fresh_context_is_well_formed<TSend, TReceive>(
    context: WidgetContextView<TSend, TReceive>,
)
    requires
        context.sent.len() == 0,
        context.cursors.len() == 0,
    ensures
        context.wf(),
{
}

/// Nothing that happens to a well-formed context makes it ill formed or
/// takes a subscription away.
pub proof fn lemma_step_keeps_well_formed<TSend, TReceive>(
    context: WidgetContextView<TSend, TReceive>,
    step: Step<TSend>,
)
    requires
        context.wf(),
    ensures
        after_step(context, step).wf(),
        after_step(context, step).cursors.len() >= context.cursors.len(),
{
    lemma_least_cursor(context.cursors, context.sent.len());
}

/// Forgetting what every subscription has received takes nothing from what
/// any of them has yet to receive.
pub proof fn lemma_forget_keeps_backlogs<TSend, TReceive>(
    context: WidgetContextView<TSend, TReceive>,
    s: int,
)
    requires
        context.wf(),
        context.is_subscription(s),
    ensures
        context.forget(context.received_by_all()).backlog(s) == context.backlog(s),
        context.forget(context.received_by_all()).next(s) == context.next(s),
{
    lemma_least_cursor(context.cursors, context.sent.len());
    assert(context.forget(context.received_by_all()).backlog(s) =~= context.backlog(s));
}

/// A new subscription has nothing to receive until the controller sends
/// again, and it does not touch what the others have to receive.
pub proof fn lemma_subscription_starts_empty<TSend, TReceive>(
    context: WidgetContextView<TSend, TReceive>,
    other: int,
)
    requires
        context.wf(),
        context.is_subscription(other),
    ensures
        context.subscribe().is_subscription(context.cursors.len() as int),
        context.subscribe().backlog(context.cursors.len() as int) == Seq::<TSend>::empty(),
        context.subscribe().next(context.cursors.len() as int) is None,
        context.subscribe().backlog(other) == context.backlog(other),
{
    assert(context.subscribe().backlog(context.cursors.len() as int) =~= Seq::<TSend>::empty());
}

/// An update reaches every subscription: it is added behind what each has
/// yet to receive.
pub proof fn lemma_send_reaches_every_subscription<TSend, TReceive>(
    context: WidgetContextView<TSend, TReceive>,
    value: TSend,
    s: int,
)
    requires
        context.wf(),
        context.is_subscription(s),
    ensures
        context.send(ModuleUpdateEvent::Update(value)).backlog(s) == context.backlog(s).push(
            value,
        ),
{
    assert(context.send(ModuleUpdateEvent::Update(value)).backlog(s) =~= context.backlog(s).push(
        value,
    ));
}

/// A subscription that receives is handed the oldest update that it has yet
/// to receive, and what any other subscription has yet to receive stays as
/// it is: each goes at its own pace.
pub proof fn lemma_receive_is_independent<TSend, TReceive>(
    context: WidgetContextView<TSend, TReceive>,
    s: int,
    other: int,
)
    requires
        context.wf(),
        context.is_subscription(s),
        context.is_subscription(other),
        other != s,
    ensures
        context.backlog(s).len() > 0 ==> context.next(s) == Some(context.backlog(s).first())
            && context.receive(s).backlog(s) == context.backlog(s).drop_first(),
        context.backlog(s).len() == 0 ==> context.next(s) is None && context.receive(s)
            == context,
        context.receive(s).backlog(other) == context.backlog(other),
        context.receive(s).next(other) == context.next(other),
{
    if context.backlog(s).len() > 0 {
        assert(context.receive(s).backlog(s) =~= context.backlog(s).drop_first());
    }
}

/// Fan-out. Whatever happens to a context, and in whatever order, each
/// subscription is handed the updates in the order in which they were sent,
/// and misses none: what it was handed, followed by what it has yet to
/// receive, is what it had yet to receive at the start, followed by what was
/// sent since. What other subscriptions do plays no part.
pub proof fn lemma_fan_out<TSend, TReceive>(
    context: WidgetContextView<TSend, TReceive>,
    steps: Seq<Step<TSend>>,
    s: int,
)
    requires
        context.wf(),
        context.is_subscription(s),
    ensures
        after_steps(context, steps).wf(),
        after_steps(context, steps).is_subscription(s),
        values_received(context, steps, s) + after_steps(context, steps).backlog(s)
            == context.backlog(s) + values_sent(steps),
    decreases steps.len(),
{
    if steps.len() == 0 {
        assert(values_received(context, steps, s) + context.backlog(s) =~= context.backlog(s)
            + values_sent(steps));
    } else {
        let earlier = steps.drop_last();
        let before = after_steps(context, earlier);
        let after = after_steps(context, steps);
        lemma_fan_out(context, earlier, s);
        lemma_step_keeps_well_formed(before, steps.last());
        let handed = values_received(context, earlier, s);
        assert(handed + before.backlog(s) == context.backlog(s) + values_sent(earlier));
        match steps.last() {
            Step::Send(value) => {
                lemma_send_reaches_every_subscription(before, value, s);
                assert(handed + before.backlog(s).push(value) =~= (handed + before.backlog(
                    s,
                )).push(value));
                assert((context.backlog(s) + values_sent(earlier)).push(value)
                    =~= context.backlog(s) + values_sent(steps));
            },
            Step::Subscribe => {
                assert(after.backlog(s) =~= before.backlog(s));
            },
            Step::Receive(t) => {
                if t == s {
                    if before.backlog(s).len() > 0 {
                        let value = before.backlog(s).first();
                        assert(before.next(s) == Some(value));
                        assert(after.backlog(s) =~= before.backlog(s).drop_first());
                        assert(handed.push(value) + before.backlog(s).drop_first() =~= handed
                            + before.backlog(s));
                    } else {
                        assert(before.next(s) is None);
                    }
                } else {
                    if before.is_subscription(t) {
                        lemma_receive_is_independent(before, t, s);
                    }
                }
            },
            Step::Forget => {
                lemma_forget_keeps_backlogs(before, s);
            },
        }
    }
}

/// Two subscriptions that have both received all there is have been handed
/// the same updates in the same order, if they started level: with nothing
/// to receive, say. How often either asked in between, and when, plays no
/// part.
pub proof fn lemma_two_subscriptions_agree<TSend, TReceive>(
    context: WidgetContextView<TSend, TReceive>,
    steps: Seq<Step<TSend>>,
    a: int,
    b: int,
)
    requires
        context.wf(),
        context.is_subscription(a),
        context.is_subscription(b),
        context.backlog(a) == context.backlog(b),
        after_steps(context, steps).backlog(a).len() == 0,
        after_steps(context, steps).backlog(b).len() == 0,
    ensures
        values_received(context, steps, a) == context.backlog(a) + values_sent(steps),
        values_received(context, steps, b) == values_received(context, steps, a),
{
    lemma_fan_out(context, steps, a);
    lemma_fan_out(context, steps, b);
    let after = after_steps(context, steps);
    assert(values_received(context, steps, a) + after.backlog(a) =~= values_received(
        context,
        steps,
        a,
    ));
    assert(values_received(context, steps, b) + after.backlog(b) =~= values_received(
        context,
        steps,
        b,
    ));
}

} // verus!
