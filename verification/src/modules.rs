//! Modules: the units of content of a bar, and the bridge between a module's
//! controller and its widget.

pub mod label;

use crate::modules::label::{LabelModule, LabelModuleView};
use vstd::prelude::*;

verus! {

/// The settings of one module of a bar.
#[derive(Debug)]
pub enum ModuleConfig {
    /// A piece of text.
    Label(LabelModule),
}

/// The content of a [`ModuleConfig`].
pub enum ModuleConfigView {
    Label(LabelModuleView),
}

impl View for ModuleConfig {
    type V = ModuleConfigView;

    open spec fn view(&self) -> ModuleConfigView {
        match self {
            ModuleConfig::Label(module) => ModuleConfigView::Label(module@),
        }
    }
}

impl Clone for ModuleConfig {
    fn clone(&self) -> (copy: Self)
        ensures
            copy@ == self@,
    {
        match self {
            ModuleConfig::Label(module) => ModuleConfig::Label(module.clone()),
        }
    }
}

/// What a module's controller tells the module's widgets.
#[derive(Debug)]
pub enum ModuleUpdateEvent<T> {
    /// Replace what is shown by this value.
    Update(T),
}

/// What a module hands to its bar once its widget is built.
#[derive(Debug)]
pub struct ModuleParts<W> {
    /// The widget on the bar.
    pub widget: W,
    /// The module's popup, if it has one.
    pub popup: Option<W>,
}

/// Why a module could not be built.
#[derive(Debug)]
pub struct ModuleError {
    /// The reason in words, for the log.
    pub message: String,
}

/// A kind of module: settings that name themselves and that can be turned
/// into what the module shows.
///
/// A value of such a type is configuration only. What belongs to a running
/// instance is kept in its [`WidgetContext`] and in its widget.
pub trait Module: Sized {
    /// What the module's controller sends to its widgets.
    type SendMessage;

    /// What the module's widgets send to its controller.
    type ReceiveMessage;

    /// What the module shows on the bar.
    type Widget;

    /// The name by which the configuration refers to this kind of module.
    fn name() -> &'static str;

    /// Builds what the module shows on the bar, and its popup if it has one.
    /// What is built subscribes to the updates of `context`.
    fn into_widget(
        self,
        context: &mut WidgetContext<Self::SendMessage, Self::ReceiveMessage>,
    ) -> Result<ModuleParts<Self::Widget>, ModuleError>;
}

/// What a controller finds when it looks for a command of its widget.
#[derive(Debug)]
pub enum Command<T> {
    /// The oldest command that it had not taken yet.
    Message(T),
    /// No command waits, but more may come.
    Empty,
    /// No command waits and none will come: the controller is to stop.
    Closed,
}

/// What belongs to one instance of a module: the updates that its controller
/// has sent, the place that each subscription has reached in them, and the
/// commands that its widget has sent back.
///
/// It lives on the loop that owns the widgets. Every subscription receives
/// every update sent after it was made, in the order in which they were
/// sent, at its own pace.
#[derive(Debug)]
pub struct WidgetContext<TSend, TReceive> {
    id: usize,
    sent: Vec<TSend>,
    cursors: Vec<usize>,
    commands: Vec<TReceive>,
    closed: bool,
}

/// The content of a [`WidgetContext`].
pub struct WidgetContextView<TSend, TReceive> {
    /// The identifier of the module instance.
    pub id: usize,
    /// The updates that were sent and not forgotten since, oldest first.
    pub sent: Seq<TSend>,
    /// For each subscription, the number of those updates that lie behind
    /// it: those sent before it was made, and those it has received.
    pub cursors: Seq<nat>,
    /// The commands that the controller has not taken yet, oldest first.
    pub commands: Seq<TReceive>,
    /// Whether the widget has closed the way for commands.
    pub closed: bool,
}

/// The least of `cursors` and `bound`.
pub open spec fn least_cursor(cursors: Seq<nat>, bound: nat) -> nat
    decreases cursors.len(),
{
    if cursors.len() == 0 {
        bound
    } else {
        let least = least_cursor(cursors.drop_last(), bound);
        if cursors.last() < least {
            cursors.last()
        } else {
            least
        }
    }
}

/// The least of `cursors` and `bound` is one of them and above none of them.
pub proof fn lemma_least_cursor(cursors: Seq<nat>, bound: nat)
    ensures
        least_cursor(cursors, bound) <= bound,
        forall|s: int| 0 <= s < cursors.len() ==> least_cursor(cursors, bound) <= cursors[s],
        least_cursor(cursors, bound) == bound || exists|s: int|
            0 <= s < cursors.len() && cursors[s] == least_cursor(cursors, bound),
    decreases cursors.len(),
{
    if cursors.len() > 0 {
        lemma_least_cursor(cursors.drop_last(), bound);
        let least = least_cursor(cursors.drop_last(), bound);
        assert forall|s: int| 0 <= s < cursors.len() implies least_cursor(cursors, bound)
            <= cursors[s] by {
            if s < cursors.len() - 1 {
                assert(cursors.drop_last()[s] == cursors[s]);
            }
        }
        if !(cursors.last() < least) && least != bound {
            let s = choose|s: int| 0 <= s < cursors.drop_last().len() && cursors.drop_last()[s] == least;
            assert(cursors[s] == least);
        }
    }
}

impl<TSend, TReceive> WidgetContextView<TSend, TReceive> {
    /// No subscription is ahead of what was sent.
    pub open spec fn wf(self) -> bool {
        forall|s: int| 0 <= s < self.cursors.len() ==> self.cursors[s] <= self.sent.len()
    }

    /// Whether `s` is a subscription that was made.
    pub open spec fn is_subscription(self, s: int) -> bool {
        0 <= s < self.cursors.len()
    }

    /// The updates that the subscription `s` has yet to receive, oldest
    /// first.
    pub open spec fn backlog(self, s: int) -> Seq<TSend> {
        if self.cursors[s] <= self.sent.len() {
            self.sent.skip(self.cursors[s] as int)
        } else {
            Seq::empty()
        }
    }

    /// The state after the controller has sent `event`.
    pub open spec fn send(self, event: ModuleUpdateEvent<TSend>) -> Self {
        match event {
            ModuleUpdateEvent::Update(value) => WidgetContextView {
                sent: self.sent.push(value),
                ..self
            },
        }
    }

    /// The state after one more subscription was made. Its number is the
    /// number of subscriptions made before it, and nothing sent so far is in
    /// its backlog.
    pub open spec fn subscribe(self) -> Self {
        WidgetContextView { cursors: self.cursors.push(self.sent.len()), ..self }
    }

    /// What the subscription `s` receives next: the oldest update of its
    /// backlog. Nothing where the backlog is empty or `s` is no subscription.
    pub open spec fn next(self, s: int) -> Option<TSend> {
        if self.is_subscription(s) && self.cursors[s] < self.sent.len() {
            Some(self.sent[self.cursors[s] as int])
        } else {
            None
        }
    }

    /// The state after the subscription `s` has received what
    /// [`WidgetContextView::next`] gives it.
    pub open spec fn receive(self, s: int) -> Self {
        if self.is_subscription(s) && self.cursors[s] < self.sent.len() {
            WidgetContextView {
                cursors: self.cursors.update(s, self.cursors[s] + 1),
                ..self
            }
        } else {
            self
        }
    }

    /// The state after the subscription `s` has received its whole backlog.
    pub open spec fn drain(self, s: int) -> Self {
        if self.is_subscription(s) && self.cursors[s] < self.sent.len() {
            WidgetContextView { cursors: self.cursors.update(s, self.sent.len()), ..self }
        } else {
            self
        }
    }

    /// The number of updates, counted from the oldest, that every
    /// subscription has behind it. A subscription made later will not ask for
    /// them either, so they can be forgotten.
    pub open spec fn received_by_all(self) -> nat {
        least_cursor(self.cursors, self.sent.len())
    }

    /// The state after the oldest `count` updates have been forgotten: they
    /// are gone, and every subscription has that many fewer behind it.
    pub open spec fn forget(self, count: nat) -> Self {
        WidgetContextView {
            sent: self.sent.skip(count as int),
            cursors: self.cursors.map_values(|cursor: nat| (cursor - count) as nat),
            ..self
        }
    }

    /// The state after the widget has sent `command`: it waits behind the
    /// others, unless the way is closed.
    pub open spec fn send_command(self, command: TReceive) -> Self {
        if self.closed {
            self
        } else {
            WidgetContextView { commands: self.commands.push(command), ..self }
        }
    }

    /// What the controller finds when it looks for a command.
    pub open spec fn next_command(self) -> Command<TReceive> {
        if self.commands.len() > 0 {
            Command::Message(self.commands[0])
        } else if self.closed {
            Command::Closed
        } else {
            Command::Empty
        }
    }

    /// The state after the controller has looked for a command.
    pub open spec fn take_command(self) -> Self {
        if self.commands.len() > 0 {
            WidgetContextView { commands: self.commands.skip(1), ..self }
        } else {
            self
        }
    }
}

impl<TSend, TReceive> View for WidgetContext<TSend, TReceive> {
    type V = WidgetContextView<TSend, TReceive>;

    closed spec fn view(&self) -> WidgetContextView<TSend, TReceive> {
        WidgetContextView {
            id: self.id,
            sent: self.sent@,
            cursors: self.cursors@.map_values(|cursor: usize| cursor as nat),
            commands: self.commands@,
            closed: self.closed,
        }
    }
}

impl<TSend, TReceive> WidgetContext<TSend, TReceive> {
    /// The context of the module instance `id`: nothing sent, no
    /// subscription, no command, the way for commands open.
    pub fn new(id: usize) -> (context: Self)
        ensures
            context@ == (WidgetContextView::<TSend, TReceive> {
                id,
                sent: Seq::empty(),
                cursors: Seq::empty(),
                commands: Seq::empty(),
                closed: false,
            }),
    {
        let context = WidgetContext {
            id,
            sent: Vec::new(),
            cursors: Vec::new(),
            commands: Vec::new(),
            closed: false,
        };
        assert(context@.cursors =~= Seq::empty());
        context
    }

    /// The identifier of the module instance.
    pub fn id(&self) -> (id: usize)
        ensures
            id == self@.id,
    {
        self.id
    }

    /// Sends `event` from the controller to every subscription, and returns
    /// how many subscriptions there are to be told of it.
    pub fn send(&mut self, event: ModuleUpdateEvent<TSend>) -> (subscriptions: usize)
        ensures
            final(self)@ == old(self)@.send(event),
            subscriptions == old(self)@.cursors.len(),
    {
        match event {
            ModuleUpdateEvent::Update(value) => {
                self.sent.push(value);
            },
        }
        self.cursors.len()
    }

    /// Makes a subscription and returns its number. It receives the updates
    /// sent from now on.
    pub fn subscribe(&mut self) -> (subscription: usize)
        ensures
            final(self)@ == old(self)@.subscribe(),
            subscription == old(self)@.cursors.len(),
    {
        let subscription = self.cursors.len();
        let reached = self.sent.len();
        self.cursors.push(reached);
        assert(final(self)@.cursors =~= old(self)@.cursors.push(reached as nat));
        subscription
    }

    /// Hands the subscription `subscription` the oldest update that it has
    /// not received yet, if there is one.
    pub fn receive(&mut self, subscription: usize) -> (update: Option<&TSend>)
        ensures
            final(self)@ == old(self)@.receive(subscription as int),
            match update {
                Some(value) => old(self)@.next(subscription as int) == Some(*value),
                None => old(self)@.next(subscription as int) is None,
            },
    {
        if subscription >= self.cursors.len() {
            return None;
        }
        let cursor = self.cursors[subscription];
        if cursor >= self.sent.len() {
            return None;
        }
        self.cursors.set(subscription, cursor + 1);
        assert(self@.cursors =~= old(self)@.cursors.update(
            subscription as int,
            (cursor + 1) as nat,
        ));
        Some(&self.sent[cursor])
    }

    /// The number of updates that the subscription `subscription` has yet to
    /// receive; zero where there is no such subscription.
    pub fn pending(&self, subscription: usize) -> (count: usize)
        ensures
            count == if self@.is_subscription(subscription as int) {
                self@.backlog(subscription as int).len()
            } else {
                0
            },
    {
        if subscription >= self.cursors.len() || self.cursors[subscription] > self.sent.len() {
            0
        } else {
            self.sent.len() - self.cursors[subscription]
        }
    }

    /// Forgets the updates that every subscription has received, and returns
    /// how many they were. What each subscription has yet to receive stays
    /// as it is.
    pub fn forget_received(&mut self) -> (count: usize)
        ensures
            count == old(self)@.received_by_all(),
            final(self)@ == old(self)@.forget(count as nat),
    {
        let mut count: usize = self.sent.len();
        let mut i: usize = 0;
        while i < self.cursors.len()
            invariant
                i <= self.cursors.len(),
                self@ == old(self)@,
                count == least_cursor(self@.cursors.take(i as int), self@.sent.len()),
            decreases self.cursors.len() - i,
        {
            assert(self@.cursors.take(i + 1).drop_last() =~= self@.cursors.take(i as int));
            if self.cursors[i] < count {
                count = self.cursors[i];
            }
            i += 1;
        }
        assert(self@.cursors.take(i as int) =~= self@.cursors);
        proof {
            lemma_least_cursor(self@.cursors, self@.sent.len());
            assert forall|s: int| 0 <= s < self.cursors.len() implies count <= self.cursors[s] by {
                assert(self@.cursors[s] == self.cursors[s]);
            }
        }
        let kept = self.sent.split_off(count);
        self.sent = kept;
        let mut j: usize = 0;
        while j < self.cursors.len()
            invariant
                j <= self.cursors.len(),
                self.cursors.len() == old(self).cursors.len(),
                self.sent@ == old(self).sent@.skip(count as int),
                self.id == old(self).id,
                self.commands == old(self).commands,
                self.closed == old(self).closed,
                forall|s: int| 0 <= s < old(self).cursors.len() ==> count <= old(self).cursors[s],
                forall|s: int| 0 <= s < j ==> self.cursors[s] == old(self).cursors[s] - count,
                forall|s: int|
                    j <= s < self.cursors.len() ==> self.cursors[s] == old(self).cursors[s],
            decreases self.cursors.len() - j,
        {
            let cursor = self.cursors[j];
            self.cursors.set(j, cursor - count);
            j += 1;
        }
        assert(self@.cursors =~= old(self)@.forget(count as nat).cursors);
        count
    }

    /// Sends `command` from the widget to the controller. Returns whether it
    /// was taken: it is dropped where the way for commands is closed.
    pub fn send_command(&mut self, command: TReceive) -> (accepted: bool)
        ensures
            final(self)@ == old(self)@.send_command(command),
            accepted == !old(self)@.closed,
    {
        if self.closed {
            false
        } else {
            self.commands.push(command);
            true
        }
    }

    /// Takes the oldest command that waits for the controller, or tells why
    /// there is none.
    pub fn next_command(&mut self) -> (command: Command<TReceive>)
        ensures
            final(self)@ == old(self)@.take_command(),
            command == old(self)@.next_command(),
    {
        if self.commands.len() > 0 {
            let command = self.commands.remove(0);
            assert(self.commands@ =~= old(self).commands@.skip(1));
            Command::Message(command)
        } else if self.closed {
            Command::Closed
        } else {
            Command::Empty
        }
    }

    /// Closes the way for commands. The commands that wait can still be
    /// taken; after them the controller finds the way closed.
    pub fn close(&mut self)
        ensures
            final(self)@ == (WidgetContextView { closed: true, ..old(self)@ }),
    {
        self.closed = true;
    }
}

/// The widgets of the modules that could be built, in the order of the
/// outcomes in which they came.
pub open spec fn built_widgets<W, E>(outcomes: Seq<Result<W, E>>) -> Seq<W>
    decreases outcomes.len(),
{
    if outcomes.len() == 0 {
        Seq::empty()
    } else {
        match outcomes.last() {
            Ok(widget) => built_widgets(outcomes.drop_last()).push(widget),
            Err(_) => built_widgets(outcomes.drop_last()),
        }
    }
}

/// The errors of the modules that could not be built, in the order of the
/// outcomes in which they came.
pub open spec fn build_errors<W, E>(outcomes: Seq<Result<W, E>>) -> Seq<E>
    decreases outcomes.len(),
{
    if outcomes.len() == 0 {
        Seq::empty()
    } else {
        match outcomes.last() {
            Ok(_) => build_errors(outcomes.drop_last()),
            Err(error) => build_errors(outcomes.drop_last()).push(error),
        }
    }
}

/// What came of building the modules of one bar.
#[derive(Debug)]
pub struct BuiltModules<W, E> {
    /// The widgets to put on the bar, in order.
    pub widgets: Vec<W>,
    /// The errors to report, in order.
    pub errors: Vec<E>,
}

/// Sorts the outcomes of building the modules of one bar. A module that
/// could not be built leaves its place on the bar empty and its error to be
/// reported; it takes no other module with it.
pub fn collect_modules<W, E>(outcomes: Vec<Result<W, E>>) -> (built: BuiltModules<W, E>)
    ensures
        built.widgets@ == built_widgets(outcomes@),
        built.errors@ == build_errors(outcomes@),
{
    let ghost all = outcomes@;
    let mut widgets: Vec<W> = Vec::new();
    let mut errors: Vec<E> = Vec::new();
    assert(all.take(0) =~= Seq::<Result<W, E>>::empty());
    for outcome in it: outcomes
        invariant
            all == it.seq(),
            widgets@ == built_widgets(all.take(it.index() as int)),
            errors@ == build_errors(all.take(it.index() as int)),
    {
        assert(all.take(it.index() + 1).drop_last() =~= all.take(it.index() as int));
        match outcome {
            Ok(widget) => {
                widgets.push(widget);
            },
            Err(error) => {
                errors.push(error);
            },
        }
    }
    assert(all.take(all.len() as int) =~= all);
    BuiltModules { widgets, errors }
}

/// Every module ends up either on the bar or among the errors, and a bar
/// whose modules could all be built shows them all.
pub proof fn lemma_no_module_is_lost<W, E>(outcomes: Seq<Result<W, E>>)
    ensures
        built_widgets(outcomes).len() + build_errors(outcomes).len() == outcomes.len(),
        (forall|i: int| 0 <= i < outcomes.len() ==> outcomes[i] is Ok) ==> built_widgets(
            outcomes,
        ).len() == outcomes.len(),
    decreases outcomes.len(),
{
    if outcomes.len() > 0 {
        lemma_no_module_is_lost(outcomes.drop_last());
    }
}

/// A module that cannot be built takes no other with it: the widgets before
/// it and those after it are all on the bar, in their order.
pub proof fn lemma_failed_module_leaves_the_others<W, E>(
    before: Seq<Result<W, E>>,
    error: E,
    after: Seq<Result<W, E>>,
)
    ensures
        built_widgets(before.push(Err(error)) + after) == built_widgets(before) + built_widgets(
            after,
        ),
    decreases after.len(),
{
    let failed = before.push(Err(error));
    if after.len() == 0 {
        assert(failed + after =~= failed);
        assert(failed.drop_last() =~= before);
        assert(built_widgets(before) + built_widgets(after) =~= built_widgets(before));
    } else {
        lemma_failed_module_leaves_the_others(before, error, after.drop_last());
        assert((failed + after).drop_last() =~= failed + after.drop_last());
        assert((failed + after).last() == after.last());
        match after.last() {
            Ok(widget) => {
                assert((built_widgets(before) + built_widgets(after.drop_last())).push(widget)
                    =~= built_widgets(before) + built_widgets(after));
            },
            Err(_) => {},
        }
    }
}

} // verus!
