//! A module that shows a piece of text.

use crate::config::{CommonConfig, CommonConfigView};
use crate::modules::{Module, ModuleError, ModuleParts, ModuleUpdateEvent, WidgetContext};
use vstd::prelude::*;

verus! {

/// The settings of a label: the text to show and the common settings.
#[derive(Debug)]
pub struct LabelModule {
    label: String,
    /// Settings shared with every other kind of module.
    pub common: Option<CommonConfig>,
}

/// The content of a [`LabelModule`].
pub struct LabelModuleView {
    pub label: Seq<char>,
    pub common: Option<CommonConfigView>,
}

impl View for LabelModule {
    type V = LabelModuleView;

    closed spec fn view(&self) -> LabelModuleView {
        LabelModuleView {
            label: self.label@,
            common: match self.common {
                Some(common) => Some(common@),
                None => None,
            },
        }
    }
}

impl Clone for LabelModule {
    fn clone(&self) -> (copy: Self)
        ensures
            copy@ == self@,
    {
        LabelModule {
            label: self.label.clone(),
            common: match &self.common {
                Some(common) => Some(common.clone()),
                None => None,
            },
        }
    }
}

impl LabelModule {
    /// A label that shows `label`, with the common settings left unset.
    pub fn new(label: String) -> (module: Self)
        ensures
            module@ == (LabelModuleView {
                label: label@,
                common: Some(CommonConfigView::unset()),
            }),
    {
        LabelModule { label, common: Some(CommonConfig::default()) }
    }

    /// The text to show.
    pub fn label(&self) -> (label: &str)
        ensures
            label@ == self@.label,
    {
        self.label.as_str()
    }

    /// The controller's part: whenever the text to show has been worked out
    /// anew, it is sent to the module's widgets as an update. Returns how
    /// many subscriptions there are to be told of it.
    pub fn publish<TReceive>(context: &mut WidgetContext<String, TReceive>, text: String) -> (subscriptions:
        usize)
        ensures
            final(context)@ == old(context)@.send(ModuleUpdateEvent::Update(text)),
            subscriptions == old(context)@.cursors.len(),
    {
        context.send(ModuleUpdateEvent::Update(text))
    }
}

impl Module for LabelModule {
    type SendMessage = String;

    type ReceiveMessage = ();

    type Widget = LabelWidget;

    fn name() -> (name: &'static str)
        ensures
            name@ == "label"@,
    {
        "label"
    }

    /// Builds the module's widget: a label that reads markup, shows nothing
    /// yet, and has a subscription of its own to the updates of `context`. A
    /// label has no popup, and building it never fails.
    fn into_widget(self, context: &mut WidgetContext<String, ()>) -> (result: Result<
        ModuleParts<LabelWidget>,
        ModuleError,
    >)
        ensures
            final(context)@ == old(context)@.subscribe(),
            result matches Ok(parts) && parts.popup is None && parts.widget@ == (LabelWidgetView {
                markup: Seq::empty(),
                use_markup: true,
                subscription: old(context)@.cursors.len(),
            }),
    {
        let subscription = context.subscribe();
        Ok(
            ModuleParts {
                widget: LabelWidget { markup: String::new(), use_markup: true, subscription },
                popup: None,
            },
        )
    }
}

/// What a label's widget shows.
#[derive(Debug)]
pub struct LabelWidget {
    markup: String,
    use_markup: bool,
    subscription: usize,
}

/// The content of a [`LabelWidget`].
pub struct LabelWidgetView {
    /// The text on the widget.
    pub markup: Seq<char>,
    /// Whether the text is read as markup.
    pub use_markup: bool,
    /// The number of the widget's subscription to its module's updates.
    pub subscription: nat,
}

impl View for LabelWidget {
    type V = LabelWidgetView;

    closed spec fn view(&self) -> LabelWidgetView {
        LabelWidgetView {
            markup: self.markup@,
            use_markup: self.use_markup,
            subscription: self.subscription as nat,
        }
    }
}

impl LabelWidgetView {
    /// What the widget shows once it has received `updates`, oldest first:
    /// the last of them, or what it showed before where there are none.
    pub open spec fn show_all(self, updates: Seq<String>) -> LabelWidgetView {
        if updates.len() == 0 {
            self
        } else {
            LabelWidgetView { markup: updates.last()@, ..self }
        }
    }
}

impl LabelWidget {
    /// The text on the widget.
    pub fn markup(&self) -> (markup: &str)
        ensures
            markup@ == self@.markup,
    {
        self.markup.as_str()
    }

    /// Whether the text is read as markup.
    pub fn uses_markup(&self) -> (yes: bool)
        ensures
            yes == self@.use_markup,
    {
        self.use_markup
    }

    /// The number of the widget's subscription to its module's updates.
    pub fn subscription(&self) -> (subscription: usize)
        ensures
            subscription == self@.subscription,
    {
        self.subscription
    }

    /// Takes an update: its value replaces the text on the widget.
    pub fn update(&mut self, event: ModuleUpdateEvent<String>)
        ensures
            event matches ModuleUpdateEvent::Update(text) && final(self)@ == (LabelWidgetView {
                markup: text@,
                ..old(self)@
            }),
    {
        match event {
            ModuleUpdateEvent::Update(text) => {
                self.markup = text;
            },
        }
    }

    /// Receives every update that waits for the widget's subscription and
    /// shows each in turn, so that the newest is left on the widget. Returns
    /// how many there were.
    ///
    /// `context` is the context that the widget was built with. With any
    /// other, the widget's number may stand for no subscription; then
    /// nothing is received and nothing changes.
    pub fn refresh<TReceive>(&mut self, context: &mut WidgetContext<String, TReceive>) -> (count:
        usize)
        ensures
            final(context)@ == old(context)@.drain(old(self)@.subscription as int),
            old(context)@.is_subscription(old(self)@.subscription as int) ==> {
                &&& final(self)@ == old(self)@.show_all(
                    old(context)@.backlog(old(self)@.subscription as int),
                )
                &&& count == old(context)@.backlog(old(self)@.subscription as int).len()
            },
            !old(context)@.is_subscription(old(self)@.subscription as int) ==> final(self)@
                == old(self)@ && count == 0,
    {
        let subscription = self.subscription;
        let ghost start = context@;
        let ghost s = subscription as int;
        let mut count: usize = 0;
        let waiting: usize = context.pending(subscription);
        if waiting == 0 {
            return 0;
        }
        let ghost first = start.cursors[s];
        assert(start.cursors.update(s, first) =~= start.cursors);
        loop
            invariant
                start == old(context)@,
                s == subscription as int,
                start.is_subscription(s),
                first == start.cursors[s],
                first < start.sent.len(),
                first + count <= start.sent.len(),
                first + waiting == start.sent.len(),
                context@ == (crate::modules::WidgetContextView {
                    cursors: start.cursors.update(s, (first + count) as nat),
                    ..start
                }),
                count > 0 ==> self@ == (LabelWidgetView {
                    markup: start.sent[first + count - 1]@,
                    ..old(self)@
                }),
                count == 0 ==> self@ == old(self)@,
            ensures
                first + count == start.sent.len(),
                count > 0,
                context@ == start.drain(s),
                self@ == (LabelWidgetView { markup: start.sent.last()@, ..old(self)@ }),
            decreases start.sent.len() - first - count,
        {
            match context.receive(subscription) {
                Some(text) => {
                    self.markup = text.clone();
                    assert(start.cursors.update(s, (first + count) as nat).update(
                        s,
                        (first + count + 1) as nat,
                    ) =~= start.cursors.update(s, (first + count + 1) as nat));
                    count += 1;
                },
                None => {
                    break ;
                },
            }
        }
        count
    }
}

} // verus!
