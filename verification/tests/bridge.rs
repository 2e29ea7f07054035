use ironbar::config::CommonConfig;
use ironbar::modules::label::{LabelModule, LabelWidget};
use ironbar::modules::{
    collect_modules, Command, Module, ModuleConfig, ModuleUpdateEvent, WidgetContext,
};

fn update(value: u32) -> ModuleUpdateEvent<u32> {
    ModuleUpdateEvent::Update(value)
}

fn drain(context: &mut WidgetContext<u32, ()>, subscription: usize) -> Vec<u32> {
    let mut values = Vec::new();
    while let Some(value) = context.receive(subscription) {
        values.push(*value);
    }
    values
}

#[test]
fn two_subscribers_receive_every_update_in_order() {
    let mut context: WidgetContext<u32, ()> = WidgetContext::new(7);
    assert_eq!(context.id(), 7);
    assert_eq!(context.send(update(5)), 0);
    let fast = context.subscribe();
    let slow = context.subscribe();
    assert_ne!(fast, slow);
    let mut seen_fast = Vec::new();
    for value in [10, 20, 30, 40] {
        assert_eq!(context.send(update(value)), 2);
        // The fast subscriber takes each update as it comes.
        seen_fast.push(*context.receive(fast).unwrap());
        assert!(context.receive(fast).is_none());
    }
    assert_eq!(seen_fast, vec![10, 20, 30, 40]);
    // The slow one has missed nothing.
    assert_eq!(context.pending(slow), 4);
    assert_eq!(drain(&mut context, slow), vec![10, 20, 30, 40]);
    assert_eq!(context.pending(slow), 0);
}

#[test]
fn interleaved_receives_do_not_disturb_each_other() {
    let mut context: WidgetContext<u32, ()> = WidgetContext::new(1);
    let a = context.subscribe();
    let b = context.subscribe();
    context.send(update(1));
    context.send(update(2));
    assert_eq!(context.receive(a), Some(&1));
    assert_eq!(context.receive(b), Some(&1));
    context.send(update(3));
    assert_eq!(context.receive(b), Some(&2));
    assert_eq!(context.receive(b), Some(&3));
    assert_eq!(context.receive(b), None);
    assert_eq!(context.receive(a), Some(&2));
    assert_eq!(context.receive(a), Some(&3));
    assert_eq!(context.receive(a), None);
}

#[test]
fn subscription_receives_only_what_is_sent_after_it() {
    let mut context: WidgetContext<u32, ()> = WidgetContext::new(1);
    context.send(update(1));
    let late = context.subscribe();
    assert_eq!(context.pending(late), 0);
    assert_eq!(context.receive(late), None);
    context.send(update(2));
    assert_eq!(context.pending(late), 1);
    assert_eq!(drain(&mut context, late), vec![2]);
}

#[test]
fn unknown_subscription_receives_nothing() {
    let mut context: WidgetContext<u32, ()> = WidgetContext::new(1);
    context.send(update(1));
    assert_eq!(context.receive(0), None);
    assert_eq!(context.pending(0), 0);
    let first = context.subscribe();
    assert_eq!(first, 0);
    assert_eq!(context.receive(1), None);
}

#[test]
fn commands_reach_the_controller_in_order() {
    let mut context: WidgetContext<(), &str> = WidgetContext::new(1);
    assert!(matches!(context.next_command(), Command::Empty));
    assert!(context.send_command("open"));
    assert!(context.send_command("close"));
    assert!(matches!(context.next_command(), Command::Message("open")));
    assert!(matches!(context.next_command(), Command::Message("close")));
    assert!(matches!(context.next_command(), Command::Empty));
}

#[test]
fn closing_tells_the_controller_to_stop() {
    let mut context: WidgetContext<(), &str> = WidgetContext::new(1);
    assert!(context.send_command("last"));
    context.close();
    assert!(!context.send_command("too late"));
    assert!(matches!(context.next_command(), Command::Message("last")));
    assert!(matches!(context.next_command(), Command::Closed));
    assert!(matches!(context.next_command(), Command::Closed));
}

#[test]
fn label_module_starts_with_default_common_settings() {
    let module = LabelModule::new("Hello {{date}}".to_string());
    assert_eq!(module.label(), "Hello {{date}}");
    let common = module.common.as_ref().unwrap();
    assert!(common.name.is_none() && common.class.is_none() && common.tooltip.is_none());
    let default = CommonConfig::default();
    assert!(default.name.is_none() && default.class.is_none() && default.tooltip.is_none());
    assert_eq!(LabelModule::name(), "label");
}

#[test]
fn label_module_copies_are_alike() {
    let mut module = LabelModule::new("text".to_string());
    module.common = Some(CommonConfig {
        name: Some("n".to_string()),
        class: Some("c".to_string()),
        tooltip: None,
    });
    let ModuleConfig::Label(copy) = ModuleConfig::Label(module).clone();
    assert_eq!(copy.label(), "text");
    let common = copy.common.unwrap();
    assert_eq!(common.name.as_deref(), Some("n"));
    assert_eq!(common.class.as_deref(), Some("c"));
    assert_eq!(common.tooltip, None);
}

fn label_widget(context: &mut WidgetContext<String, ()>) -> LabelWidget {
    let parts = LabelModule::new("text".to_string()).into_widget(context).unwrap();
    assert!(parts.popup.is_none());
    parts.widget
}

#[test]
fn label_widget_shows_the_latest_update() {
    let mut context: WidgetContext<String, ()> = WidgetContext::new(3);
    let mut widget = label_widget(&mut context);
    assert_eq!(widget.subscription(), 0);
    assert_eq!(widget.markup(), "");
    assert!(widget.uses_markup());
    widget.update(ModuleUpdateEvent::Update("<b>one</b>".to_string()));
    assert_eq!(widget.markup(), "<b>one</b>");
    widget.update(ModuleUpdateEvent::Update("two".to_string()));
    assert_eq!(widget.markup(), "two");
    assert!(widget.uses_markup());
    assert_eq!(widget.subscription(), 0);
}

#[test]
fn label_widget_refreshes_from_its_subscription() {
    let mut context: WidgetContext<String, ()> = WidgetContext::new(3);
    let mut bar_widget = label_widget(&mut context);
    let mut popup_widget = label_widget(&mut context);
    assert_eq!(bar_widget.subscription(), 0);
    assert_eq!(popup_widget.subscription(), 1);
    assert_eq!(bar_widget.refresh(&mut context), 0);
    assert_eq!(bar_widget.markup(), "");
    assert_eq!(LabelModule::publish(&mut context, "one".to_string()), 2);
    assert_eq!(bar_widget.refresh(&mut context), 1);
    assert_eq!(bar_widget.markup(), "one");
    LabelModule::publish(&mut context, "two".to_string());
    LabelModule::publish(&mut context, "three".to_string());
    assert_eq!(bar_widget.refresh(&mut context), 2);
    assert_eq!(bar_widget.markup(), "three");
    assert_eq!(bar_widget.refresh(&mut context), 0);
    assert_eq!(bar_widget.markup(), "three");
    // The popup's copy has seen nothing so far and misses nothing.
    assert_eq!(popup_widget.markup(), "");
    assert_eq!(context.pending(popup_widget.subscription()), 3);
    assert_eq!(
        context.receive(popup_widget.subscription()).map(|text| text.as_str()),
        Some("one")
    );
    assert_eq!(popup_widget.refresh(&mut context), 2);
    assert_eq!(popup_widget.markup(), "three");
}

#[test]
fn label_widget_ignores_a_context_that_is_not_its_own() {
    let mut own: WidgetContext<String, ()> = WidgetContext::new(1);
    let _first = label_widget(&mut own);
    let mut second = label_widget(&mut own);
    let mut other: WidgetContext<String, ()> = WidgetContext::new(2);
    LabelModule::publish(&mut other, "elsewhere".to_string());
    assert_eq!(second.refresh(&mut other), 0);
    assert_eq!(second.markup(), "");
}

#[test]
fn received_updates_can_be_forgotten() {
    let mut context: WidgetContext<u32, ()> = WidgetContext::new(1);
    let fast = context.subscribe();
    let slow = context.subscribe();
    for value in [1, 2, 3, 4] {
        context.send(update(value));
    }
    assert_eq!(context.receive(fast), Some(&1));
    assert_eq!(context.receive(fast), Some(&2));
    assert_eq!(context.receive(fast), Some(&3));
    assert_eq!(context.receive(slow), Some(&1));
    // Only the first update is behind both.
    assert_eq!(context.forget_received(), 1);
    assert_eq!(context.forget_received(), 0);
    assert_eq!(context.pending(fast), 1);
    assert_eq!(context.pending(slow), 3);
    context.send(update(5));
    assert_eq!(drain(&mut context, slow), vec![2, 3, 4, 5]);
    assert_eq!(drain(&mut context, fast), vec![4, 5]);
    assert_eq!(context.forget_received(), 4);
    let late = context.subscribe();
    context.send(update(6));
    assert_eq!(drain(&mut context, late), vec![6]);
    assert_eq!(drain(&mut context, fast), vec![6]);
}

#[test]
fn without_subscriptions_everything_can_be_forgotten() {
    let mut context: WidgetContext<u32, ()> = WidgetContext::new(1);
    context.send(update(1));
    context.send(update(2));
    assert_eq!(context.forget_received(), 2);
    let late = context.subscribe();
    assert_eq!(context.receive(late), None);
    context.send(update(3));
    assert_eq!(context.receive(late), Some(&3));
}

#[test]
fn failed_module_leaves_the_others_on_the_bar() {
    let outcomes: Vec<Result<&str, u8>> = vec![Ok("clock"), Err(1), Ok("tray"), Err(2), Ok("label")];
    let built = collect_modules(outcomes);
    assert_eq!(built.widgets, vec!["clock", "tray", "label"]);
    assert_eq!(built.errors, vec![1, 2]);
}

#[test]
fn bar_without_modules_builds_nothing() {
    let built = collect_modules(Vec::<Result<&str, u8>>::new());
    assert!(built.widgets.is_empty());
    assert!(built.errors.is_empty());
    let built = collect_modules(vec![Err::<&str, u8>(3)]);
    assert!(built.widgets.is_empty());
    assert_eq!(built.errors, vec![3]);
}
