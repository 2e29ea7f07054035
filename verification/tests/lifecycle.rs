use ironbar::bar::Bar;
use ironbar::config::{BarConfig, Config, MonitorConfig};
use ironbar::lifecycle::{load_output_bars, Ironbar, LoadError, Reaction};
use ironbar::ids::IdGenerator;
use ironbar::modules::label::LabelModule;
use ironbar::modules::ModuleConfig;
use ironbar::output::{OutputEvent, OutputEventType, OutputInfo};

fn output(name: Option<&str>) -> OutputInfo {
    OutputInfo {
        name: name.map(|n| n.to_string()),
        logical_position: Some((1920, 0)),
        logical_size: Some((1920, 1080)),
    }
}

fn event(event_type: OutputEventType, name: Option<&str>) -> OutputEvent {
    OutputEvent { output: output(name), event_type }
}

fn named_bar(name: &str) -> BarConfig {
    BarConfig { name: Some(name.to_string()), start: None, center: None, end: None }
}

fn bar_with_start() -> BarConfig {
    BarConfig {
        name: None,
        start: Some(vec![ModuleConfig::Label(LabelModule::new("hello".to_string()))]),
        center: None,
        end: None,
    }
}

fn monitor_names(bars: &[Bar]) -> Vec<String> {
    bars.iter().map(|bar| bar.monitor_name().to_string()).collect()
}

fn names(bars: &[Bar]) -> Vec<String> {
    bars.iter().map(|bar| bar.name().to_string()).collect()
}

/// A manager, already activated, with one bar on each of the given monitors.
fn manager_with_bars(monitors: &[&str]) -> Ironbar<()> {
    let mut ironbar: Ironbar<()> = Ironbar::new(Config::new(bar_with_start()));
    assert!(ironbar.activate(()).is_empty());
    for monitor in monitors {
        let reaction = ironbar.handle_output_event(event(OutputEventType::New, Some(monitor)));
        assert!(matches!(reaction, Reaction::Created { .. }));
    }
    ironbar
}

#[test]
fn destroy_without_matching_bars_changes_nothing() {
    let mut ironbar = manager_with_bars(&["B", "C"]);
    let reaction = ironbar.handle_output_event(event(OutputEventType::Destroyed, Some("A")));
    match reaction {
        Reaction::Removed { bars } => assert!(bars.is_empty()),
        other => panic!("unexpected reaction {:?}", other),
    }
    assert_eq!(monitor_names(ironbar.bars()), vec!["B", "C"]);
}

#[test]
fn destroy_on_empty_registry_changes_nothing() {
    let mut ironbar = manager_with_bars(&[]);
    let reaction = ironbar.handle_output_event(event(OutputEventType::Destroyed, Some("A")));
    assert!(matches!(reaction, Reaction::Removed { bars } if bars.is_empty()));
    assert!(ironbar.bars().is_empty());
}

#[test]
fn destroy_keeps_the_other_bars_in_order() {
    let mut ironbar = manager_with_bars(&["A", "B", "A", "C"]);
    let ids: Vec<usize> = ironbar.bars().iter().map(|bar| bar.id()).collect();
    assert_eq!(ids, vec![1, 2, 3, 4]);
    let reaction = ironbar.handle_output_event(event(OutputEventType::Destroyed, Some("A")));
    match reaction {
        Reaction::Removed { bars } => {
            assert_eq!(monitor_names(&bars), vec!["A", "A"]);
            let removed: Vec<usize> = bars.iter().map(|bar| bar.id()).collect();
            assert_eq!(removed, vec![1, 3]);
        }
        other => panic!("unexpected reaction {:?}", other),
    }
    assert_eq!(monitor_names(ironbar.bars()), vec!["B", "C"]);
    let left: Vec<usize> = ironbar.bars().iter().map(|bar| bar.id()).collect();
    assert_eq!(left, vec![2, 4]);
}

#[test]
fn destroy_without_name_is_ignored() {
    let mut ironbar = manager_with_bars(&["A"]);
    let reaction = ironbar.handle_output_event(event(OutputEventType::Destroyed, None));
    assert!(matches!(reaction, Reaction::Ignored));
    assert_eq!(monitor_names(ironbar.bars()), vec!["A"]);
}

#[test]
fn update_is_a_no_op() {
    let mut ironbar = manager_with_bars(&["A"]);
    let reaction = ironbar.handle_output_event(event(OutputEventType::Update, Some("A")));
    assert!(matches!(reaction, Reaction::Ignored));
    assert_eq!(monitor_names(ironbar.bars()), vec!["A"]);
}

#[test]
fn default_bar_with_only_start_gives_one_bar() {
    let mut ironbar: Ironbar<()> = Ironbar::new(Config::new(bar_with_start()));
    ironbar.activate(());
    let reaction = ironbar.handle_output_event(event(OutputEventType::New, Some("DP-1")));
    match reaction {
        Reaction::Created { position, bars } => {
            assert_eq!(position, (1920, 0));
            assert_eq!(bars.len(), 1);
            assert_eq!(bars[0].monitor_name(), "DP-1");
            assert_eq!(bars[0].name(), "DP-1");
            assert!(bars[0].config().start.is_some());
        }
        other => panic!("unexpected reaction {:?}", other),
    }
    assert_eq!(ironbar.bars().len(), 1);
    assert_eq!(ironbar.bars()[0].monitor_name(), "DP-1");
}

#[test]
fn default_bar_without_regions_gives_no_bar() {
    let mut ironbar: Ironbar<()> = Ironbar::new(Config::default());
    ironbar.activate(());
    let reaction = ironbar.handle_output_event(event(OutputEventType::New, Some("DP-1")));
    assert!(matches!(reaction, Reaction::Created { bars, .. } if bars.is_empty()));
    assert!(ironbar.bars().is_empty());
}

#[test]
fn default_bar_with_only_a_name_gives_no_bar() {
    let mut ironbar: Ironbar<()> = Ironbar::new(Config::new(named_bar("main")));
    ironbar.activate(());
    ironbar.handle_output_event(event(OutputEventType::New, Some("DP-1")));
    assert!(ironbar.bars().is_empty());
}

#[test]
fn monitor_entry_wins_over_default_bar() {
    let mut config = Config::new(bar_with_start());
    config.set_monitor("DP-1".to_string(), MonitorConfig::Single(named_bar("own")));
    let mut ironbar: Ironbar<()> = Ironbar::new(config);
    ironbar.activate(());
    ironbar.handle_output_event(event(OutputEventType::New, Some("DP-1")));
    ironbar.handle_output_event(event(OutputEventType::New, Some("DP-2")));
    assert_eq!(names(ironbar.bars()), vec!["own", "DP-2"]);
    assert!(ironbar.bars()[0].config().start.is_none());
    assert!(ironbar.bars()[1].config().start.is_some());
}

#[test]
fn monitor_entry_without_regions_still_gives_its_bar() {
    let mut config = Config::default();
    config.set_monitor("DP-1".to_string(), MonitorConfig::Single(named_bar("own")));
    let mut ironbar: Ironbar<()> = Ironbar::new(config);
    ironbar.activate(());
    ironbar.handle_output_event(event(OutputEventType::New, Some("DP-1")));
    assert_eq!(names(ironbar.bars()), vec!["own"]);
}

#[test]
fn later_monitor_entry_replaces_earlier_one() {
    let mut config = Config::default();
    config.set_monitor("DP-1".to_string(), MonitorConfig::Single(named_bar("first")));
    config.set_monitor("DP-1".to_string(), MonitorConfig::Single(named_bar("second")));
    assert!(matches!(config.monitor("DP-1"), Some(MonitorConfig::Single(bar)) if bar.name.as_deref() == Some("second")));
    assert!(config.monitor("DP-2").is_none());
}

#[test]
fn two_configurations_give_two_bars() {
    let mut config = Config::default();
    config.set_monitor(
        "DP-1".to_string(),
        MonitorConfig::Multiple(vec![named_bar("top"), named_bar("bottom")]),
    );
    let mut ironbar: Ironbar<()> = Ironbar::new(config);
    ironbar.activate(());
    let reaction = ironbar.handle_output_event(event(OutputEventType::New, Some("DP-1")));
    assert!(matches!(reaction, Reaction::Created { bars, .. } if bars.len() == 2));
    assert_eq!(monitor_names(ironbar.bars()), vec!["DP-1", "DP-1"]);
    assert_eq!(names(ironbar.bars()), vec!["top", "bottom"]);
    assert_ne!(ironbar.bars()[0].id(), ironbar.bars()[1].id());
}

#[test]
fn empty_list_of_configurations_gives_no_bar() {
    let mut config = Config::new(bar_with_start());
    config.set_monitor("DP-1".to_string(), MonitorConfig::Multiple(vec![]));
    let mut ironbar: Ironbar<()> = Ironbar::new(config);
    ironbar.activate(());
    ironbar.handle_output_event(event(OutputEventType::New, Some("DP-1")));
    assert!(ironbar.bars().is_empty());
}

#[test]
fn new_output_without_name_is_skipped() {
    let mut ironbar = manager_with_bars(&["A"]);
    let reaction = ironbar.handle_output_event(event(OutputEventType::New, None));
    assert!(matches!(reaction, Reaction::Failed { error: LoadError::MissingMonitorName }));
    assert_eq!(ironbar.bars().len(), 1);
    // No identifier was used up either.
    assert_eq!(ironbar.unique_id(), 2);
}

#[test]
fn load_output_bars_reports_missing_name() {
    let config = Config::new(bar_with_start());
    let mut ids = IdGenerator::new();
    let result = load_output_bars(&config, &output(None), &mut ids);
    assert_eq!(result.err(), Some(LoadError::MissingMonitorName));
    assert_eq!(LoadError::MissingMonitorName.message(), "Output missing monitor name");
    assert_eq!(ids.unique_id(), 1);
}

#[test]
fn load_output_bars_numbers_the_bars() {
    let mut config = Config::default();
    config.set_monitor(
        "DP-1".to_string(),
        MonitorConfig::Multiple(vec![named_bar("a"), named_bar("b"), BarConfig::default()]),
    );
    let mut ids = IdGenerator::new();
    ids.unique_id();
    let bars = load_output_bars(&config, &output(Some("DP-1")), &mut ids).unwrap();
    assert_eq!(names(&bars), vec!["a", "b", "DP-1"]);
    let numbers: Vec<usize> = bars.iter().map(|bar| bar.id()).collect();
    assert_eq!(numbers, vec![2, 3, 4]);
    assert_eq!(ids.unique_id(), 5);
}

#[test]
fn position_defaults_to_the_origin() {
    let info = OutputInfo { name: Some("DP-1".to_string()), logical_position: None, logical_size: None };
    assert_eq!(info.position(), (0, 0));
    assert_eq!(output(Some("DP-1")).position(), (1920, 0));
}

#[test]
fn events_before_activation_wait_their_turn() {
    let mut ironbar: Ironbar<()> = Ironbar::new(Config::new(bar_with_start()));
    assert!(!ironbar.is_activated());
    for (event_type, name) in [
        (OutputEventType::New, "A"),
        (OutputEventType::New, "B"),
        (OutputEventType::Destroyed, "A"),
        (OutputEventType::New, "C"),
    ] {
        let reaction = ironbar.handle_output_event(event(event_type, Some(name)));
        assert!(matches!(reaction, Reaction::Deferred));
        assert!(ironbar.bars().is_empty());
    }
    let reactions = ironbar.activate(());
    assert!(ironbar.is_activated());
    assert_eq!(reactions.len(), 4);
    assert!(matches!(&reactions[0], Reaction::Created { bars, .. } if bars[0].monitor_name() == "A"));
    assert!(matches!(&reactions[1], Reaction::Created { bars, .. } if bars[0].monitor_name() == "B"));
    assert!(matches!(&reactions[2], Reaction::Removed { bars } if bars.len() == 1 && bars[0].id() == 1));
    assert!(matches!(&reactions[3], Reaction::Created { bars, .. } if bars[0].id() == 3));
    assert_eq!(monitor_names(ironbar.bars()), vec!["B", "C"]);
}

#[test]
fn second_activation_does_nothing() {
    let mut ironbar = manager_with_bars(&["A"]);
    assert!(ironbar.activate(()).is_empty());
    assert_eq!(monitor_names(ironbar.bars()), vec!["A"]);
}

#[test]
fn bar_by_name_finds_the_first_match() {
    let mut config = Config::default();
    config.set_monitor("DP-1".to_string(), MonitorConfig::Single(named_bar("main")));
    config.set_monitor("DP-2".to_string(), MonitorConfig::Single(named_bar("main")));
    config.set_monitor("DP-3".to_string(), MonitorConfig::Single(named_bar("side")));
    let mut ironbar: Ironbar<()> = Ironbar::new(config);
    ironbar.activate(());
    for monitor in ["DP-1", "DP-2", "DP-3"] {
        ironbar.handle_output_event(event(OutputEventType::New, Some(monitor)));
    }
    let found = ironbar.bar_by_name("main").unwrap();
    assert_eq!(found.monitor_name(), "DP-1");
    assert_eq!(found.id(), 1);
    assert_eq!(ironbar.bar_by_name("side").unwrap().monitor_name(), "DP-3");
    assert!(ironbar.bar_by_name("none").is_none());
}

#[test]
fn reload_config_leaves_the_bars() {
    let mut ironbar = manager_with_bars(&["A"]);
    ironbar.reload_config(Config::default());
    assert_eq!(monitor_names(ironbar.bars()), vec!["A"]);
    ironbar.handle_output_event(event(OutputEventType::New, Some("B")));
    assert_eq!(monitor_names(ironbar.bars()), vec!["A"]);
    assert!(!ironbar.config().default_bar().has_region());
}

#[test]
fn any_region_makes_the_default_bar_show() {
    let modules = || Some(vec![ModuleConfig::Label(LabelModule::new("x".to_string()))]);
    let empty = BarConfig::default();
    assert!(!empty.has_region());
    assert!(empty.name.is_none());
    let start = BarConfig { start: modules(), ..BarConfig::default() };
    let center = BarConfig { center: modules(), ..BarConfig::default() };
    let end = BarConfig { end: Some(vec![]), ..BarConfig::default() };
    for config in [start, center, end] {
        assert!(config.has_region());
        let mut ironbar: Ironbar<()> = Ironbar::new(Config::new(config));
        ironbar.activate(());
        ironbar.handle_output_event(event(OutputEventType::New, Some("HDMI-1")));
        assert_eq!(monitor_names(ironbar.bars()), vec!["HDMI-1"]);
    }
}

#[test]
fn bar_copies_its_settings() {
    let mut ids = IdGenerator::new();
    let config = BarConfig {
        name: Some("top".to_string()),
        start: Some(vec![ModuleConfig::Label(LabelModule::new("a".to_string()))]),
        center: None,
        end: Some(vec![
            ModuleConfig::Label(LabelModule::new("b".to_string())),
            ModuleConfig::Label(LabelModule::new("c".to_string())),
        ]),
    };
    let bar = Bar::new("DP-1", &config, &mut ids);
    assert_eq!(bar.id(), 1);
    assert_eq!(bar.monitor_name(), "DP-1");
    assert_eq!(bar.name(), "top");
    assert!(bar.is_on_monitor(&"DP-1".to_string()));
    assert!(!bar.is_on_monitor(&"DP-2".to_string()));
    assert!(bar.is_named(&"top".to_string()));
    assert!(!bar.is_named(&"DP-1".to_string()));
    let copy = bar.clone();
    assert_eq!(copy.id(), 1);
    assert_eq!(copy.name(), "top");
    assert_eq!(copy.config().name.as_deref(), Some("top"));
    assert_eq!(copy.config().start.as_ref().unwrap().len(), 1);
    assert!(copy.config().center.is_none());
    let end = copy.config().end.as_ref().unwrap();
    assert_eq!(end.len(), 2);
    let ModuleConfig::Label(last) = &end[1];
    assert_eq!(last.label(), "c");
    assert_eq!(ids.unique_id(), 2);
}

#[test]
fn outputs_attached_twice_get_their_bars_twice() {
    let mut ironbar = manager_with_bars(&["A", "A"]);
    assert_eq!(monitor_names(ironbar.bars()), vec!["A", "A"]);
    assert_eq!(names(ironbar.bars()), vec!["A", "A"]);
    assert_ne!(ironbar.bars()[0].id(), ironbar.bars()[1].id());
    ironbar.handle_output_event(event(OutputEventType::Destroyed, Some("A")));
    assert!(ironbar.bars().is_empty());
}
