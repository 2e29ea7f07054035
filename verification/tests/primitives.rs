use ironbar::config::Config;
use ironbar::error::ExitCode;
use ironbar::ids::IdGenerator;
use ironbar::lifecycle::Ironbar;

#[test]
fn identifiers_count_up_from_one() {
    let mut ids = IdGenerator::new();
    assert_eq!(ids.unique_id(), 1);
    assert_eq!(ids.unique_id(), 2);
    assert_eq!(ids.unique_id(), 3);
}

#[test]
fn identifiers_of_two_generators_do_not_interfere() {
    let mut a = IdGenerator::new();
    let mut b = IdGenerator::new();
    assert_eq!(a.unique_id(), 1);
    assert_eq!(a.unique_id(), 2);
    assert_eq!(b.unique_id(), 1);
}

#[test]
fn manager_hands_out_identifiers() {
    let mut ironbar: Ironbar<()> = Ironbar::new(Config::default());
    assert_eq!(ironbar.unique_id(), 1);
    assert_eq!(ironbar.unique_id(), 2);
}

#[test]
fn exit_codes_are_distinct() {
    assert_eq!(ExitCode::GtkDisplay.code(), 1);
    assert_eq!(ExitCode::CreateBars.code(), 2);
    assert_ne!(ExitCode::GtkDisplay.code(), ExitCode::CreateBars.code());
    assert_ne!(ExitCode::GtkDisplay.code(), 0);
    assert_ne!(ExitCode::CreateBars.code(), 0);
}
