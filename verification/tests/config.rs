use pomodoro::Config;

#[test]
fn new_config_keeps_its_fields() {
    let c = Config::new(30, 10, 20, 3);
    assert_eq!(c.get_focus(), 30);
    assert_eq!(c.get_break_time(), 10);
    assert_eq!(c.get_long_break(), 20);
    assert_eq!(c.get_cycles(), 3);
    assert_eq!(c.id, 1);
}

#[test]
fn missing_record_falls_back_to_defaults() {
    let c = Config::or_default(None);
    assert_eq!(c.get_focus(), 25);
    assert_eq!(c.get_break_time(), 5);
    assert_eq!(c.get_long_break(), 15);
    assert_eq!(c.get_cycles(), 4);
}

#[test]
fn stored_record_wins_over_defaults() {
    let c = Config::or_default(Some(Config::new(50, 10, 30, 2)));
    assert_eq!(c.get_focus(), 50);
    assert_eq!(c.get_break_time(), 10);
    assert_eq!(c.get_long_break(), 30);
    assert_eq!(c.get_cycles(), 2);
}

#[test]
fn overrides_replace_only_given_fields() {
    let mut c = Config::new(25, 5, 15, 4);
    let changed = c.apply_overrides(Some(50), None, Some(20), None);
    assert!(changed);
    assert_eq!(c.get_focus(), 50);
    assert_eq!(c.get_break_time(), 5);
    assert_eq!(c.get_long_break(), 20);
    assert_eq!(c.get_cycles(), 4);
}

#[test]
fn no_overrides_means_no_write_back() {
    let mut c = Config::new(25, 5, 15, 4);
    let changed = c.apply_overrides(None, None, None, None);
    assert!(!changed);
    assert_eq!(c.get_focus(), 25);
    assert_eq!(c.get_break_time(), 5);
    assert_eq!(c.get_long_break(), 15);
    assert_eq!(c.get_cycles(), 4);
}

#[test]
fn setters_store_their_values() {
    let mut c = Config::new(25, 5, 15, 4);
    c.set_focus(45);
    c.set_break_time(9);
    c.set_long_break(25);
    c.set_cycles(6);
    assert_eq!(c.get_focus(), 45);
    assert_eq!(c.get_break_time(), 9);
    assert_eq!(c.get_long_break(), 25);
    assert_eq!(c.get_cycles(), 6);
}
