use pomodoro::Project;

#[test]
fn new_project_starts_with_zeroed_counters() {
    let p = Project::new(String::from("widget"));
    assert_eq!(p.get_name(), "widget");
    assert_eq!(p.get_focus_seconds(), 0);
    assert_eq!(p.get_total_seconds(), 0);
}

#[test]
fn lookup_of_unknown_name_yields_fresh_record() {
    let p = Project::from_lookup(String::from("widget"), None);
    assert_eq!(p.get_name(), "widget");
    assert_eq!(p.get_focus_seconds(), 0);
    assert_eq!(p.get_total_seconds(), 0);
}

#[test]
fn lookup_of_existing_record_returns_it_unchanged() {
    let mut stored = Project::new(String::from("widget"));
    stored.set_focus_seconds(120);
    stored.set_total_seconds(200);
    let p = Project::from_lookup(String::from("widget"), Some(stored));
    assert_eq!(p.get_name(), "widget");
    assert_eq!(p.get_focus_seconds(), 120);
    assert_eq!(p.get_total_seconds(), 200);
}

#[test]
fn counter_setters_store_their_values() {
    let mut p = Project::new(String::from("none"));
    p.set_total_seconds(10);
    p.set_focus_seconds(7);
    assert_eq!(p.get_total_seconds(), 10);
    assert_eq!(p.get_focus_seconds(), 7);
    assert_eq!(p.get_name(), "none");
}
