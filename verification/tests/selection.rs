use ram_monitor::monitor::memory_watcher::{check_for_warnigs, Config, Warning};

fn low_high() -> Vec<Warning> {
    vec![Warning::new(20_000, "low"), Warning::new(80_000, "high")]
}

#[test]
fn single_rule_is_selected_above_its_threshold() {
    let rules = vec![Warning::new(20_000, "hello 20.0")];
    let chosen = check_for_warnigs(25_000, &rules).expect("a rule is triggered");
    assert_eq!(chosen.message(), "hello 20.0");
    assert_eq!(chosen.usage(), 20_000);
}

#[test]
fn highest_triggered_rule_wins() {
    let chosen = check_for_warnigs(85_000, &low_high()).expect("a rule is triggered");
    assert_eq!(chosen.message(), "high");
    assert_eq!(chosen.usage(), 80_000);
}

#[test]
fn rule_above_usage_is_passed_over() {
    let chosen = check_for_warnigs(50_000, &low_high()).expect("a rule is triggered");
    assert_eq!(chosen.message(), "low");
    assert_eq!(chosen.usage(), 20_000);
}

#[test]
fn order_of_rules_does_not_matter() {
    let rules = vec![Warning::new(80_000, "high"), Warning::new(20_000, "low")];
    assert_eq!(check_for_warnigs(85_000, &rules).unwrap().message(), "high");
    assert_eq!(check_for_warnigs(50_000, &rules).unwrap().message(), "low");
}

#[test]
fn empty_rule_set_selects_nothing() {
    let rules: Vec<Warning> = Vec::new();
    assert!(check_for_warnigs(0, &rules).is_none());
    assert!(check_for_warnigs(50_000, &rules).is_none());
    assert!(check_for_warnigs(u128::MAX, &rules).is_none());
}

#[test]
fn nothing_selected_below_every_threshold() {
    assert!(check_for_warnigs(19_999, &low_high()).is_none());
    assert!(check_for_warnigs(0, &low_high()).is_none());
}

#[test]
fn threshold_is_reached_at_equality() {
    assert_eq!(check_for_warnigs(20_000, &low_high()).unwrap().message(), "low");
    assert_eq!(check_for_warnigs(80_000, &low_high()).unwrap().message(), "high");
    assert_eq!(check_for_warnigs(79_999, &low_high()).unwrap().message(), "low");
}

#[test]
fn zero_threshold_always_matches() {
    let rules = vec![Warning::new(0, "always")];
    assert_eq!(check_for_warnigs(0, &rules).unwrap().message(), "always");
    assert_eq!(check_for_warnigs(100_000, &rules).unwrap().message(), "always");
}

#[test]
fn selecting_twice_gives_the_same_threshold() {
    let rules = vec![
        Warning::new(30_000, "a"),
        Warning::new(60_000, "b"),
        Warning::new(60_000, "c"),
        Warning::new(90_000, "d"),
    ];
    let first = check_for_warnigs(70_000, &rules).unwrap();
    let second = check_for_warnigs(70_000, &rules).unwrap();
    assert_eq!(first.usage(), 60_000);
    assert_eq!(second.usage(), 60_000);
    assert!(first.message() == "b" || first.message() == "c");
}

#[test]
fn usage_beyond_u64_triggers_every_rule() {
    let rules = vec![Warning::new(u64::MAX, "top"), Warning::new(1, "bottom")];
    let chosen = check_for_warnigs(u128::MAX, &rules).unwrap();
    assert_eq!(chosen.usage(), u64::MAX);
    assert_eq!(chosen.message(), "top");
}

#[test]
fn config_selects_among_added_warnings() {
    let mut config = Config::new();
    assert!(config.select(100_000).is_none());
    config.add_warning(Warning::new(20_000, "low"));
    config.add_warning(Warning::new(80_000, "high"));
    assert_eq!(config.select(85_000).unwrap().message(), "high");
    assert_eq!(config.select(50_000).unwrap().message(), "low");
    assert!(config.select(10_000).is_none());
}

#[test]
fn warning_keeps_threshold_and_message() {
    let w = Warning::new(42_500, "nearly half");
    assert_eq!(w.usage(), 42_500);
    assert_eq!(w.message(), "nearly half");
    let copy = w.clone();
    assert_eq!(copy.usage(), 42_500);
    assert_eq!(copy.message(), "nearly half");
}
