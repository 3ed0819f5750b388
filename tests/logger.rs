use std::collections::HashMap;

use led_controller::logger::{level_from_lowercase, name_applies_to, LevelFilter, VecLogger};

#[test]
fn new_logs_everything() {
    let l = VecLogger::new();
    assert_eq!(l.level_for("any::module"), LevelFilter::Trace);
    assert!(l.enabled(LevelFilter::Trace, "any::module"));
    assert_eq!(l.max_level(), LevelFilter::Trace);
}

#[test]
fn default_matches_new() {
    let l = VecLogger::default();
    assert_eq!(l.level_for(""), LevelFilter::Trace);
}

#[test]
fn with_level_sets_default() {
    let l = VecLogger::new().with_level(LevelFilter::Warn);
    assert!(l.enabled(LevelFilter::Error, "x"));
    assert!(l.enabled(LevelFilter::Warn, "x"));
    assert!(!l.enabled(LevelFilter::Info, "x"));
    assert_eq!(l.max_level(), LevelFilter::Warn);
}

#[test]
fn level_names() {
    assert_eq!(level_from_lowercase("trace"), Some(LevelFilter::Trace));
    assert_eq!(level_from_lowercase("debug"), Some(LevelFilter::Debug));
    assert_eq!(level_from_lowercase("info"), Some(LevelFilter::Info));
    assert_eq!(level_from_lowercase("warn"), Some(LevelFilter::Warn));
    assert_eq!(level_from_lowercase("error"), Some(LevelFilter::Error));
    assert_eq!(level_from_lowercase("off"), None);
    assert_eq!(level_from_lowercase("WARN"), None);
}

#[test]
fn env_value_in_any_case() {
    let l = VecLogger::new().env(Some("DeBuG"));
    assert_eq!(l.level_for("m"), LevelFilter::Debug);
}

#[test]
fn from_env_defaults_to_error() {
    assert_eq!(VecLogger::from_env(None).level_for("m"), LevelFilter::Error);
    assert_eq!(VecLogger::from_env(Some("verbose")).level_for("m"), LevelFilter::Error);
    assert_eq!(VecLogger::from_env(Some("INFO")).level_for("m"), LevelFilter::Info);
}

#[test]
fn longest_module_name_wins() {
    let l = VecLogger::new()
        .with_level(LevelFilter::Off)
        .with_module_level("app", LevelFilter::Info)
        .with_module_level("app::net", LevelFilter::Debug);
    assert_eq!(l.level_for("app::net::tcp"), LevelFilter::Debug);
    assert_eq!(l.level_for("app::ui"), LevelFilter::Info);
    assert_eq!(l.level_for("other"), LevelFilter::Off);
    assert!(!l.enabled(LevelFilter::Error, "other"));
    assert!(l.enabled(LevelFilter::Debug, "app::net"));
    assert!(!l.enabled(LevelFilter::Trace, "app::net"));
    assert_eq!(l.governing_entry("app::net::tcp"), Some(1));
    assert_eq!(l.governing_entry("zzz"), None);
    assert_eq!(l.max_level(), LevelFilter::Debug);
}

#[test]
fn first_of_equal_names_wins() {
    let l = VecLogger::new()
        .with_module_level("chatty", LevelFilter::Warn)
        .with_module_level("chatty", LevelFilter::Trace);
    assert_eq!(l.level_for("chatty::inner"), LevelFilter::Warn);
    assert_eq!(l.governing_entry("chatty"), Some(0));
}

#[test]
fn name_prefix_is_bytewise() {
    assert!(name_applies_to("", "abc"));
    assert!(name_applies_to("ab", "abc"));
    assert!(name_applies_to("abc", "abc"));
    assert!(!name_applies_to("abcd", "abc"));
    assert!(!name_applies_to("b", "abc"));
    assert!(name_applies_to("é", "été"));
}

#[test]
fn target_levels_from_map() {
    let mut map = HashMap::new();
    map.insert("net".to_string(), LevelFilter::Error);
    map.insert("net::tcp".to_string(), LevelFilter::Trace);
    let l = VecLogger::new().with_level(LevelFilter::Info).with_target_levels(map);
    assert_eq!(l.level_for("net::tcp::read"), LevelFilter::Trace);
    assert_eq!(l.level_for("net::udp"), LevelFilter::Error);
    assert_eq!(l.level_for("ui"), LevelFilter::Info);
    assert_eq!(l.max_level(), LevelFilter::Trace);
}

#[test]
fn level_order() {
    assert_eq!(LevelFilter::Off.rank(), 0);
    assert_eq!(LevelFilter::Trace.rank(), 5);
    assert_eq!(LevelFilter::Warn.max(LevelFilter::Info), LevelFilter::Info);
    assert_eq!(LevelFilter::Debug.max(LevelFilter::Error), LevelFilter::Debug);
}

#[test]
fn init_sets_global_max_level() {
    let l = VecLogger::new()
        .with_level(LevelFilter::Error)
        .with_module_level("led", LevelFilter::Debug)
        .init();
    assert_eq!(log::max_level(), log::LevelFilter::Debug);
    assert_eq!(l.level_for("led::x"), LevelFilter::Debug);
}
