use masto_vision::logging::{level_for, level_from_name, target_level, LogLevel};

#[test]
fn names_give_their_levels() {
    assert_eq!(level_from_name("info"), LogLevel::Info);
    assert_eq!(level_from_name("debug"), LogLevel::Debug);
    assert_eq!(level_from_name("trace"), LogLevel::Trace);
    assert_eq!(level_from_name("warn"), LogLevel::Warn);
    assert_eq!(level_from_name("error"), LogLevel::Error);
    assert_eq!(level_from_name("quiet"), LogLevel::Off);
}

#[test]
fn unknown_names_stand_for_info() {
    assert_eq!(level_from_name(""), LogLevel::Info);
    assert_eq!(level_from_name("INFO"), LogLevel::Info);
    assert_eq!(level_from_name("off"), LogLevel::Info);
    assert_eq!(level_from_name("debug "), LogLevel::Info);
}

#[test]
fn no_name_stands_for_info() {
    assert_eq!(level_for(None), LogLevel::Info);
    assert_eq!(level_for(Some("quiet")), LogLevel::Off);
}

#[test]
fn noisy_targets_are_held_to_warnings() {
    assert_eq!(target_level("mastodon_async"), Some(LogLevel::Warn));
    assert_eq!(target_level("rustls"), Some(LogLevel::Warn));
    assert_eq!(target_level("masto_vision"), None);
    assert_eq!(target_level(""), None);
}
