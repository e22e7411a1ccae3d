use tg_image_hosting::consolelog::{enabled, init_with_level, log, Console, Level, LevelFilter};

const LEVELS: [Level; 5] = [Level::Error, Level::Warn, Level::Info, Level::Debug, Level::Trace];

#[test]
fn nothing_is_enabled_when_logging_is_off() {
    for level in LEVELS {
        assert!(!enabled(level, LevelFilter::Off));
    }
}

#[test]
fn a_level_is_enabled_up_to_the_filter() {
    assert!(enabled(Level::Error, LevelFilter::Error));
    assert!(!enabled(Level::Warn, LevelFilter::Error));
    assert!(enabled(Level::Info, LevelFilter::Info));
    assert!(enabled(Level::Warn, LevelFilter::Info));
    assert!(!enabled(Level::Debug, LevelFilter::Info));
    for level in LEVELS {
        assert!(enabled(level, LevelFilter::Trace));
    }
}

#[test]
fn the_filter_of_a_level_lets_exactly_that_level_and_worse_through() {
    assert_eq!(init_with_level(Level::Info), LevelFilter::Info);
    assert_eq!(init_with_level(Level::Error), LevelFilter::Error);
    assert_eq!(init_with_level(Level::Trace), LevelFilter::Trace);
    for (i, wanted) in LEVELS.iter().enumerate() {
        for (j, level) in LEVELS.iter().enumerate() {
            assert_eq!(enabled(*level, init_with_level(*wanted)), j <= i);
        }
    }
}

#[test]
fn a_record_is_written_with_its_module_in_brackets() {
    assert_eq!(
        log("relay::handler", Level::Info, LevelFilter::Info, "download from raw"),
        Some((Console::Info, "[relay::handler] download from raw".to_string()))
    );
    assert_eq!(log("", Level::Error, LevelFilter::Info, "boom"), Some((Console::Error, "[] boom".to_string())));
}

#[test]
fn each_level_has_its_channel() {
    let channel = |level| log("m", level, LevelFilter::Trace, "x").unwrap().0;
    assert_eq!(channel(Level::Error), Console::Error);
    assert_eq!(channel(Level::Warn), Console::Warn);
    assert_eq!(channel(Level::Info), Console::Info);
    assert_eq!(channel(Level::Debug), Console::Log);
    assert_eq!(channel(Level::Trace), Console::Debug);
}

#[test]
fn a_record_below_the_filter_is_not_written() {
    assert_eq!(log("m", Level::Debug, LevelFilter::Info, "x"), None);
    assert_eq!(log("m", Level::Error, LevelFilter::Off, "x"), None);
}

#[test]
fn the_muted_module_is_never_written() {
    assert_eq!(log("html5ever::serialize", Level::Error, LevelFilter::Trace, "x"), None);
    assert!(log("html5ever::serialize::inner", Level::Error, LevelFilter::Trace, "x").is_some());
    assert!(log("html5ever", Level::Error, LevelFilter::Trace, "x").is_some());
}
