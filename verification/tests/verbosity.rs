use literate::{Level, Verbosity};

#[test]
fn count_chooses_the_level() {
    let expected = [Level::Error, Level::Warn, Level::Info, Level::Debug, Level::Trace];
    for (verbose, level) in expected.iter().enumerate() {
        let verbosity = Verbosity { verbose: verbose as u8, debug: false, trace: false };
        assert_eq!(verbosity.level(), *level);
    }
    assert_eq!(Verbosity { verbose: 5, debug: false, trace: false }.level(), Level::Trace);
    assert_eq!(Verbosity { verbose: 255, debug: false, trace: false }.level(), Level::Trace);
}

#[test]
fn flags_win_over_the_count() {
    assert_eq!(Verbosity { verbose: 0, debug: true, trace: false }.level(), Level::Debug);
    assert_eq!(Verbosity { verbose: 4, debug: true, trace: false }.level(), Level::Debug);
    assert_eq!(Verbosity { verbose: 0, debug: false, trace: true }.level(), Level::Trace);
    assert_eq!(Verbosity { verbose: 1, debug: true, trace: true }.level(), Level::Trace);
}
