use termclock::error::ClockError;

#[test]
fn every_error_has_words_for_the_user() {
    assert_eq!(ClockError::UnknownFont.message(), "Unknown character set");
    assert_eq!(
        ClockError::TimeSourceUnavailable.message(),
        "System clock is set before the epoch"
    );
    assert_eq!(ClockError::InvalidSymbol.message(), "Decimal digit not in 0..10");
    assert_eq!(
        ClockError::TerminalUnavailable.message(),
        "Terminal size is not available"
    );
}

#[test]
fn errors_compare_by_variant() {
    assert_eq!(ClockError::UnknownFont, ClockError::UnknownFont);
    assert_ne!(ClockError::UnknownFont, ClockError::InvalidSymbol);
    let copy = ClockError::TerminalUnavailable;
    assert_eq!(copy, ClockError::TerminalUnavailable);
}
