use rotatory::Error;

#[test]
fn error_will_accept_non_error_source_type() {
    let e = Error::new(10, 23);

    assert_eq!(e.tries(), 10);
    assert_eq!(e.into_source(), 23);
}

#[test]
fn error_message() {
    let e = Error::new(3, "it went badly wrong");

    assert_eq!(e.message(), "Tried 3 times. Most recent error: it went badly wrong");
}

#[test]
fn error_round_trip() {
    let e = Error::new(3, "X".to_string());

    assert_eq!(e.tries(), 3);
    assert_eq!(e.source(), &"X".to_string());
    assert_eq!(e.into_source(), "X");
}

#[test]
fn error_message_multi_digit_count() {
    let e = Error::new(1204, "slow");

    assert_eq!(e.message(), "Tried 1204 times. Most recent error: slow");
}

#[test]
fn error_message_zero_count() {
    let e = Error::new(0, "never ran");

    assert_eq!(e.message(), "Tried 0 times. Most recent error: never ran");
}
