use secant::Error;

#[test]
fn message_names_the_cap() {
    assert_eq!(Error::MaxIter(50).message(), "Maximal iteration (50) reached");
    assert_eq!(Error::MaxIter(1).message(), "Maximal iteration (1) reached");
}

#[test]
fn message_renders_every_digit() {
    assert_eq!(Error::MaxIter(0).message(), "Maximal iteration (0) reached");
    assert_eq!(Error::MaxIter(9).message(), "Maximal iteration (9) reached");
    assert_eq!(Error::MaxIter(10).message(), "Maximal iteration (10) reached");
    assert_eq!(Error::MaxIter(1_000).message(), "Maximal iteration (1000) reached");
    assert_eq!(
        Error::MaxIter(1_234_567_890).message(),
        "Maximal iteration (1234567890) reached"
    );
    assert_eq!(
        Error::MaxIter(usize::MAX).message(),
        format!("Maximal iteration ({}) reached", usize::MAX)
    );
}

#[test]
fn limit_is_the_value_carried() {
    assert_eq!(Error::MaxIter(0).limit(), 0);
    assert_eq!(Error::MaxIter(50).limit(), 50);
    assert_eq!(Error::MaxIter(usize::MAX).limit(), usize::MAX);
}

#[test]
fn errors_compare_by_their_cap() {
    assert_eq!(Error::MaxIter(3), Error::MaxIter(3));
    assert_ne!(Error::MaxIter(3), Error::MaxIter(4));
}
