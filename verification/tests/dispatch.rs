use cmd_repeater::dispatch::{classify_outcome, Outcome};

#[test]
fn classify_success_with_body() {
    let outcome = classify_outcome(Ok((200, Some(b"ok".to_vec()))));
    assert!(matches!(outcome, Outcome::SuccessWithBody { ref body } if body == b"ok"));
}

#[test]
fn classify_success_body_unreadable_is_empty() {
    // A body that could not be read does not disturb the success
    // classification; the body is simply empty.
    let outcome = classify_outcome(Ok((204, None)));
    assert!(matches!(outcome, Outcome::SuccessWithBody { ref body } if body.is_empty()));
}

#[test]
fn classify_success_range_boundaries() {
    assert!(matches!(
        classify_outcome(Ok((199, Some(b"x".to_vec())))),
        Outcome::SuccessNon2xx { status: 199 }
    ));
    assert!(matches!(
        classify_outcome(Ok((200, Some(b"x".to_vec())))),
        Outcome::SuccessWithBody { .. }
    ));
    assert!(matches!(
        classify_outcome(Ok((299, None))),
        Outcome::SuccessWithBody { .. }
    ));
    assert!(matches!(
        classify_outcome(Ok((300, None))),
        Outcome::SuccessNon2xx { status: 300 }
    ));
}

#[test]
fn classify_non_2xx_carries_code() {
    let outcome = classify_outcome(Ok((500, Some(b"internal".to_vec()))));
    assert!(matches!(outcome, Outcome::SuccessNon2xx { status: 500 }));
    let outcome = classify_outcome(Ok((404, None)));
    assert!(matches!(outcome, Outcome::SuccessNon2xx { status: 404 }));
}

#[test]
fn classify_transport_failure_carries_message() {
    let outcome = classify_outcome(Err(b"dns error".to_vec()));
    assert!(matches!(
        outcome,
        Outcome::TransportFailure { ref message } if message == b"dns error"
    ));
}
