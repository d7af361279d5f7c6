use lettre::error::{Cause, Error, FileResult};

fn send_missing_field() -> FileResult {
    // A precondition check that fails before any I/O is attempted.
    Err(Error::from("missing required field"))
}

fn send_with_io_failure() -> FileResult {
    let failure = std::io::Error::new(
        std::io::ErrorKind::PermissionDenied,
        "permission denied writing message file",
    );
    Err::<(), std::io::Error>(failure)?;
    Ok(())
}

fn send_unencodable_message() -> FileResult {
    // A map with non-string keys cannot be encoded as a JSON object.
    let mut message = std::collections::BTreeMap::new();
    message.insert(vec![1u8], "body");
    serde_json::to_string(&message)?;
    Ok(())
}

#[test]
fn client_description_is_message_verbatim() {
    let e = Error::from("missing recipient");
    assert!(matches!(e, Error::Client(_)));
    assert_eq!(e.description(), "missing recipient");
}

#[test]
fn client_has_no_cause() {
    let e = Error::from("sender not configured");
    assert!(e.cause().is_none());
}

#[test]
fn io_conversion_keeps_failure_and_description() {
    let failure = std::io::Error::new(std::io::ErrorKind::Other, "disk full");
    let expected = failure.to_string();
    let e = Error::from(failure);
    assert!(matches!(e, Error::Io(_)));
    assert_eq!(e.description(), expected);
    match e.cause() {
        Some(Cause::Io(inner)) => {
            assert_eq!(inner.kind(), std::io::ErrorKind::Other);
            assert_eq!(inner.to_string(), expected);
        }
        _ => panic!("an Io error must expose its I/O failure as the cause"),
    }
}

#[test]
fn json_conversion_keeps_failure_and_description() {
    let failure = serde_json::from_str::<serde_json::Value>("{").unwrap_err();
    let expected = failure.to_string();
    let e = Error::from(failure);
    assert!(matches!(e, Error::JsonSerialization(_)));
    assert_eq!(e.description(), expected);
    match e.cause() {
        Some(Cause::JsonSerialization(inner)) => {
            assert_eq!(inner.to_string(), expected);
        }
        _ => panic!("a JsonSerialization error must expose the encoder failure as the cause"),
    }
}

#[test]
fn send_outcome_has_two_states() {
    let success: FileResult = Ok(());
    match success {
        Ok(payload) => assert_eq!(payload, ()),
        Err(_) => panic!("a success carries no error"),
    }
    let failure: FileResult = Err(Error::from("one cause"));
    match failure {
        Ok(_) => panic!("a failure carries an error"),
        Err(e) => assert_eq!(e.description(), "one cause"),
    }
}

#[test]
fn permission_failure_is_reported_with_cause() {
    let outcome = send_with_io_failure();
    let e = match outcome {
        Err(e) => e,
        Ok(()) => panic!("a permission failure must fail the send"),
    };
    assert!(e.description().contains("permission denied"));
    assert!(e.cause().is_some());
}

#[test]
fn unencodable_message_is_reported_as_serialization_failure() {
    let outcome = send_unencodable_message();
    let e = match outcome {
        Err(e) => e,
        Ok(()) => panic!("an unencodable message must fail the send"),
    };
    assert!(matches!(e, Error::JsonSerialization(_)));
    assert!(e.description().contains("key must be a string"));
}

#[test]
fn failed_precondition_is_reported_as_client_error() {
    let outcome = send_missing_field();
    let e = match outcome {
        Err(e) => e,
        Ok(()) => panic!("a failed precondition must fail the send"),
    };
    assert!(matches!(e, Error::Client(_)));
    assert_eq!(e.description(), "missing required field");
    assert!(e.cause().is_none());
}
