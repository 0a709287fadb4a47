use secret_store::failure::{respond, Failure, FailureKind};

fn failure(kind: FailureKind, message: &str) -> Failure {
    Failure { kind, message: message.to_string() }
}

#[test]
fn success_without_payload_stays_success() {
    let outcome: Result<(), Failure> = Ok(());
    assert_eq!(respond(outcome), Ok(()));
}

#[test]
fn value_is_passed_on_unchanged() {
    let outcome: Result<String, Failure> = Ok("abc123".to_string());
    assert_eq!(respond(outcome), Ok("abc123".to_string()));
}

#[test]
fn empty_value_is_a_value() {
    let outcome: Result<String, Failure> = Ok(String::new());
    assert_eq!(respond(outcome), Ok(String::new()));
}

#[test]
fn resolution_failure_becomes_its_message() {
    let outcome: Result<(), Failure> = Err(failure(
        FailureKind::Resolution,
        "Couldn't access platform secure storage: the store is locked",
    ));
    assert_eq!(
        respond(outcome),
        Err("Couldn't access platform secure storage: the store is locked".to_string())
    );
}

#[test]
fn not_found_becomes_its_message() {
    let outcome: Result<String, Failure> =
        Err(failure(FailureKind::NotFound, "No matching entry found in secure storage"));
    assert_eq!(respond(outcome), Err("No matching entry found in secure storage".to_string()));
}

#[test]
fn rejection_becomes_its_message() {
    let outcome: Result<(), Failure> = Err(failure(
        FailureKind::Rejected,
        "Attribute 'password' is longer than platform limit of 2560 chars",
    ));
    assert_eq!(
        respond(outcome),
        Err("Attribute 'password' is longer than platform limit of 2560 chars".to_string())
    );
}

#[test]
fn kind_does_not_change_the_message() {
    let kinds = vec![FailureKind::Resolution, FailureKind::NotFound, FailureKind::Rejected];
    for kind in kinds {
        let outcome: Result<String, Failure> = Err(failure(kind, "same text"));
        assert_eq!(respond(outcome), Err("same text".to_string()));
    }
}

#[test]
fn empty_message_is_still_an_error() {
    let outcome: Result<String, Failure> = Err(failure(FailureKind::NotFound, ""));
    assert_eq!(respond(outcome), Err(String::new()));
}

#[test]
fn failure_while_resolving_is_a_resolution_failure() {
    let made = Failure::resolving("Platform secure storage failure: no bus".to_string());
    assert_eq!(made.kind, FailureKind::Resolution);
    assert_eq!(made.message, "Platform secure storage failure: no bus");
}

#[test]
fn failure_while_operating_on_an_empty_entry_is_not_found() {
    let made = Failure::operating(true, "No matching entry found in secure storage".to_string());
    assert_eq!(made.kind, FailureKind::NotFound);
    assert_eq!(made.message, "No matching entry found in secure storage");
}

#[test]
fn other_failure_while_operating_is_a_rejection() {
    let made = Failure::operating(false, "Password cannot be UTF-8 encoded".to_string());
    assert_eq!(made.kind, FailureKind::Rejected);
    assert_eq!(made.message, "Password cannot be UTF-8 encoded");
}

#[test]
fn made_failure_is_told_by_its_message() {
    let outcome: Result<String, Failure> = Err(Failure::operating(true, "nothing there".to_string()));
    assert_eq!(respond(outcome), Err("nothing there".to_string()));
}
