use iot_client_template::{reported_from_desired, Twin, TwinError, TwinUpdateState, WatchdogHandler, MethodTable};
use serde_json::Value;

fn json(text: &str) -> Value {
    serde_json::from_str(text).unwrap()
}

#[test]
fn complete_twin_forwards_desired_without_version() {
    let doc = reported_from_desired(
        TwinUpdateState::Complete,
        json(r#"{"desired": {"a": 1, "$version": 3}}"#),
    )
    .unwrap();
    assert_eq!(doc, json(r#"{"a": 1}"#));
}

#[test]
fn partial_twin_forwards_delta_without_version() {
    let doc = reported_from_desired(TwinUpdateState::Partial, json(r#"{"a": 1, "$version": 3}"#)).unwrap();
    assert_eq!(doc, json(r#"{"a": 1}"#));
}

#[test]
fn version_key_is_never_forwarded() {
    let payloads = [
        (TwinUpdateState::Partial, r#"{"$version": 1}"#),
        (TwinUpdateState::Partial, r#"{"x": {"$version": 2}, "$version": 7, "y": [1, 2]}"#),
        (TwinUpdateState::Complete, r#"{"desired": {"$version": 9, "b": "c"}, "reported": {"$version": 4}}"#),
    ];
    for (state, text) in payloads {
        let doc = reported_from_desired(state, json(text)).unwrap();
        let members = doc.as_object().unwrap();
        assert!(!members.contains_key("$version"));
    }
}

#[test]
fn members_other_than_version_are_kept() {
    let doc = reported_from_desired(
        TwinUpdateState::Partial,
        json(r#"{"x": {"$version": 2}, "$version": 7, "y": [1, 2], "z": null}"#),
    )
    .unwrap();
    assert_eq!(doc, json(r#"{"x": {"$version": 2}, "y": [1, 2], "z": null}"#));
}

#[test]
fn payload_without_version_is_forwarded_unchanged() {
    let doc = reported_from_desired(TwinUpdateState::Partial, json(r#"{"a": true, "b": "text"}"#)).unwrap();
    assert_eq!(doc, json(r#"{"a": true, "b": "text"}"#));
}

#[test]
fn empty_delta_forwards_empty_document() {
    let doc = reported_from_desired(TwinUpdateState::Partial, json("{}")).unwrap();
    assert_eq!(doc, json("{}"));
}

#[test]
fn complete_twin_ignores_members_beside_desired() {
    let doc = reported_from_desired(
        TwinUpdateState::Complete,
        json(r#"{"desired": {"a": 2}, "reported": {"b": 3}}"#),
    )
    .unwrap();
    assert_eq!(doc, json(r#"{"a": 2}"#));
}

#[test]
fn delta_that_is_no_object_is_malformed() {
    assert_eq!(reported_from_desired(TwinUpdateState::Partial, json("5")), Err(TwinError::MalformedTwin));
    assert_eq!(reported_from_desired(TwinUpdateState::Partial, json("[1]")), Err(TwinError::MalformedTwin));
    assert_eq!(reported_from_desired(TwinUpdateState::Partial, json("null")), Err(TwinError::MalformedTwin));
}

#[test]
fn complete_twin_without_desired_object_is_malformed() {
    assert_eq!(
        reported_from_desired(TwinUpdateState::Complete, json(r#"{"a": 1}"#)),
        Err(TwinError::MalformedTwin)
    );
    assert_eq!(
        reported_from_desired(TwinUpdateState::Complete, json(r#"{"desired": 4}"#)),
        Err(TwinError::MalformedTwin)
    );
    assert_eq!(reported_from_desired(TwinUpdateState::Complete, json("7")), Err(TwinError::MalformedTwin));
}

#[test]
fn twin_handle_desired_reconciles() {
    let twin: Twin<u8> = Twin::new(WatchdogHandler::new(None, 0), MethodTable::new());
    let doc = twin.handle_desired(TwinUpdateState::Complete, json(r#"{"desired": {"k": "v", "$version": 1}}"#));
    assert_eq!(doc, Ok(json(r#"{"k": "v"}"#)));
}
