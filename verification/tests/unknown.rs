use dealer_protocol::request::Command;
use serde_json::Value;

fn json(text: &str) -> Value {
    serde_json::from_str(text).unwrap()
}

#[test]
fn unknown_endpoint_is_kept_with_its_label() {
    let document = json(r#"{"endpoint":"rewind","speed":2}"#);
    let command = Command::from_json(&document).unwrap();
    assert_eq!(command, Command::Unknown(document));
    assert_eq!(command.label(), "rewind");
    assert_eq!(command.describe(), "endpoint: unknown rewind");
}

#[test]
fn endpoint_in_another_case_is_unknown() {
    let document = json(r#"{"endpoint":"Pause","logging_params":{}}"#);
    let command = Command::from_json(&document).unwrap();
    assert_eq!(command, Command::Unknown(document));
    assert_eq!(command.label(), "Pause");
    let document = json(r#"{"endpoint":"seekTo"}"#);
    assert_eq!(Command::from_json(&document).unwrap().label(), "seekTo");
}

#[test]
fn empty_endpoint_is_unknown() {
    let document = json(r#"{"endpoint":""}"#);
    let command = Command::from_json(&document).unwrap();
    assert_eq!(command, Command::Unknown(document));
    assert_eq!(command.label(), "");
    assert_eq!(command.describe(), "endpoint: unknown ");
}

#[test]
fn non_ascii_endpoint_is_kept() {
    let document = json(r#"{"endpoint":"pausé"}"#);
    let command = Command::from_json(&document).unwrap();
    assert_eq!(command.label(), "pausé");
}

#[test]
fn missing_endpoint_gets_the_placeholder() {
    let document = json(r#"{"logging_params":{}}"#);
    let command = Command::from_json(&document).unwrap();
    assert_eq!(command, Command::Unknown(document));
    assert_eq!(command.label(), "???");
    assert_eq!(command.describe(), "endpoint: unknown ???");
}

#[test]
fn malformed_endpoint_gets_the_placeholder() {
    let document = json(r#"{"endpoint":7}"#);
    let command = Command::from_json(&document).unwrap();
    assert_eq!(command, Command::Unknown(document));
    assert_eq!(command.label(), "???");
}

#[test]
fn a_command_that_is_no_object_is_kept() {
    for text in ["null", "true", "12", "\"pause\"", "[1,2]"] {
        let document = json(text);
        let command = Command::from_json(&document).unwrap();
        assert_eq!(command, Command::Unknown(document));
        assert_eq!(command.label(), "???");
    }
}

#[test]
fn known_commands_are_labelled_by_their_endpoint() {
    let names = [
        "pause",
        "skip_prev",
        "resume",
        "skip_next",
        "set_options",
    ];
    for name in names {
        let text = format!("{{\"endpoint\":\"{}\",\"logging_params\":{{}}}}", name);
        let command = Command::from_json(&json(&text)).unwrap();
        assert_eq!(command.label(), name);
        assert_eq!(command.describe(), format!("endpoint: {}", name));
    }
}

#[test]
fn hand_made_unknown_command_is_labelled() {
    let command = Command::Unknown(json(r#"{"endpoint":"volume","logging_params":3}"#));
    assert_eq!(command.label(), "volume");
    assert_eq!(command.describe(), "endpoint: unknown volume");
    let command = Command::Unknown(json(r#"{"endpoint":"pause"}"#));
    assert_eq!(command.label(), "pause");
    assert_eq!(command.describe(), "endpoint: unknown pause");
}
