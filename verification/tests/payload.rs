use cmd_repeater::config::Configuration;
use cmd_repeater::payload::encode_payload;

#[test]
fn payload_exact_bytes() {
    let config = Configuration::new(
        b"caller".to_vec(),
        b".+".to_vec(),
        b"echo hi".to_vec(),
        b"http://localhost:8080/exec".to_vec(),
        1000,
    );
    let payload = config.tick_payload();
    assert_eq!(
        payload,
        br#"{"id":"caller","cmdIdRe":".+","cmd":"echo hi"}"#.to_vec()
    );
}

#[test]
fn payload_same_every_tick() {
    let config = Configuration::new(
        b"caller".to_vec(),
        b".+".to_vec(),
        b"echo hi".to_vec(),
        b"http://localhost:8080/exec".to_vec(),
        50,
    );
    assert_eq!(config.tick_payload(), config.tick_payload());
}

#[test]
fn payload_empty_fields() {
    let payload = encode_payload(&Vec::new(), &Vec::new(), &Vec::new());
    assert_eq!(payload, br#"{"id":"","cmdIdRe":"","cmd":""}"#.to_vec());
}

#[test]
fn payload_escapes_quote_and_backslash() {
    let payload = encode_payload(
        &b"a\"b".to_vec(),
        &b"c\\d".to_vec(),
        &b"say \"hi\"".to_vec(),
    );
    assert_eq!(
        payload,
        b"{\"id\":\"a\\\"b\",\"cmdIdRe\":\"c\\\\d\",\"cmd\":\"say \\\"hi\\\"\"}".to_vec()
    );
}

#[test]
fn payload_escapes_named_controls() {
    let payload = encode_payload(
        &b"a\nb".to_vec(),
        &b"t\tt".to_vec(),
        &vec![0x08, 0x0c, 0x0d],
    );
    assert_eq!(
        payload,
        b"{\"id\":\"a\\nb\",\"cmdIdRe\":\"t\\tt\",\"cmd\":\"\\b\\f\\r\"}".to_vec()
    );
}

#[test]
fn payload_escapes_other_control_bytes() {
    let payload = encode_payload(&vec![0x01], &vec![0x1f], &vec![0x00]);
    assert_eq!(
        payload,
        b"{\"id\":\"\\u0001\",\"cmdIdRe\":\"\\u001f\",\"cmd\":\"\\u0000\"}".to_vec()
    );
}

#[test]
fn payload_passes_multibyte_utf8_through() {
    let cmd = String::from("echo h\u{e9}llo \u{2713}");
    let payload = encode_payload(
        &b"caller".to_vec(),
        &b".+".to_vec(),
        &cmd.clone().into_bytes(),
    );
    let text = String::from_utf8(payload).unwrap();
    assert!(text.contains("h\u{e9}llo \u{2713}"));
}

#[test]
fn payload_round_trip_through_json_parser() {
    let name = String::from("caller");
    let pattern = String::from(".+");
    let cmd = String::from("echo hi");
    let payload = encode_payload(
        &name.clone().into_bytes(),
        &pattern.clone().into_bytes(),
        &cmd.clone().into_bytes(),
    );
    let value: serde_json::Value = serde_json::from_slice(&payload).unwrap();
    let object = value.as_object().unwrap();
    assert_eq!(object.len(), 3);
    assert_eq!(object.get("id").unwrap().as_str(), Some(name.as_str()));
    assert_eq!(object.get("cmdIdRe").unwrap().as_str(), Some(pattern.as_str()));
    assert_eq!(object.get("cmd").unwrap().as_str(), Some(cmd.as_str()));
}

#[test]
fn payload_round_trip_with_awkward_text() {
    let name = String::from("a\"b\\c");
    let pattern = String::from("^(x|y)\t$");
    let cmd = String::from("line one\nline two\u{1}\u{1f}");
    let payload = encode_payload(
        &name.clone().into_bytes(),
        &pattern.clone().into_bytes(),
        &cmd.clone().into_bytes(),
    );
    let value: serde_json::Value = serde_json::from_slice(&payload).unwrap();
    assert_eq!(value.get("id").unwrap().as_str(), Some(name.as_str()));
    assert_eq!(value.get("cmdIdRe").unwrap().as_str(), Some(pattern.as_str()));
    assert_eq!(value.get("cmd").unwrap().as_str(), Some(cmd.as_str()));
}
