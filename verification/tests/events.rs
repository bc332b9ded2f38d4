use nfc_bridge::bridge::startup_event;
use nfc_bridge::error::{BridgeError, PcscError};
use nfc_bridge::events::NfcEvent;
use serde_json::Value;

fn to_value(event: &NfcEvent) -> Value {
    serde_json::from_str(&event.to_json().unwrap()).unwrap()
}

#[test]
fn serialize_nfc_read() {
    let event = NfcEvent::NfcRead {
        employee_id: "AABBCCDD".to_string(),
    };
    let json = to_value(&event);
    assert_eq!(json["type"], "nfc_read");
    assert_eq!(json["employee_id"], "AABBCCDD");
}

#[test]
fn serialize_nfc_error() {
    let event = NfcEvent::NfcError {
        error: "read_failed".to_string(),
    };
    let json = to_value(&event);
    assert_eq!(json["type"], "nfc_error");
    assert_eq!(json["error"], "read_failed");
}

#[test]
fn serialize_status() {
    let event = NfcEvent::Status {
        readers: vec!["ACS ACR122U".to_string()],
        connected: true,
        version: "0.1.0".to_string(),
    };
    let json = to_value(&event);
    assert_eq!(json["type"], "status");
    assert_eq!(json["readers"][0], "ACS ACR122U");
    assert_eq!(json["connected"], true);
    assert_eq!(json["version"], "0.1.0");
}

#[test]
fn serialize_status_no_readers() {
    let event = NfcEvent::Status {
        readers: vec![],
        connected: false,
        version: "0.1.0".to_string(),
    };
    let json = to_value(&event);
    assert_eq!(json["type"], "status");
    assert!(json["readers"].as_array().unwrap().is_empty());
    assert_eq!(json["connected"], false);
    assert_eq!(json["version"], "0.1.0");
}

#[test]
fn exact_messages() {
    let read = NfcEvent::NfcRead { employee_id: "AABBCCDD".to_string() };
    assert_eq!(read.to_json().unwrap(), r#"{"type":"nfc_read","employee_id":"AABBCCDD"}"#);
    let error = NfcEvent::NfcError { error: "no_readers".to_string() };
    assert_eq!(error.to_json().unwrap(), r#"{"type":"nfc_error","error":"no_readers"}"#);
    let status = NfcEvent::Status {
        readers: vec!["ACS ACR122U".to_string(), "b".to_string(), "".to_string()],
        connected: true,
        version: "1".to_string(),
    };
    assert_eq!(
        status.to_json().unwrap(),
        r#"{"type":"status","readers":["ACS ACR122U","b",""],"connected":true,"version":"1"}"#
    );
    let none = NfcEvent::Status { readers: vec![], connected: false, version: "1".to_string() };
    assert_eq!(
        none.to_json().unwrap(),
        r#"{"type":"status","readers":[],"connected":false,"version":"1"}"#
    );
    let debug = NfcEvent::NfcDebug { message: "m".to_string() };
    assert_eq!(debug.to_json().unwrap(), r#"{"type":"nfc_debug","message":"m"}"#);
}

#[test]
fn escaped_messages() {
    let error = NfcEvent::NfcError {
        error: "\"\\/\u{8}\t\n\u{c}\r\u{0}\u{1f}\u{7f}\u{e9}\u{1F4B3}".to_string(),
    };
    assert_eq!(
        error.to_json().unwrap(),
        "{\"type\":\"nfc_error\",\"error\":\"\\\"\\\\/\\b\\t\\n\\f\\r\\u0000\\u001f\u{7f}\u{e9}\u{1F4B3}\"}"
    );
    assert_eq!(
        to_value(&error)["error"],
        "\"\\/\u{8}\t\n\u{c}\r\u{0}\u{1f}\u{7f}\u{e9}\u{1F4B3}"
    );
}

#[test]
fn every_character_is_read_back() {
    let mut all = String::new();
    let mut code: u32 = 0;
    while code < 0x300 {
        all.push(char::from_u32(code).unwrap());
        code += 1;
    }
    let status = NfcEvent::Status {
        readers: vec![all.clone(), all.clone()],
        connected: true,
        version: all.clone(),
    };
    let json = to_value(&status);
    assert_eq!(json["readers"][0], all.as_str());
    assert_eq!(json["readers"][1], all.as_str());
    assert_eq!(json["version"], all.as_str());
}

#[test]
fn different_events_have_different_messages() {
    let a = NfcEvent::NfcRead { employee_id: "A\",\"x\":\"".to_string() };
    let b = NfcEvent::NfcRead { employee_id: "A".to_string() };
    assert_ne!(a.to_json().unwrap(), b.to_json().unwrap());
    let c = NfcEvent::NfcError { error: "A".to_string() };
    assert_ne!(b.to_json().unwrap(), c.to_json().unwrap());
}

#[test]
fn startup_status() {
    let found = startup_event(Ok(vec!["ACS ACR122U".to_string()]), "0.1.0");
    assert_eq!(
        found.unwrap().to_json().unwrap(),
        r#"{"type":"status","readers":["ACS ACR122U"],"connected":true,"version":"0.1.0"}"#
    );
    let empty = startup_event(Ok(vec![]), "0.1.0");
    assert_eq!(
        empty.unwrap().to_json().unwrap(),
        r#"{"type":"status","readers":[],"connected":false,"version":"0.1.0"}"#
    );
    assert!(startup_event(Err(BridgeError::NoReaders), "0.1.0").is_none());
}

#[test]
fn error_messages() {
    let pcsc = PcscError { timeout: false, text: "no service".to_string() };
    assert_eq!(BridgeError::from(pcsc.clone()).message(), "PC/SC error: no service");
    assert!(matches!(BridgeError::from(pcsc), BridgeError::Pcsc(e) if !e.timeout));
    assert_eq!(BridgeError::WebSocket("closed".to_string()).message(), "WebSocket error: closed");
    assert_eq!(BridgeError::Io("denied".to_string()).message(), "IO error: denied");
    assert_eq!(BridgeError::NoReaders.message(), "No NFC readers found");
    assert_eq!(
        BridgeError::CardReadFailed("response too short".to_string()).message(),
        "Card read failed: response too short"
    );
}
