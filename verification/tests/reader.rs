use std::time::{Duration, Instant};

use nfc_bridge::clock::NANOS_PER_MILLI;
use nfc_bridge::config::Config;
use nfc_bridge::error::{BridgeError, PcscError};
use nfc_bridge::events::NfcEvent;
use nfc_bridge::nfc::apdu::{
    read_uid, CardReply, Command, RESPONSE_CAPACITY, UID_RESPONSE_CAPACITY,
};
use nfc_bridge::nfc::debounce::CardDebouncer;
use nfc_bridge::nfc::reader::{
    list_readers_sync, poll_once, PollAction, PollResult, PollTrace, PollingLoop,
    NO_READERS_INTERVAL,
};

fn failure(text: &str) -> PcscError {
    PcscError { timeout: false, text: text.to_string() }
}

fn wait(millis: u64) {
    let started = Instant::now();
    while started.elapsed() < Duration::from_millis(millis) {}
}

#[test]
fn debouncer_allows_first_card() {
    let mut debouncer = CardDebouncer::new(3_000 * NANOS_PER_MILLI);
    assert!(debouncer.should_emit("AABBCCDD"));
}

#[test]
fn debouncer_blocks_same_card_within_cooldown() {
    let mut debouncer = CardDebouncer::new(3_000 * NANOS_PER_MILLI);
    assert!(debouncer.should_emit("AABBCCDD"));
    assert!(!debouncer.should_emit("AABBCCDD"));
}

#[test]
fn debouncer_allows_different_card() {
    let mut debouncer = CardDebouncer::new(3_000 * NANOS_PER_MILLI);
    assert!(debouncer.should_emit("AABBCCDD"));
    assert!(debouncer.should_emit("11223344"));
}

#[test]
fn debouncer_allows_same_card_after_cooldown() {
    let mut debouncer = CardDebouncer::new(10 * NANOS_PER_MILLI);
    assert!(debouncer.should_emit("AABBCCDD"));
    wait(20);
    assert!(debouncer.should_emit("AABBCCDD"));
}

#[test]
fn debouncer_cooldown_ends_exactly() {
    let cooldown = 3_000 * NANOS_PER_MILLI;
    let mut debouncer = CardDebouncer::new(3_000 * NANOS_PER_MILLI);
    assert!(debouncer.should_emit_at("A", 100));
    assert!(!debouncer.should_emit_at("A", 100));
    assert!(!debouncer.should_emit_at("A", 50));
    // A card that is held back does not start the cooldown anew
    assert!(!debouncer.should_emit_at("A", 100 + cooldown - 1));
    assert!(debouncer.should_emit_at("A", 100 + cooldown));
    assert!(!debouncer.should_emit_at("A", 100 + cooldown + 1));
    assert!(debouncer.should_emit_at("B", 100 + cooldown + 2));
    assert!(debouncer.should_emit_at("A", 100 + cooldown + 3));
    assert!(CardDebouncer::new(0).should_emit_at("A", 0));
}

#[test]
fn debouncer_cooldown_can_be_fine() {
    let mut debouncer = CardDebouncer::new(1_500);
    assert!(debouncer.should_emit_at("A", 0));
    assert!(!debouncer.should_emit_at("A", 1_499));
    assert!(debouncer.should_emit_at("A", 1_500));
    // Only the latest card that was let through counts
    assert!(debouncer.should_emit_at("B", 1_501));
    assert!(debouncer.should_emit_at("A", 1_502));
}

#[test]
fn uid_responses() {
    let mifare: CardReply = Ok(vec![0xAA, 0xBB, 0xCC, 0xDD, 0x90, 0x00]);
    assert_eq!(read_uid(&mifare).unwrap(), "AABBCCDD");
    let long: CardReply = Ok(vec![1, 2, 3, 4, 5, 6, 7, 0x90, 0x00]);
    assert_eq!(read_uid(&long).unwrap(), "01020304050607");
    let felica: CardReply = Ok(vec![1, 2, 3, 4, 5, 6, 7, 8, 0x90, 0x00]);
    assert_eq!(read_uid(&felica).unwrap(), "0102030405060708");
    assert_eq!(read_uid(&Ok(vec![0x90, 0x00])).unwrap(), "");
}

#[test]
fn failed_uid_responses() {
    let message = |reply: CardReply| read_uid(&reply).unwrap_err().message();
    assert_eq!(message(Ok(vec![])), "Card read failed: response too short");
    assert_eq!(message(Ok(vec![0x90])), "Card read failed: response too short");
    assert_eq!(message(Ok(vec![1, 2, 0x63, 0x00])), "Card read failed: APDU error: SW=6300");
    assert_eq!(message(Ok(vec![0x90, 0x0A])), "Card read failed: APDU error: SW=900A");
    assert_eq!(message(Err(failure("gone"))), "Card read failed: transmit failed: gone");
}

#[test]
fn command_bytes() {
    assert_eq!(Command::GetFelicaIdm.bytes(), vec![0xFF, 0xCA, 0x00, 0x00, 0x00]);
    assert_eq!(Command::Start.bytes(), vec![0xFF, 0xC2, 0x00, 0x00, 0x01, 0x81]);
    assert_eq!(Command::StartTrans.bytes(), vec![0xFF, 0xC2, 0x00, 0x00, 0x02, 0x84, 0x00]);
    assert_eq!(Command::CheckShaken.bytes(), vec![0xFF, 0xCA, 0x01, 0x00, 0x00]);
    assert_eq!(Command::SelectMf.bytes(), vec![0x00, 0xA4, 0x00, 0x00]);
    assert_eq!(Command::CheckRemain.bytes(), vec![0x00, 0x20, 0x00, 0x81]);
    assert_eq!(Command::SelectExpireMf.bytes(), vec![0x00, 0xA4, 0x02, 0x0C, 0x02, 0x2F, 0x01]);
    assert_eq!(Command::ReadExpireDf.bytes(), vec![0x00, 0xB0, 0x00, 0x00, 0x11]);
    assert_eq!(Command::SelectEnd.bytes(), vec![0xFF, 0xC2, 0x00, 0x00, 0x02, 0x82, 0x00]);
    assert_eq!(UID_RESPONSE_CAPACITY, 256);
    assert_eq!(RESPONSE_CAPACITY, 258);
}

#[test]
fn listed_readers() {
    let names = list_readers_sync(Ok(vec![
        b"ACS ACR122U".to_vec(),
        vec![0xFF, 0xFE],
        vec![],
        "\u{30ab}\u{30fc}\u{30c9}".as_bytes().to_vec(),
    ]));
    assert_eq!(
        names.unwrap(),
        vec!["ACS ACR122U", "unknown", "", "\u{30ab}\u{30fc}\u{30c9}"]
    );
    assert!(list_readers_sync(Ok(vec![])).unwrap().is_empty());
    let failed = list_readers_sync(Err(failure("no service")));
    assert_eq!(failed.unwrap_err().message(), "PC/SC error: no service");
}

/// Polls a simulated reader; returns the operations that were asked for and the result.
fn poll(
    context: Result<(), PcscError>,
    readers: Result<Vec<Vec<u8>>, PcscError>,
    card_present: Result<bool, PcscError>,
    connected: Result<(), PcscError>,
    reply: CardReply,
) -> (Vec<String>, PollResult) {
    let mut asked = Vec::new();
    let mut trace = PollTrace::new();
    loop {
        let action = poll_once(&trace);
        asked.push(format!("{:?}", action));
        match action {
            PollAction::EstablishContext => {
                trace.context = Some(context.as_ref().map(|_| ()).map_err(|e| e.clone()))
            }
            PollAction::ListReaders => {
                trace.readers =
                    Some(readers.as_ref().map(|r| r.clone()).map_err(|e| e.clone()))
            }
            PollAction::AwaitCard { reader, timeout_ms } => {
                assert_eq!(reader, b"first".to_vec());
                assert_eq!(timeout_ms, 200);
                trace.card_present =
                    Some(card_present.as_ref().map(|p| *p).map_err(|e| e.clone()))
            }
            PollAction::Connect { reader } => {
                assert_eq!(reader, b"first".to_vec());
                trace.connected = Some(connected.as_ref().map(|_| ()).map_err(|e| e.clone()))
            }
            PollAction::Transmit(command) => {
                assert_eq!(command, Command::GetFelicaIdm);
                trace.uid_reply = Some(reply.as_ref().map(|r| r.clone()).map_err(|e| e.clone()))
            }
            PollAction::Finished(result) => {
                asked.pop();
                return (asked, result);
            }
        }
    }
}

fn readers() -> Vec<Vec<u8>> {
    vec![b"first".to_vec(), b"second".to_vec()]
}

fn uid() -> CardReply {
    Ok(vec![0xAA, 0xBB, 0xCC, 0xDD, 0x90, 0x00])
}

#[test]
fn poll_reads_present_card() {
    let (asked, result) = poll(Ok(()), Ok(readers()), Ok(true), Ok(()), uid());
    assert_eq!(asked.len(), 5);
    assert_eq!(result.unwrap(), Some("AABBCCDD".to_string()));
}

#[test]
fn poll_without_card() {
    let (asked, result) = poll(Ok(()), Ok(readers()), Ok(false), Ok(()), uid());
    assert_eq!(asked.len(), 3);
    assert_eq!(result.unwrap(), None);
    let timeout = PcscError { timeout: true, text: "timeout".to_string() };
    let (asked, result) = poll(Ok(()), Ok(readers()), Err(timeout), Ok(()), uid());
    assert_eq!(asked.len(), 3);
    assert_eq!(result.unwrap(), None);
}

#[test]
fn poll_without_readers() {
    let (asked, result) = poll(Ok(()), Ok(vec![]), Ok(true), Ok(()), uid());
    assert_eq!(asked.len(), 2);
    assert!(matches!(result, Err(BridgeError::NoReaders)));
}

#[test]
fn poll_failures() {
    let message = |result: PollResult| result.unwrap_err().message();
    let timeout = || PcscError { timeout: true, text: "late".to_string() };
    let (asked, result) = poll(Err(timeout()), Ok(readers()), Ok(true), Ok(()), uid());
    assert_eq!(asked.len(), 1);
    assert_eq!(message(result), "PC/SC error: late");
    let (asked, result) = poll(Ok(()), Err(failure("list")), Ok(true), Ok(()), uid());
    assert_eq!(asked.len(), 2);
    assert_eq!(message(result), "PC/SC error: list");
    let (asked, result) = poll(Ok(()), Ok(readers()), Err(failure("wait")), Ok(()), uid());
    assert_eq!(asked.len(), 3);
    assert_eq!(message(result), "PC/SC error: wait");
    let (asked, result) = poll(Ok(()), Ok(readers()), Ok(true), Err(failure("join")), uid());
    assert_eq!(asked.len(), 4);
    assert_eq!(message(result), "PC/SC error: join");
    let (asked, result) = poll(Ok(()), Ok(readers()), Ok(true), Ok(()), Ok(vec![0x6A, 0x81]));
    assert_eq!(asked.len(), 5);
    assert_eq!(message(result), "Card read failed: APDU error: SW=6A81");
}

fn polling(cooldown_ms: u64) -> PollingLoop {
    let mut config = Config::load_default_locations(None).unwrap();
    config.cooldown_ms = cooldown_ms;
    PollingLoop::new(&config)
}

fn card(uid: &str) -> Option<PollResult> {
    Some(Ok(Some(uid.to_string())))
}

fn message(event: Option<NfcEvent>) -> String {
    match event {
        Some(event) => event.to_json().unwrap(),
        None => String::new(),
    }
}

#[test]
fn polling_reports_cards() {
    let mut polling = polling(3_000);
    let read = r#"{"type":"nfc_read","employee_id":"AABBCCDD"}"#;
    assert_eq!(message(polling.step_at(card("AABBCCDD"), 0)), read);
    assert_eq!(message(polling.step_at(card("AABBCCDD"), 1_000 * NANOS_PER_MILLI)), "");
    assert_eq!(message(polling.step_at(Some(Ok(None)), 2_000 * NANOS_PER_MILLI)), "");
    assert_eq!(message(polling.step_at(card("AABBCCDD"), 3_000 * NANOS_PER_MILLI)), read);
    assert_eq!(
        message(polling.step_at(card("11"), 3_001 * NANOS_PER_MILLI)),
        r#"{"type":"nfc_read","employee_id":"11"}"#
    );
    assert_eq!(message(polling.step_at(None, 3_002 * NANOS_PER_MILLI)), "");
    assert_eq!(polling.pause_ms(), 200);
}

#[test]
fn polling_reports_missing_readers_now_and_then() {
    let mut polling = polling(3_000);
    let missing = r#"{"type":"nfc_error","error":"no_readers"}"#;
    let no_readers = || Some(Err(BridgeError::NoReaders));
    assert_eq!(message(polling.step_at(no_readers(), 7)), missing);
    assert_eq!(message(polling.step_at(no_readers(), 8)), "");
    assert_eq!(message(polling.step_at(no_readers(), 7 + NO_READERS_INTERVAL)), "");
    assert_eq!(message(polling.step_at(no_readers(), 8 + NO_READERS_INTERVAL)), missing);
    assert_eq!(message(polling.step_at(no_readers(), 9 + NO_READERS_INTERVAL)), "");
    assert_eq!(NO_READERS_INTERVAL, 5_000 * NANOS_PER_MILLI);
}

#[test]
fn polling_reports_every_other_error() {
    let mut polling = polling(3_000);
    let failed = || Some(Err(BridgeError::CardReadFailed("response too short".to_string())));
    let text = r#"{"type":"nfc_error","error":"Card read failed: response too short"}"#;
    assert_eq!(message(polling.step_at(failed(), 0)), text);
    assert_eq!(message(polling.step_at(failed(), 0)), text);
    let pcsc = Some(Err(BridgeError::from(failure("gone"))));
    assert_eq!(
        message(polling.step_at(pcsc, 0)),
        r#"{"type":"nfc_error","error":"PC/SC error: gone"}"#
    );
}

#[test]
fn card_to_browser() {
    let mut polling = polling(3_000);
    let (asked, result) = poll(Ok(()), Ok(readers()), Ok(true), Ok(()), uid());
    assert!(asked.iter().enumerate().all(|(i, step)| !asked[..i].contains(step)));
    assert_eq!(
        message(polling.step_at(Some(result), 0)),
        r#"{"type":"nfc_read","employee_id":"AABBCCDD"}"#
    );
    let (_, result) = poll(Ok(()), Ok(vec![]), Ok(true), Ok(()), uid());
    assert_eq!(
        message(polling.step_at(Some(result), 1)),
        r#"{"type":"nfc_error","error":"no_readers"}"#
    );
}

#[test]
fn polling_reads_the_clock() {
    let mut polling = polling(10);
    assert!(polling.step(card("A")).is_some());
    assert!(polling.step(card("A")).is_none());
    wait(20);
    assert!(polling.step(card("A")).is_some());
}
