use nfc_bridge::error::{BridgeError, PcscError};
use nfc_bridge::events::NfcEvent;
use nfc_bridge::nfc::apdu::{CardReply, Command};
use nfc_bridge::nfc::license::{
    detect_card_type, read_card, read_felica_uid, CardAction, CardType, LicenseData,
};

const LICENSE_ATR: [u8; 9] = [0x3B, 0x88, 0x80, 0x01, 0x00, 0x00, 0x00, 0x12, 0x34];
const SHAKEN: [u8; 6] = [0x06, 0x78, 0x77, 0x81, 0x02, 0x80];

fn failure() -> CardReply {
    Err(PcscError { timeout: false, text: "gone".to_string() })
}

fn reply(data: &[u8], sw1: u8, sw2: u8) -> CardReply {
    let mut bytes = data.to_vec();
    bytes.push(sw1);
    bytes.push(sw2);
    Ok(bytes)
}

fn ok() -> CardReply {
    reply(&[], 0x90, 0x00)
}

/// What reading a simulated card came to.
struct Read {
    commands: Vec<Command>,
    log: Vec<String>,
    result: Result<LicenseData, BridgeError>,
}

fn read(atr: &[u8], answer: impl Fn(Command) -> CardReply) -> Read {
    let mut replies = Vec::new();
    let mut commands = Vec::new();
    let mut log = Vec::new();
    loop {
        let step = read_card(atr, &replies);
        for event in step.log {
            match event {
                NfcEvent::NfcDebug { message } => log.push(message),
                other => panic!("{:?}", other),
            }
        }
        match step.action {
            CardAction::Transmit(command) => {
                commands.push(command);
                replies.push(answer(command));
            }
            CardAction::Finished(result) => return Read { commands, log, result },
        }
    }
}

fn license(command: Command) -> CardReply {
    match command {
        Command::GetFelicaIdm => reply(&[1, 2, 3, 4, 5, 6, 7, 8], 0x90, 0x00),
        Command::CheckRemain => reply(&[], 0x63, 0xC3),
        Command::ReadExpireDf => reply(&[0x20, 0x30, 0x01], 0x90, 0x00),
        _ => ok(),
    }
}

#[test]
fn card_type_as_str() {
    assert_eq!(CardType::DriverLicense.as_str(), "driver_license");
    assert_eq!(CardType::CarInspection.as_str(), "car_inspection");
    assert_eq!(CardType::Other.as_str(), "other");
}

#[test]
fn driver_license() {
    let read = read(&LICENSE_ATR, license);
    let data = read.result.unwrap();
    assert_eq!(data.card_type, CardType::DriverLicense);
    assert_eq!(data.card_id, "203001");
    assert_eq!(data.expiry_date, Some("203001".to_string()));
    assert_eq!(data.remain_count, Some(3));
    assert_eq!(data.felica_uid, Some("0102030405060708".to_string()));
    assert_eq!(data.atr, "3B8880010000001234");
    assert_eq!(
        read.commands,
        vec![
            Command::GetFelicaIdm,
            Command::Start,
            Command::StartTrans,
            Command::CheckShaken,
            Command::SelectMf,
            Command::CheckRemain,
            Command::SelectExpireMf,
            Command::ReadExpireDf,
            Command::SelectEnd,
        ]
    );
    assert_eq!(
        read.log,
        vec![
            "[license] ATR: 3B8880010000001234",
            "[license] Step 1: GET_FELICA_IDM...",
            "[license] FeliCa IDm: 0102030405060708 (8bytes)",
            "[license] Step 2: START...",
            "[license] Step 2: START done",
            "[license] Step 3: START_TRANS...",
            "[license] Step 3: START_TRANS done",
            "[license] Step 4: detect_card_type...",
            "[license] Card type: driver_license",
            "[license] Step 5: read_driver_license_data...",
            "[license] Expiry: Some(\"203001\"), Remain: Some(3)",
            "[license] card_id: 203001",
            "[license] Step 7: SELECT_END...",
            "[license] Step 7: SELECT_END done",
        ]
    );
}

#[test]
fn car_inspection() {
    let answer = |command| match command {
        Command::CheckShaken => reply(&SHAKEN, 0x6A, 0x00),
        other => license(other),
    };
    // The signature outweighs the ATR
    let read = read(&LICENSE_ATR, answer);
    let data = read.result.unwrap();
    assert_eq!(data.card_type, CardType::CarInspection);
    assert_eq!(data.card_id, "0102030405060708");
    assert_eq!(data.expiry_date, None);
    assert_eq!(data.remain_count, None);
    assert_eq!(
        read.commands,
        vec![
            Command::GetFelicaIdm,
            Command::Start,
            Command::StartTrans,
            Command::CheckShaken,
            Command::SelectEnd,
        ]
    );
    assert_eq!(read.log[8], "[license] Card type: car_inspection");
    assert_eq!(read.log[9], "[license] card_id: 0102030405060708");
    assert_eq!(read.log.len(), 12);
}

#[test]
fn other_card() {
    let data = read(&LICENSE_ATR[..6], |command| match command {
        Command::GetFelicaIdm => reply(&[1, 2, 3], 0x90, 0x00),
        _ => ok(),
    });
    assert_eq!(data.log[2], "[license] FeliCa IDm: not available (SW=9000)");
    let data = data.result.unwrap();
    assert_eq!(data.card_type, CardType::Other);
    assert_eq!(data.card_id, "");
    assert_eq!(data.felica_uid, None);
}

#[test]
fn license_without_readable_data() {
    let fails_at = |failing: Command| {
        read(&LICENSE_ATR, move |command| {
            if command == failing {
                failure()
            } else {
                license(command)
            }
        })
    };
    let read = fails_at(Command::SelectMf);
    assert_eq!(read.commands.len(), 6);
    assert_eq!(
        read.log[10],
        "[license] Failed to read license data: Card read failed: transmit failed: gone"
    );
    let data = read.result.unwrap();
    assert_eq!(data.card_type, CardType::DriverLicense);
    assert_eq!(data.card_id, "0102030405060708");
    assert_eq!((data.expiry_date, data.remain_count), (None, None));

    let read = fails_at(Command::SelectExpireMf);
    assert_eq!(read.commands.len(), 8);
    let data = read.result.unwrap();
    assert_eq!((data.expiry_date, data.remain_count), (None, None));

    let read = fails_at(Command::CheckRemain);
    assert_eq!(read.log[10], "[license] Expiry: Some(\"203001\"), Remain: None");
    assert_eq!(read.result.unwrap().card_id, "203001");

    let read = fails_at(Command::ReadExpireDf);
    assert_eq!(read.log[10], "[license] Expiry: None, Remain: Some(3)");
    let data = read.result.unwrap();
    assert_eq!(data.card_id, "0102030405060708");
    assert_eq!(data.remain_count, Some(3));

    let read = fails_at(Command::SelectEnd);
    assert_eq!(read.commands.len(), 9);
    assert_eq!(read.result.unwrap().card_id, "203001");
}

#[test]
fn unsuccessful_expiry_read() {
    let data = read(&LICENSE_ATR, |command| match command {
        Command::ReadExpireDf => reply(&[0x20], 0x69, 0x82),
        Command::CheckRemain => reply(&[], 0x63, 0xFF),
        other => license(other),
    })
    .result
    .unwrap();
    assert_eq!(data.expiry_date, None);
    assert_eq!(data.remain_count, Some(15));
}

#[test]
fn session_that_cannot_be_started() {
    let start = read(&LICENSE_ATR, |command| match command {
        Command::Start => failure(),
        other => license(other),
    });
    assert_eq!(start.commands, vec![Command::GetFelicaIdm, Command::Start]);
    assert_eq!(
        start.result.unwrap_err().message(),
        "Card read failed: START failed: Card read failed: transmit failed: gone"
    );
    let trans = read(&LICENSE_ATR, |command| match command {
        Command::StartTrans => Ok(vec![0x90]),
        other => license(other),
    });
    assert_eq!(trans.commands.len(), 3);
    assert_eq!(
        trans.result.unwrap_err().message(),
        "Card read failed: START_TRANS failed: Card read failed: response too short"
    );
    // The status word does not matter
    let refused = read(&LICENSE_ATR, |command| match command {
        Command::Start | Command::StartTrans => reply(&[], 0x6A, 0x81),
        other => license(other),
    });
    assert_eq!(refused.result.unwrap().card_id, "203001");
}

#[test]
fn felica_uids() {
    let (uid, log) = read_felica_uid(&reply(&[0; 4], 0x90, 0x00));
    assert_eq!(uid, Some("00000000".to_string()));
    assert_eq!(log, "[license] FeliCa IDm: 00000000 (4bytes)");
    let (uid, log) = read_felica_uid(&reply(&[0xAB; 12], 0x90, 0x00));
    assert_eq!(uid, Some("ABABABABABABABAB".to_string()));
    assert_eq!(log, "[license] FeliCa IDm: ABABABABABABABAB (12bytes)");
    let (uid, log) = read_felica_uid(&reply(&[0; 8], 0x63, 0x00));
    assert_eq!(uid, None);
    assert_eq!(log, "[license] FeliCa IDm: not available (SW=6300)");
    let (uid, log) = read_felica_uid(&Ok(vec![]));
    assert_eq!(uid, None);
    assert_eq!(log, "[license] FeliCa IDm: error (Card read failed: response too short)");
}

#[test]
fn card_types() {
    assert_eq!(detect_card_type(&LICENSE_ATR, &failure()), CardType::DriverLicense);
    assert_eq!(detect_card_type(&LICENSE_ATR[..7], &ok()), CardType::DriverLicense);
    assert_eq!(detect_card_type(&LICENSE_ATR[..6], &ok()), CardType::Other);
    assert_eq!(detect_card_type(&LICENSE_ATR[1..], &ok()), CardType::Other);
    assert_eq!(detect_card_type(&[], &reply(&SHAKEN, 0x90, 0x00)), CardType::CarInspection);
    assert_eq!(detect_card_type(&[], &reply(&SHAKEN[..5], 0x90, 0x00)), CardType::Other);
}

#[test]
fn further_replies_do_not_matter() {
    let mut replies = vec![ok(), failure()];
    let first = read_card(&LICENSE_ATR, &replies);
    replies.push(ok());
    let second = read_card(&LICENSE_ATR, &replies);
    match (first.action, second.action) {
        (CardAction::Finished(Err(a)), CardAction::Finished(Err(b))) => {
            assert_eq!(a.message(), b.message())
        }
        _ => panic!("not finished"),
    }
}
