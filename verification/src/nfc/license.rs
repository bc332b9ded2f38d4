//! Reading driver's licenses and car inspection certificates.
//!
//! Reading a card is an exchange of commands and replies. The caller transmits, one after
//! the other, the commands that [`read_card`] asks for and hands back the replies so far;
//! [`read_card`] says what comes next until the card has been read.
use vstd::prelude::*;
use vstd::string::*;

use crate::error;
use crate::error::BridgeError;
use crate::events::NfcEvent;
use crate::nfc::apdu;
use crate::nfc::apdu::{CardReply, Command};
use crate::text;

verus! {

/// Card types detected from NFC.
#[derive(Debug, Clone, Copy, PartialEq, Eq, Structural)]
pub enum CardType {
    DriverLicense,
    CarInspection,
    Other,
}

/// The name a card type is reported under.
pub open spec fn card_type_name(card_type: CardType) -> Seq<char> {
    match card_type {
        CardType::DriverLicense => "driver_license"@,
        CardType::CarInspection => "car_inspection"@,
        CardType::Other => "other"@,
    }
}

impl CardType {
    pub fn as_str(&self) -> (name: &'static str)
        ensures
            name@ == card_type_name(*self),
    {
        match self {
            CardType::DriverLicense => "driver_license",
            CardType::CarInspection => "car_inspection",
            CardType::Other => "other",
        }
    }
}

/// Data extracted from a card via NFC.
#[derive(Debug, Clone)]
pub struct LicenseData {
    pub card_id: String,
    pub card_type: CardType,
    pub atr: String,
    pub expiry_date: Option<String>,
    pub remain_count: Option<u8>,
    pub felica_uid: Option<String>,
}

/// What a [`LicenseData`] stands for.
pub struct LicenseDataView {
    pub card_id: Seq<char>,
    pub card_type: CardType,
    pub atr: Seq<char>,
    pub expiry_date: Option<Seq<char>>,
    pub remain_count: Option<u8>,
    pub felica_uid: Option<Seq<char>>,
}

impl View for LicenseData {
    type V = LicenseDataView;

    open spec fn view(&self) -> LicenseDataView {
        LicenseDataView {
            card_id: self.card_id@,
            card_type: self.card_type,
            atr: self.atr@,
            expiry_date: text::option_view(self.expiry_date),
            remain_count: self.remain_count,
            felica_uid: text::option_view(self.felica_uid),
        }
    }
}

/// Driver's license ATR prefix (7 bytes).
pub open spec fn driver_license_atr_prefix() -> Seq<u8> {
    seq![0x3B, 0x88, 0x80, 0x01, 0x00, 0x00, 0x00]
}

/// Car inspection response signature (6 bytes).
pub open spec fn shaken_signature() -> Seq<u8> {
    seq![0x06, 0x78, 0x77, 0x81, 0x02, 0x80]
}

/// The type of a card with the given ATR that gave `shaken` in reply to the car inspection
/// check. The signature of a car inspection certificate outweighs the ATR; the status word
/// of that reply does not matter.
pub open spec fn card_type_of(atr: Seq<u8>, shaken: apdu::ReplyView) -> CardType {
    if apdu::response(shaken) is Ok && apdu::response(shaken)->Ok_0.data == shaken_signature() {
        CardType::CarInspection
    } else if driver_license_atr_prefix().is_prefix_of(atr) {
        CardType::DriverLicense
    } else {
        CardType::Other
    }
}

/// Detect card type from ATR prefix and the reply to the car inspection check.
pub fn detect_card_type(atr: &[u8], shaken: &CardReply) -> (card_type: CardType)
    ensures
        card_type == card_type_of(atr@, apdu::reply_view(*shaken)),
{
    let signature: Vec<u8> = vec![0x06, 0x78, 0x77, 0x81, 0x02, 0x80];
    assert(signature@ =~= shaken_signature());
    if let Ok(response) = apdu::parse_reply(shaken) {
        if apdu::same_bytes(response.data.as_slice(), signature.as_slice()) {
            return CardType::CarInspection;
        }
    }
    let prefix: Vec<u8> = vec![0x3B, 0x88, 0x80, 0x01, 0x00, 0x00, 0x00];
    assert(prefix@ =~= driver_license_atr_prefix());
    if atr.len() >= prefix.len() {
        let start = apdu::take_bytes(atr, prefix.len());
        if apdu::same_bytes(start.as_slice(), prefix.as_slice()) {
            assert(driver_license_atr_prefix().is_prefix_of(atr@));
            return CardType::DriverLicense;
        }
        assert(!driver_license_atr_prefix().is_prefix_of(atr@)) by {
            if driver_license_atr_prefix().is_prefix_of(atr@) {
                assert(atr@.take(7) =~= driver_license_atr_prefix());
            }
        }
    }
    CardType::Other
}

/// The FeliCa UID that a reply to the IDm query reports: up to eight bytes of its data in
/// hexadecimal digits, if the status word reports success and there are at least four.
pub open spec fn felica_uid_of(reply: apdu::ReplyView) -> Option<Seq<char>> {
    match apdu::response(reply) {
        Ok(r) => if r.success() && r.data.len() >= 4 {
            Some(text::hex(if r.data.len() < 8 { r.data } else { r.data.take(8) }))
        } else {
            None
        },
        Err(_) => None,
    }
}

/// What is logged about a reply to the IDm query.
pub open spec fn felica_log(reply: apdu::ReplyView) -> Seq<char> {
    match apdu::response(reply) {
        Ok(r) => match felica_uid_of(reply) {
            Some(uid) => "[license] FeliCa IDm: "@ + uid + " ("@ + text::decimal(r.data.len())
                + "bytes)"@,
            None => "[license] FeliCa IDm: not available (SW="@ + text::hex(seq![r.sw1, r.sw2])
                + ")"@,
        },
        Err(text) => "[license] FeliCa IDm: error ("@ + failed_read(text) + ")"@,
    }
}

/// The text of a failed read, as errors report it.
pub open spec fn failed_read(text: Seq<char>) -> Seq<char> {
    error::error_message(error::BridgeErrorView::CardReadFailed(text))
}

/// Read the FeliCa UID from the reply to the IDm query, along with what to log about it.
pub fn read_felica_uid(reply: &CardReply) -> (result: (Option<String>, String))
    ensures
        text::option_view(result.0) == felica_uid_of(apdu::reply_view(*reply)),
        result.1@ == felica_log(apdu::reply_view(*reply)),
{
    match apdu::parse_reply(reply) {
        Ok(response) => {
            let len = response.data.len();
            if response.sw1 == 0x90 && response.sw2 == 0x00 && len >= 4 {
                let shown = if len < 8 {
                    len
                } else {
                    8
                };
                let start = apdu::take_bytes(response.data.as_slice(), shown);
                assert(len < 8 ==> start@ =~= response.data@);
                let uid = text::to_hex(start.as_slice());
                let count = text::to_decimal(len as u64);
                let log = "[license] FeliCa IDm: ".to_string().concat(uid.as_str()).concat(
                    " (",
                ).concat(count.as_str()).concat("bytes)");
                (Some(uid), log)
            } else {
                let digits = apdu::status_digits(response.sw1, response.sw2);
                let log = "[license] FeliCa IDm: not available (SW=".to_string().concat(
                    digits.as_str(),
                ).concat(")");
                (None, log)
            }
        },
        Err(e) => {
            let message = e.message();
            let log = "[license] FeliCa IDm: error (".to_string().concat(message.as_str()).concat(
                ")",
            );
            (None, log)
        },
    }
}

/// How far the exchange about a driver's license has come: the next command to send, or what
/// was found after `used` replies.
pub enum LicenseProgress {
    Send(Command),
    Done { used: usize, expiry_date: Option<String>, remain_count: Option<u8> },
    Failed { used: usize, error: BridgeError },
}

/// What a [`LicenseProgress`] stands for.
pub enum LicenseProgressView {
    Send(Command),
    Done { used: nat, expiry_date: Option<Seq<char>>, remain_count: Option<u8> },
    Failed { used: nat, error: error::BridgeErrorView },
}

impl View for LicenseProgress {
    type V = LicenseProgressView;

    open spec fn view(&self) -> LicenseProgressView {
        match self {
            LicenseProgress::Send(command) => LicenseProgressView::Send(*command),
            LicenseProgress::Done { used, expiry_date, remain_count } => LicenseProgressView::Done {
                used: *used as nat,
                expiry_date: text::option_view(*expiry_date),
                remain_count: *remain_count,
            },
            LicenseProgress::Failed { used, error } => LicenseProgressView::Failed {
                used: *used as nat,
                error: error@,
            },
        }
    }
}

/// The remaining read count: the lower half of the second status byte.
pub open spec fn remain_count_of(reply: apdu::ReplyView) -> Option<u8> {
    match apdu::response(reply) {
        Ok(r) => Some((r.sw2 % 16) as u8),
        Err(_) => None,
    }
}

/// The expiry date: the data of a successful read, in hexadecimal digits.
pub open spec fn expiry_date_of(reply: apdu::ReplyView) -> Option<Seq<char>> {
    match apdu::response(reply) {
        Ok(r) => if r.success() {
            Some(text::hex(r.data))
        } else {
            None
        },
        Err(_) => None,
    }
}

/// The exchange about a driver's license after the given replies. The master file and the
/// expiry date file must both be selected; the remaining count and the expiry date are each
/// left out if they cannot be read.
pub open spec fn license_progress(replies: Seq<apdu::ReplyView>) -> LicenseProgressView {
    if replies.len() == 0 {
        LicenseProgressView::Send(Command::SelectMf)
    } else if let Err(text) = apdu::response(replies[0]) {
        LicenseProgressView::Failed {
            used: 1,
            error: error::BridgeErrorView::CardReadFailed(text),
        }
    } else if replies.len() == 1 {
        LicenseProgressView::Send(Command::CheckRemain)
    } else if replies.len() == 2 {
        LicenseProgressView::Send(Command::SelectExpireMf)
    } else if let Err(text) = apdu::response(replies[2]) {
        LicenseProgressView::Failed {
            used: 3,
            error: error::BridgeErrorView::CardReadFailed(text),
        }
    } else if replies.len() == 3 {
        LicenseProgressView::Send(Command::ReadExpireDf)
    } else {
        LicenseProgressView::Done {
            used: 4,
            expiry_date: expiry_date_of(replies[3]),
            remain_count: remain_count_of(replies[1]),
        }
    }
}

/// Replies by what they stand for.
pub open spec fn reply_views(replies: Seq<CardReply>) -> Seq<apdu::ReplyView> {
    replies.map_values(|reply: CardReply| apdu::reply_view(reply))
}

/// Read driver's license specific data (MF select, remain count, expiry date) from the
/// replies that start at index `from`.
pub fn read_driver_license_data(replies: &Vec<CardReply>, from: usize) -> (progress:
    LicenseProgress)
    requires
        from <= replies@.len(),
    ensures
        progress@ == license_progress(reply_views(replies@).skip(from as int)),
{
    let ghost views = reply_views(replies@).skip(from as int);
    let count = replies.len() - from;
    // SELECT MF
    if count == 0 {
        return LicenseProgress::Send(Command::SelectMf);
    }
    assert(views[0] == apdu::reply_view(replies[from as int]));
    if let Err(error) = apdu::parse_reply(&replies[from]) {
        return LicenseProgress::Failed { used: 1, error };
    }
    // CHECK REMAIN: SW2 lower nibble = remaining count
    if count == 1 {
        return LicenseProgress::Send(Command::CheckRemain);
    }
    assert(views[1] == apdu::reply_view(replies[from + 1]));
    let remain_count = match apdu::parse_reply(&replies[from + 1]) {
        Ok(response) => {
            let sw2 = response.sw2;
            assert(sw2 & 0x0F == sw2 % 16) by (bit_vector);
            Some(sw2 & 0x0F)
        },
        Err(_) => None,
    };
    // SELECT expiry date file
    if count == 2 {
        return LicenseProgress::Send(Command::SelectExpireMf);
    }
    assert(views[2] == apdu::reply_view(replies[from + 2]));
    if let Err(error) = apdu::parse_reply(&replies[from + 2]) {
        return LicenseProgress::Failed { used: 3, error };
    }
    // READ expiry date
    if count == 3 {
        return LicenseProgress::Send(Command::ReadExpireDf);
    }
    assert(views[3] == apdu::reply_view(replies[from + 3]));
    let expiry_date = match apdu::parse_reply(&replies[from + 3]) {
        Ok(response) => if response.sw1 == 0x90 && response.sw2 == 0x00 {
            Some(text::to_hex(response.data.as_slice()))
        } else {
            None
        },
        Err(_) => None,
    };
    LicenseProgress::Done { used: 4, expiry_date, remain_count }
}

/// What reading a card comes to next: a command to transmit, or the result.
pub enum CardAction {
    Transmit(Command),
    Finished(Result<LicenseData, BridgeError>),
}

/// What a [`CardAction`] stands for.
pub enum CardActionView {
    Transmit(Command),
    Finished(Result<LicenseDataView, error::BridgeErrorView>),
}

impl View for CardAction {
    type V = CardActionView;

    open spec fn view(&self) -> CardActionView {
        match self {
            CardAction::Transmit(command) => CardActionView::Transmit(*command),
            CardAction::Finished(Ok(data)) => CardActionView::Finished(Ok(data@)),
            CardAction::Finished(Err(e)) => CardActionView::Finished(Err(e@)),
        }
    }
}

/// One step of reading a card: the debug events to send first, then the action.
pub struct CardStep {
    pub log: Vec<NfcEvent>,
    pub action: CardAction,
}

/// Whether `log` holds debug events with exactly the given messages.
pub open spec fn logs(log: Seq<NfcEvent>, messages: Seq<Seq<char>>) -> bool {
    log.map_values(|event: NfcEvent| event@) =~= messages.map_values(
        |message: Seq<char>| crate::events::NfcEventView::NfcDebug { message },
    )
}

/// The identifier of a card: the expiry date for a driver's license that has one, otherwise
/// the FeliCa UID, otherwise nothing.
pub open spec fn card_id_of(
    card_type: CardType,
    expiry_date: Option<Seq<char>>,
    felica_uid: Option<Seq<char>>,
) -> Seq<char> {
    if card_type == CardType::DriverLicense && expiry_date is Some {
        expiry_date->0
    } else if felica_uid is Some {
        felica_uid->0
    } else {
        seq![]
    }
}

/// How debug messages show an optional text.
pub open spec fn shown_text(text: Option<Seq<char>>) -> Seq<char> {
    match text {
        Some(text) => "Some(\""@ + text + "\")"@,
        None => "None"@,
    }
}

/// How debug messages show an optional count.
pub open spec fn shown_count(count: Option<u8>) -> Seq<char> {
    match count {
        Some(count) => "Some("@ + text::decimal(count as nat) + ")"@,
        None => "None"@,
    }
}

/// The debug messages and the action that reading a card comes to after the given replies.
pub struct CardStepView {
    pub log: Seq<Seq<char>>,
    pub action: CardActionView,
}

/// The closing part of reading a card: everything has been read, with `notes` to log about
/// it, and `replies` holds the replies that came after that. The session is ended; what the
/// card replies to that does not matter.
pub open spec fn closing_step(
    notes: Seq<Seq<char>>,
    data: LicenseDataView,
    replies: nat,
) -> CardStepView {
    if replies == 0 {
        CardStepView {
            log: notes + seq![
                "[license] card_id: "@ + data.card_id,
                "[license] Step 7: SELECT_END..."@,
            ],
            action: CardActionView::Transmit(Command::SelectEnd),
        }
    } else {
        CardStepView {
            log: seq!["[license] Step 7: SELECT_END done"@],
            action: CardActionView::Finished(Ok(data)),
        }
    }
}

/// The data of a card once everything has been read.
pub open spec fn card_data(
    atr: Seq<u8>,
    replies: Seq<apdu::ReplyView>,
    expiry_date: Option<Seq<char>>,
    remain_count: Option<u8>,
) -> LicenseDataView {
    let card_type = card_type_of(atr, replies[3]);
    let felica_uid = felica_uid_of(replies[0]);
    LicenseDataView {
        card_id: card_id_of(card_type, expiry_date, felica_uid),
        card_type,
        atr: text::hex(atr),
        expiry_date,
        remain_count,
        felica_uid,
    }
}

/// Reading a card from the fifth step on: the card type is known.
pub open spec fn typed_step(atr: Seq<u8>, replies: Seq<apdu::ReplyView>) -> CardStepView {
    let card_type = card_type_of(atr, replies[3]);
    let further = replies.skip(4);
    let type_note = "[license] Card type: "@ + card_type_name(card_type);
    if card_type != CardType::DriverLicense {
        closing_step(seq![type_note], card_data(atr, replies, None, None), further.len())
    } else {
        match license_progress(further) {
            LicenseProgressView::Send(command) => CardStepView {
                log: if further.len() == 0 {
                    seq![type_note, "[license] Step 5: read_driver_license_data..."@]
                } else {
                    seq![]
                },
                action: CardActionView::Transmit(command),
            },
            LicenseProgressView::Done { used, expiry_date, remain_count } => closing_step(
                seq![
                    "[license] Expiry: "@ + shown_text(expiry_date) + ", Remain: "@ + shown_count(
                        remain_count,
                    ),
                ],
                card_data(atr, replies, expiry_date, remain_count),
                (further.len() - used) as nat,
            ),
            LicenseProgressView::Failed { used, error } => closing_step(
                seq!["[license] Failed to read license data: "@ + error::error_message(error)],
                card_data(atr, replies, None, None),
                (further.len() - used) as nat,
            ),
        }
    }
}

/// The failure of a command that must not fail.
pub open spec fn command_failed(what: Seq<char>, text: Seq<char>) -> CardActionView {
    CardActionView::Finished(
        Err(error::BridgeErrorView::CardReadFailed(what + failed_read(text))),
    )
}

/// The step that reading a card with the given ATR comes to after the given replies.
pub open spec fn card_step(atr: Seq<u8>, replies: Seq<apdu::ReplyView>) -> CardStepView {
    if replies.len() == 0 {
        CardStepView {
            log: seq![
                "[license] ATR: "@ + text::hex(atr),
                "[license] Step 1: GET_FELICA_IDM..."@,
            ],
            action: CardActionView::Transmit(Command::GetFelicaIdm),
        }
    } else if replies.len() == 1 {
        CardStepView {
            log: seq![felica_log(replies[0]), "[license] Step 2: START..."@],
            action: CardActionView::Transmit(Command::Start),
        }
    } else if let Err(text) = apdu::response(replies[1]) {
        CardStepView { log: seq![], action: command_failed("START failed: "@, text) }
    } else if replies.len() == 2 {
        CardStepView {
            log: seq!["[license] Step 2: START done"@, "[license] Step 3: START_TRANS..."@],
            action: CardActionView::Transmit(Command::StartTrans),
        }
    } else if let Err(text) = apdu::response(replies[2]) {
        CardStepView { log: seq![], action: command_failed("START_TRANS failed: "@, text) }
    } else if replies.len() == 3 {
        CardStepView {
            log: seq![
                "[license] Step 3: START_TRANS done"@,
                "[license] Step 4: detect_card_type..."@,
            ],
            action: CardActionView::Transmit(Command::CheckShaken),
        }
    } else {
        typed_step(atr, replies)
    }
}

/// Whether `step` is the step described by `view`.
pub open spec fn is_step(step: CardStep, view: CardStepView) -> bool {
    logs(step.log@, view.log) && step.action@ == view.action
}

/// Record a debug log for the browser console.
fn debug_log(log: &mut Vec<NfcEvent>, message: String)
    ensures
        forall|messages: Seq<Seq<char>>|
            logs(old(log)@, messages) ==> #[trigger] logs(
                final(log)@,
                messages.push(message@),
            ),
{
    log.push(NfcEvent::NfcDebug { message });
    assert forall|messages: Seq<Seq<char>>| logs(old(log)@, messages) implies #[trigger] logs(
        log@,
        messages.push(message@),
    ) by {
        let view = |event: NfcEvent| event@;
        let debug = |message: Seq<char>| crate::events::NfcEventView::NfcDebug { message };
        assert(log@.map_values(view) =~= old(log)@.map_values(view).push(view(log@.last())));
        assert(messages.push(message@).map_values(debug) =~= messages.map_values(debug).push(
            debug(message@),
        ));
    }
}

/// A step with a single message to log.
fn log_one(message: String, action: CardAction) -> (step: CardStep)
    ensures
        is_step(step, CardStepView { log: seq![message@], action: action@ }),
{
    let mut log: Vec<NfcEvent> = Vec::new();
    assert(logs(log@, seq![]));
    debug_log(&mut log, message);
    assert(seq![message@] =~= Seq::<Seq<char>>::empty().push(message@));
    CardStep { log, action }
}

/// A step with two messages to log.
fn log_two(first: String, second: String, action: CardAction) -> (step: CardStep)
    ensures
        is_step(step, CardStepView { log: seq![first@, second@], action: action@ }),
{
    let mut step = log_one(first, action);
    debug_log(&mut step.log, second);
    assert(seq![first@, second@] =~= seq![first@].push(second@));
    step
}

/// A step with nothing to log.
fn log_nothing(action: CardAction) -> (step: CardStep)
    ensures
        is_step(step, CardStepView { log: seq![], action: action@ }),
{
    let log: Vec<NfcEvent> = Vec::new();
    assert(logs(log@, seq![]));
    CardStep { log, action }
}

/// A step that reports the failure of a command that must not fail.
fn fail_command(what: &str, e: BridgeError) -> (step: CardStep)
    requires
        e is CardReadFailed,
    ensures
        is_step(
            step,
            CardStepView { log: seq![], action: command_failed(what@, e->CardReadFailed_0@) },
        ),
{
    let message = e.message();
    log_nothing(
        CardAction::Finished(
            Err(BridgeError::CardReadFailed(what.to_string().concat(message.as_str()))),
        ),
    )
}

/// Read card data from a connected card.
///
/// `atr_bytes` is the raw ATR of the card, `replies` the replies to the commands asked for
/// so far. The debug events of the returned step are meant for the browser console.
pub fn read_card(atr_bytes: &[u8], replies: &Vec<CardReply>) -> (step: CardStep)
    ensures
        is_step(step, card_step(atr_bytes@, reply_views(replies@))),
{
    let ghost views = reply_views(replies@);
    let count = replies.len();
    // Step 1: Get FeliCa IDm (before START command)
    if count == 0 {
        let atr_hex = text::to_hex(atr_bytes);
        return log_two(
            "[license] ATR: ".to_string().concat(atr_hex.as_str()),
            "[license] Step 1: GET_FELICA_IDM...".to_string(),
            CardAction::Transmit(Command::GetFelicaIdm),
        );
    }
    assert(views[0] == apdu::reply_view(replies[0]));
    let (felica_uid, felica_note) = read_felica_uid(&replies[0]);
    // Step 2: Initialize session
    if count == 1 {
        return log_two(
            felica_note,
            "[license] Step 2: START...".to_string(),
            CardAction::Transmit(Command::Start),
        );
    }
    assert(views[1] == apdu::reply_view(replies[1]));
    if let Err(e) = apdu::parse_reply(&replies[1]) {
        return fail_command("START failed: ", e);
    }
    if count == 2 {
        return log_two(
            "[license] Step 2: START done".to_string(),
            "[license] Step 3: START_TRANS...".to_string(),
            CardAction::Transmit(Command::StartTrans),
        );
    }
    assert(views[2] == apdu::reply_view(replies[2]));
    if let Err(e) = apdu::parse_reply(&replies[2]) {
        return fail_command("START_TRANS failed: ", e);
    }
    // Step 4: Detect card type
    if count == 3 {
        return log_two(
            "[license] Step 3: START_TRANS done".to_string(),
            "[license] Step 4: detect_card_type...".to_string(),
            CardAction::Transmit(Command::CheckShaken),
        );
    }
    assert(views[3] == apdu::reply_view(replies[3]));
    let card_type = detect_card_type(atr_bytes, &replies[3]);
    let type_note = "[license] Card type: ".to_string().concat(card_type.as_str());
    let atr = text::to_hex(atr_bytes);
    // Step 5: Read license-specific data if applicable
    if card_type != CardType::DriverLicense {
        let data = assemble(card_type, atr, None, None, felica_uid);
        return close_session(type_note, data, count - 4);
    }
    match read_driver_license_data(replies, 4) {
        LicenseProgress::Send(command) => {
            let action = CardAction::Transmit(command);
            if count == 4 {
                log_two(
                    type_note,
                    "[license] Step 5: read_driver_license_data...".to_string(),
                    action,
                )
            } else {
                log_nothing(action)
            }
        },
        LicenseProgress::Done { used, expiry_date, remain_count } => {
            let expiry = show_text(&expiry_date);
            let remain = show_count(&remain_count);
            let note = "[license] Expiry: ".to_string().concat(expiry.as_str()).concat(
                ", Remain: ",
            ).concat(remain.as_str());
            let data = assemble(card_type, atr, expiry_date, remain_count, felica_uid);
            close_session(note, data, count - 4 - used)
        },
        LicenseProgress::Failed { used, error } => {
            let message = error.message();
            let note = "[license] Failed to read license data: ".to_string().concat(
                message.as_str(),
            );
            let data = assemble(card_type, atr, None, None, felica_uid);
            close_session(note, data, count - 4 - used)
        },
    }
}

fn show_text(text: &Option<String>) -> (shown: String)
    ensures
        shown@ == shown_text(text::option_view(*text)),
{
    match text {
        Some(text) => "Some(\"".to_string().concat(text.as_str()).concat("\")"),
        None => "None".to_string(),
    }
}

fn show_count(count: &Option<u8>) -> (shown: String)
    ensures
        shown@ == shown_count(*count),
{
    match count {
        Some(count) => {
            let digits = text::to_decimal(*count as u64);
            "Some(".to_string().concat(digits.as_str()).concat(")")
        },
        None => "None".to_string(),
    }
}

/// Step 6: Generate card_id and put the data together.
fn assemble(
    card_type: CardType,
    atr: String,
    expiry_date: Option<String>,
    remain_count: Option<u8>,
    felica_uid: Option<String>,
) -> (data: LicenseData)
    ensures
        data@ == (LicenseDataView {
            card_id: card_id_of(card_type, text::option_view(expiry_date), text::option_view(felica_uid)),
            card_type,
            atr: atr@,
            expiry_date: text::option_view(expiry_date),
            remain_count,
            felica_uid: text::option_view(felica_uid),
        }),
{
    let fallback = match &felica_uid {
        Some(uid) => uid.clone(),
        None => String::new(),
    };
    let card_id = if card_type == CardType::DriverLicense {
        match &expiry_date {
            Some(expiry) => expiry.clone(),
            None => fallback,
        }
    } else {
        fallback
    };
    LicenseData { card_id, card_type, atr, expiry_date, remain_count, felica_uid }
}

/// Step 7: End session (best effort).
fn close_session(note: String, data: LicenseData, replies: usize) -> (step: CardStep)
    ensures
        is_step(step, closing_step(seq![note@], data@, replies as nat)),
{
    if replies == 0 {
        let id_note = "[license] card_id: ".to_string().concat(data.card_id.as_str());
        let mut step = log_two(note, id_note, CardAction::Transmit(Command::SelectEnd));
        let end_note = "[license] Step 7: SELECT_END...".to_string();
        debug_log(&mut step.log, end_note);
        assert(seq![note@] + seq![id_note@, end_note@] =~= seq![note@, id_note@].push(end_note@));
        step
    } else {
        log_one(
            "[license] Step 7: SELECT_END done".to_string(),
            CardAction::Finished(Ok(data)),
        )
    }
}

/// Reading a card takes at most nine commands, whatever the card replies.
pub proof fn law_read_card_terminates(atr: Seq<u8>, replies: Seq<apdu::ReplyView>)
    requires
        replies.len() >= 9,
    ensures
        card_step(atr, replies).action is Finished,
{
}

/// Once a card has been read, further replies do not change the result.
pub proof fn law_result_is_stable(
    atr: Seq<u8>,
    replies: Seq<apdu::ReplyView>,
    further: Seq<apdu::ReplyView>,
)
    requires
        card_step(atr, replies).action is Finished,
    ensures
        card_step(atr, replies + further).action == card_step(atr, replies).action,
{
    let all = replies + further;
    assert(forall|i: int| 0 <= i < replies.len() ==> all[i] == replies[i]);
    if replies.len() >= 4 {
        let old_rest = replies.skip(4);
        let new_rest = all.skip(4);
        assert(forall|i: int| 0 <= i < old_rest.len() ==> new_rest[i] == old_rest[i]);
    }
}

/// The first four commands are always the same, in this order, and the commands that read a
/// driver's license are only sent to one.
pub proof fn law_command_order(atr: Seq<u8>, replies: Seq<apdu::ReplyView>)
    requires
        card_step(atr, replies).action is Transmit,
    ensures
        ({
            let command = card_step(atr, replies).action->Transmit_0;
            &&& replies.len() == 0 <==> command == Command::GetFelicaIdm
            &&& replies.len() == 1 <==> command == Command::Start
            &&& replies.len() == 2 <==> command == Command::StartTrans
            &&& replies.len() == 3 <==> command == Command::CheckShaken
            &&& command == Command::SelectMf || command == Command::CheckRemain || command
                == Command::SelectExpireMf || command == Command::ReadExpireDf ==> card_type_of(
                atr,
                replies[3],
            ) == CardType::DriverLicense
        }),
{
}

/// Reading a card fails exactly if the session or the transaction could not be started; no
/// other failure of the card keeps the data that could be read from being returned.
pub proof fn law_only_start_can_fail(atr: Seq<u8>, replies: Seq<apdu::ReplyView>)
    requires
        card_step(atr, replies).action is Finished,
    ensures
        card_step(atr, replies).action->Finished_0 is Err <==> {
            ||| apdu::response(replies[1]) is Err
            ||| apdu::response(replies[2]) is Err
        },
{
    if apdu::response(replies[1]) is Ok && replies.len() == 2 {
        assert(card_step(atr, replies).action is Transmit);
    }
}

/// A card that was read has had its session ended, and what it replied to that made no
/// difference to the data.
pub proof fn law_session_is_ended(atr: Seq<u8>, replies: Seq<apdu::ReplyView>)
    requires
        card_step(atr, replies).action is Finished,
        card_step(atr, replies).action->Finished_0 is Ok,
    ensures
        exists|k: int|
            0 <= k < replies.len() && (#[trigger] card_step(atr, replies.take(k))).action
                == CardActionView::Transmit(Command::SelectEnd) && forall|reply: apdu::ReplyView|
                (#[trigger] card_step(atr, replies.take(k).push(reply))).action == card_step(
                    atr,
                    replies,
                ).action,
{
    let used: int = if card_type_of(atr, replies[3]) != CardType::DriverLicense {
        0
    } else {
        match license_progress(replies.skip(4)) {
            LicenseProgressView::Done { used, .. } => used as int,
            LicenseProgressView::Failed { used, .. } => used as int,
            LicenseProgressView::Send(_) => 0,
        }
    };
    let k = 4 + used;
    let sent = replies.take(k);
    assert(forall|i: int| 0 <= i < k ==> sent[i] == replies[i]);
    assert(forall|i: int| 0 <= i < used ==> sent.skip(4)[i] == replies.skip(4)[i]);
    assert(card_step(atr, sent).action == CardActionView::Transmit(Command::SelectEnd));
    assert forall|reply: apdu::ReplyView|
        (#[trigger] card_step(atr, sent.push(reply))).action == card_step(atr, replies).action by {
        let ended = sent.push(reply);
        assert(forall|i: int| 0 <= i < k ==> ended[i] == replies[i]);
        assert(forall|i: int| 0 <= i < used ==> ended.skip(4)[i] == replies.skip(4)[i]);
    }
}

/// What holds of the data of every card: the ATR is recorded, the expiry date and the
/// remaining count belong to driver's licenses, the count fits in four bits, the FeliCa UID
/// has eight to sixteen digits, and the identifier is the expiry date of a driver's license
/// or else the FeliCa UID.
pub proof fn law_card_data(atr: Seq<u8>, replies: Seq<apdu::ReplyView>)
    requires
        card_step(atr, replies).action is Finished,
        card_step(atr, replies).action->Finished_0 is Ok,
    ensures
        ({
            let data = card_step(atr, replies).action->Finished_0->Ok_0;
            &&& data.atr == text::hex(atr)
            &&& data.card_type == card_type_of(atr, replies[3])
            &&& data.felica_uid == felica_uid_of(replies[0])
            &&& data.expiry_date is Some || data.remain_count is Some ==> data.card_type
                == CardType::DriverLicense
            &&& data.remain_count is Some ==> data.remain_count->0 < 16
            &&& data.felica_uid is Some ==> 8 <= data.felica_uid->0.len() <= 16
            &&& data.expiry_date is Some ==> data.card_id == data.expiry_date->0
            &&& data.expiry_date is None && data.felica_uid is Some ==> data.card_id
                == data.felica_uid->0
            &&& data.expiry_date is None && data.felica_uid is None ==> data.card_id.len() == 0
        }),
{
}

/// A card is a car inspection certificate exactly if the check was answered with the six bytes
/// of the signature and any status word, and otherwise a driver's license exactly if the first
/// seven bytes of its ATR are those of driver's licenses, position by position.
pub proof fn law_card_type_by_position(atr: Seq<u8>, shaken: apdu::ReplyView)
    ensures
        ({
            let signed = {
                &&& shaken is Ok && shaken->Ok_0.len() == 8
                &&& shaken->Ok_0[0] == 0x06 && shaken->Ok_0[1] == 0x78 && shaken->Ok_0[2] == 0x77
                &&& shaken->Ok_0[3] == 0x81 && shaken->Ok_0[4] == 0x02 && shaken->Ok_0[5] == 0x80
            };
            let licensed = {
                &&& atr.len() >= 7
                &&& atr[0] == 0x3B && atr[1] == 0x88 && atr[2] == 0x80 && atr[3] == 0x01
                &&& atr[4] == 0x00 && atr[5] == 0x00 && atr[6] == 0x00
            };
            &&& card_type_of(atr, shaken) == CardType::CarInspection <==> signed
            &&& card_type_of(atr, shaken) == CardType::DriverLicense <==> !signed && licensed
            &&& card_type_of(atr, shaken) == CardType::Other <==> !signed && !licensed
        }),
{
    if shaken is Ok && shaken->Ok_0.len() >= 2 {
        let bytes = shaken->Ok_0;
        let data = bytes.take(bytes.len() - 2);
        if data.len() == 6 && data[0] == 0x06 && data[1] == 0x78 && data[2] == 0x77 && data[3]
            == 0x81 && data[4] == 0x02 && data[5] == 0x80 {
            assert(data =~= shaken_signature());
        }
    }
    let prefix = driver_license_atr_prefix();
    if atr.len() >= 7 {
        let start = atr.take(7);
        if start[0] == 0x3B && start[1] == 0x88 && start[2] == 0x80 && start[3] == 0x01 && start[4]
            == 0x00 && start[5] == 0x00 && start[6] == 0x00 {
            assert(start =~= prefix);
            assert(prefix.is_prefix_of(atr));
        }
        if prefix.is_prefix_of(atr) {
            assert(atr.take(7) =~= prefix);
            assert(start[0] == prefix[0] && start[1] == prefix[1] && start[2] == prefix[2]
                && start[3] == prefix[3] && start[4] == prefix[4] && start[5] == prefix[5]
                && start[6] == prefix[6]);
        }
    }
}

/// The FeliCa UID is read exactly from an answer with status word 90 00 and at least four bytes
/// of data, and is all of the data, but no more than its first eight bytes.
pub proof fn law_felica_uid(data: Seq<u8>, sw1: u8, sw2: u8, reply: apdu::ReplyView)
    ensures
        ({
            let uid = felica_uid_of(Ok(data + seq![sw1, sw2]));
            &&& uid is Some <==> sw1 == 0x90 && sw2 == 0x00 && data.len() >= 4
            &&& uid is Some && data.len() <= 8 ==> uid->0 == text::hex(data)
            &&& uid is Some && data.len() > 8 ==> uid->0 == text::hex(data.take(8))
        }),
        reply is Err || reply->Ok_0.len() < 2 ==> felica_uid_of(reply) is None,
{
    apdu::law_response_parts(data, sw1, sw2);
    assert(data.len() == 8 ==> data.take(8) =~= data);
}

/// The remaining count is the second status byte without its upper half, whatever the status;
/// the expiry date is all of the data, but only of an answer with status word 90 00. An answer
/// without a status word gives neither.
pub proof fn law_count_and_expiry(data: Seq<u8>, sw1: u8, sw2: u8, reply: apdu::ReplyView)
    ensures
        ({
            let count = remain_count_of(Ok(data + seq![sw1, sw2]));
            let expiry = expiry_date_of(Ok(data + seq![sw1, sw2]));
            &&& count is Some && count->0 < 16 && (sw2 - count->0) % 16 == 0
            &&& expiry is Some <==> sw1 == 0x90 && sw2 == 0x00
            &&& expiry is Some ==> expiry->0 == text::hex(data)
        }),
        reply is Err || reply->Ok_0.len() < 2 ==> remain_count_of(reply) is None && expiry_date_of(
            reply,
        ) is None,
{
    apdu::law_response_parts(data, sw1, sw2);
}

/// A driver's license whose files could be selected and whose expiry date could be read is
/// identified by all of the expiry data, whatever its length.
pub proof fn law_license_is_identified(
    atr: Seq<u8>,
    replies: Seq<apdu::ReplyView>,
    data: Seq<u8>,
)
    requires
        replies.len() >= 9,
        card_type_of(atr, replies[3]) == CardType::DriverLicense,
        forall|i: int|
            i == 1 || i == 2 || i == 4 || i == 6 ==> (#[trigger] replies[i]) is Ok
                && replies[i]->Ok_0.len() >= 2,
        replies[7] == Ok::<_, Seq<char>>(data + seq![0x90, 0x00]),
    ensures
        ({
            let action = card_step(atr, replies).action;
            &&& action is Finished && action->Finished_0 is Ok
            &&& action->Finished_0->Ok_0.card_type == CardType::DriverLicense
            &&& action->Finished_0->Ok_0.expiry_date == Some(text::hex(data))
            &&& action->Finished_0->Ok_0.card_id == text::hex(data)
        }),
{
    let rest = replies.skip(4);
    assert(rest[0] == replies[4] && rest[1] == replies[5] && rest[2] == replies[6] && rest[3]
        == replies[7]);
    assert(apdu::response(replies[1]) is Ok && apdu::response(replies[2]) is Ok);
    assert(apdu::response(replies[4]) is Ok && apdu::response(replies[6]) is Ok);
    law_count_and_expiry(data, 0x90, 0x00, replies[7]);
}

/// Two driver's licenses with different expiry data have different identifiers.
pub proof fn law_licenses_are_told_apart(
    atr: Seq<u8>,
    replies: Seq<apdu::ReplyView>,
    data: Seq<u8>,
    other_atr: Seq<u8>,
    other_replies: Seq<apdu::ReplyView>,
    other_data: Seq<u8>,
)
    requires
        data != other_data,
        replies.len() >= 9,
        card_type_of(atr, replies[3]) == CardType::DriverLicense,
        forall|i: int|
            i == 1 || i == 2 || i == 4 || i == 6 ==> (#[trigger] replies[i]) is Ok
                && replies[i]->Ok_0.len() >= 2,
        replies[7] == Ok::<_, Seq<char>>(data + seq![0x90, 0x00]),
        other_replies.len() >= 9,
        card_type_of(other_atr, other_replies[3]) == CardType::DriverLicense,
        forall|i: int|
            i == 1 || i == 2 || i == 4 || i == 6 ==> (#[trigger] other_replies[i]) is Ok
                && other_replies[i]->Ok_0.len() >= 2,
        other_replies[7] == Ok::<_, Seq<char>>(other_data + seq![0x90, 0x00]),
    ensures
        card_step(atr, replies).action->Finished_0->Ok_0.card_id != card_step(
            other_atr,
            other_replies,
        ).action->Finished_0->Ok_0.card_id,
{
    law_license_is_identified(atr, replies, data);
    law_license_is_identified(other_atr, other_replies, other_data);
    if text::hex(data) == text::hex(other_data) {
        text::law_hex_determines_bytes(data, other_data);
    }
}

/// Where the data of a driver's license comes from: the remaining count from the second and the
/// expiry date from the fourth of its replies, if the replies to both selections have a status
/// word; otherwise there is neither. Other cards have neither either.
pub proof fn law_license_data(atr: Seq<u8>, replies: Seq<apdu::ReplyView>)
    requires
        card_step(atr, replies).action is Finished,
        card_step(atr, replies).action->Finished_0 is Ok,
    ensures
        ({
            let data = card_step(atr, replies).action->Finished_0->Ok_0;
            let licensed = card_type_of(atr, replies[3]) == CardType::DriverLicense;
            let first = replies[4] is Ok && replies[4]->Ok_0.len() >= 2;
            let second = replies[6] is Ok && replies[6]->Ok_0.len() >= 2;
            &&& licensed && first && second ==> {
                &&& data.remain_count == remain_count_of(replies[5])
                &&& data.expiry_date == expiry_date_of(replies[7])
            }
            &&& !(licensed && first && second) ==> {
                &&& data.remain_count is None
                &&& data.expiry_date is None
            }
        }),
{
    let rest = replies.skip(4);
    if rest.len() >= 1 {
        assert(rest[0] == replies[4]);
        apdu::law_failed_replies(Seq::empty(), replies[4]->Ok_0);
    }
    if rest.len() >= 3 {
        assert(rest[1] == replies[5] && rest[2] == replies[6]);
        apdu::law_failed_replies(Seq::empty(), replies[6]->Ok_0);
    }
    if rest.len() >= 4 {
        assert(rest[3] == replies[7]);
    }
}

/// Every step of the exchange: which command comes after which replies, and when the exchange
/// is over. Each reply that must not fail has to have a status word; the session of a card is
/// always ended before its data is returned.
pub proof fn law_exchange(atr: Seq<u8>, replies: Seq<apdu::ReplyView>)
    ensures
        ({
            let action = card_step(atr, replies).action;
            let n = replies.len();
            let licensed = card_type_of(atr, replies[3]) == CardType::DriverLicense;
            let answered = |i: int| replies[i] is Ok && replies[i]->Ok_0.len() >= 2;
            let started = answered(1) && answered(2);
            // How many replies there are before the session is ended
            let last: int = if !licensed {
                4
            } else if !answered(4) {
                5
            } else if !answered(6) {
                7
            } else {
                8
            };
            &&& n == 0 ==> action == CardActionView::Transmit(Command::GetFelicaIdm)
            &&& n == 1 ==> action == CardActionView::Transmit(Command::Start)
            &&& n >= 2 && !answered(1) ==> action is Finished && action->Finished_0 is Err
            &&& n == 2 && answered(1) ==> action == CardActionView::Transmit(Command::StartTrans)
            &&& n >= 3 && answered(1) && !answered(2) ==> action is Finished
                && action->Finished_0 is Err
            &&& n == 3 && started ==> action == CardActionView::Transmit(Command::CheckShaken)
            &&& n >= 4 && started && n == last ==> action == CardActionView::Transmit(
                Command::SelectEnd,
            )
            &&& n >= 4 && started && n > last ==> action is Finished && action->Finished_0 is Ok
            &&& n == 4 && started && n < last ==> action == CardActionView::Transmit(
                Command::SelectMf,
            )
            &&& n == 5 && started && n < last ==> action == CardActionView::Transmit(
                Command::CheckRemain,
            )
            &&& n == 6 && started && n < last ==> action == CardActionView::Transmit(
                Command::SelectExpireMf,
            )
            &&& n == 7 && started && n < last ==> action == CardActionView::Transmit(
                Command::ReadExpireDf,
            )
        }),
{
    assert forall|i: int| 0 <= i < replies.len() implies (#[trigger] apdu::response(replies[i]) is Ok
        <==> replies[i] is Ok && replies[i]->Ok_0.len() >= 2) by {
        apdu::law_failed_replies(Seq::empty(), replies[i]->Ok_0);
    }
    let rest = replies.skip(4);
    if replies.len() >= 4 {
        assert(forall|i: int| 0 <= i < rest.len() ==> #[trigger] rest[i] == replies[i + 4]);
    }
}

/// A session or a transaction that cannot be started is reported as such, along with what became
/// of the command.
pub proof fn law_start_failures(atr: Seq<u8>, replies: Seq<apdu::ReplyView>)
    ensures
        replies.len() >= 2 && replies[1] is Err ==> card_step(atr, replies).action
            == CardActionView::Finished(
            Err(
                error::BridgeErrorView::CardReadFailed(
                    "START failed: "@ + ("Card read failed: "@ + ("transmit failed: "@
                        + replies[1]->Err_0)),
                ),
            ),
        ),
        replies.len() >= 2 && replies[1] is Ok && replies[1]->Ok_0.len() < 2 ==> card_step(
            atr,
            replies,
        ).action == CardActionView::Finished(
            Err(
                error::BridgeErrorView::CardReadFailed(
                    "START failed: "@ + ("Card read failed: "@ + "response too short"@),
                ),
            ),
        ),
        replies.len() >= 3 && replies[1] is Ok && replies[1]->Ok_0.len() >= 2 && replies[2] is Err
            ==> card_step(atr, replies).action == CardActionView::Finished(
            Err(
                error::BridgeErrorView::CardReadFailed(
                    "START_TRANS failed: "@ + ("Card read failed: "@ + ("transmit failed: "@
                        + replies[2]->Err_0)),
                ),
            ),
        ),
        replies.len() >= 3 && replies[1] is Ok && replies[1]->Ok_0.len() >= 2 && replies[2] is Ok
            && replies[2]->Ok_0.len() < 2 ==> card_step(atr, replies).action
            == CardActionView::Finished(
            Err(
                error::BridgeErrorView::CardReadFailed(
                    "START_TRANS failed: "@ + ("Card read failed: "@ + "response too short"@),
                ),
            ),
        ),
{
}

/// What is logged about the IDm query: the UID and how many bytes the card gave, or the status
/// word that it gave instead, or why there is none.
pub proof fn law_felica_log(data: Seq<u8>, sw1: u8, sw2: u8, reply: apdu::ReplyView)
    ensures
        ({
            let answer = Ok(data + seq![sw1, sw2]);
            let success = sw1 == 0x90 && sw2 == 0x00 && data.len() >= 4;
            &&& success ==> felica_log(answer) == "[license] FeliCa IDm: "@
                + felica_uid_of(answer)->0 + " ("@ + text::decimal(data.len()) + "bytes)"@
            &&& !success ==> felica_log(answer) == "[license] FeliCa IDm: not available (SW="@
                + text::hex(seq![sw1, sw2]) + ")"@
        }),
        reply is Err ==> felica_log(reply) == "[license] FeliCa IDm: error ("@
            + ("Card read failed: "@ + ("transmit failed: "@ + reply->Err_0)) + ")"@,
        reply is Ok && reply->Ok_0.len() < 2 ==> felica_log(reply)
            == "[license] FeliCa IDm: error ("@ + ("Card read failed: "@ + "response too short"@)
            + ")"@,
{
    apdu::law_response_parts(data, sw1, sw2);
}

/// What is logged while a session is started: each step when it begins and, unless it failed,
/// when it is done.
pub proof fn law_opening_log(atr: Seq<u8>, replies: Seq<apdu::ReplyView>)
    ensures
        ({
            let log = card_step(atr, replies).log;
            let n = replies.len();
            let answered = |i: int| replies[i] is Ok && replies[i]->Ok_0.len() >= 2;
            &&& n == 0 ==> log == seq![
                "[license] ATR: "@ + text::hex(atr),
                "[license] Step 1: GET_FELICA_IDM..."@,
            ]
            &&& n == 1 ==> log == seq![felica_log(replies[0]), "[license] Step 2: START..."@]
            &&& n >= 2 && !answered(1) ==> log.len() == 0
            &&& n == 2 && answered(1) ==> log == seq![
                "[license] Step 2: START done"@,
                "[license] Step 3: START_TRANS..."@,
            ]
            &&& n >= 3 && answered(1) && !answered(2) ==> log.len() == 0
            &&& n == 3 && answered(1) && answered(2) ==> log == seq![
                "[license] Step 3: START_TRANS done"@,
                "[license] Step 4: detect_card_type..."@,
            ]
        }),
{
    apdu::law_failed_replies(Seq::empty(), replies[1]->Ok_0);
    apdu::law_failed_replies(Seq::empty(), replies[2]->Ok_0);
}

/// What is logged from the card type on: the type right after it is known, then nothing until a
/// driver's license has been read, then what was found or why it was not, the identifier that
/// the card will be returned with whatever it replies to the end of the session, and that end.
pub proof fn law_closing_log(
    atr: Seq<u8>,
    replies: Seq<apdu::ReplyView>,
    reply: apdu::ReplyView,
)
    requires
        replies.len() >= 4,
        replies[1] is Ok && replies[1]->Ok_0.len() >= 2,
        replies[2] is Ok && replies[2]->Ok_0.len() >= 2,
    ensures
        ({
            let step = card_step(atr, replies);
            let log = step.log;
            let n = replies.len();
            let licensed = card_type_of(atr, replies[3]) == CardType::DriverLicense;
            let ending = step.action == CardActionView::Transmit(Command::SelectEnd);
            let next = card_step(atr, replies.push(reply)).action;
            &&& n == 4 ==> log.len() > 0 && log[0] == "[license] Card type: "@ + match card_type_of(
                atr,
                replies[3],
            ) {
                CardType::DriverLicense => "driver_license"@,
                CardType::CarInspection => "car_inspection"@,
                CardType::Other => "other"@,
            }
            &&& n == 4 && licensed ==> log.len() == 2 && log[1]
                == "[license] Step 5: read_driver_license_data..."@
            &&& n > 4 && step.action is Transmit && !ending ==> log.len() == 0
            &&& ending ==> {
                &&& log.len() == 3
                &&& next is Finished && next->Finished_0 is Ok
                &&& log[1] == "[license] card_id: "@ + next->Finished_0->Ok_0.card_id
                &&& log[2] == "[license] Step 7: SELECT_END..."@
            }
            &&& ending && licensed && n == 8 ==> log[0] == "[license] Expiry: "@ + (
            match next->Finished_0->Ok_0.expiry_date {
                Some(expiry) => "Some(\""@ + expiry + "\")"@,
                None => "None"@,
            }) + ", Remain: "@ + (match next->Finished_0->Ok_0.remain_count {
                Some(count) => "Some("@ + text::decimal(count as nat) + ")"@,
                None => "None"@,
            })
            &&& ending && licensed && n < 8 && replies[n - 1] is Err ==> log[0]
                == "[license] Failed to read license data: "@ + ("Card read failed: "@
                + ("transmit failed: "@ + replies[n - 1]->Err_0))
            &&& ending && licensed && n < 8 && replies[n - 1] is Ok ==> log[0]
                == "[license] Failed to read license data: "@ + ("Card read failed: "@
                + "response too short"@)
            &&& step.action is Finished ==> log == seq!["[license] Step 7: SELECT_END done"@]
        }),
{
    let more = replies.push(reply);
    let rest = replies.skip(4);
    assert(forall|i: int| 0 <= i < replies.len() ==> more[i] == replies[i]);
    assert(more.skip(4) =~= rest.push(reply));
    assert forall|i: int| 0 <= i < replies.len() implies (#[trigger] apdu::response(replies[i]) is Ok
        <==> replies[i] is Ok && replies[i]->Ok_0.len() >= 2) by {
        apdu::law_failed_replies(Seq::empty(), replies[i]->Ok_0);
    }
    assert(forall|i: int| 0 <= i < rest.len() ==> #[trigger] rest[i] == replies[i + 4]);
    assert(apdu::response(replies[1]) is Ok && apdu::response(replies[2]) is Ok);
}

/// The events of a step are debug events that carry its messages, each one, in order, and the
/// action is the one described.
pub proof fn law_step_carries_messages(step: CardStep, view: CardStepView)
    requires
        is_step(step, view),
    ensures
        step.action@ == view.action,
        step.log@.len() == view.log.len(),
        forall|i: int|
            0 <= i < view.log.len() ==> (#[trigger] step.log@[i]) is NfcDebug
                && step.log@[i]->NfcDebug_message@ == view.log[i],
{
    let events = step.log@.map_values(|event: NfcEvent| event@);
    let debugs = view.log.map_values(
        |message: Seq<char>| crate::events::NfcEventView::NfcDebug { message },
    );
    assert(events == debugs);
    assert(events.len() == step.log@.len() && debugs.len() == view.log.len());
    assert forall|i: int| 0 <= i < view.log.len() implies (#[trigger] step.log@[i]) is NfcDebug
        && step.log@[i]->NfcDebug_message@ == view.log[i] by {
        assert(events[i] == step.log@[i]@);
        assert(debugs[i] == (crate::events::NfcEventView::NfcDebug { message: view.log[i] }));
    }
}

/// An action stands for its command, for the data that was read with all its parts, or for its
/// error.
pub proof fn law_action_view(action: CardAction)
    ensures
        action is Transmit ==> action@ == CardActionView::Transmit(action->Transmit_0),
        action is Finished <==> action@ is Finished,
        action is Finished && action->Finished_0 is Err ==> action@->Finished_0 == Err::<
            LicenseDataView,
            _,
        >(action->Finished_0->Err_0@),
        action is Finished && action->Finished_0 is Ok ==> {
            let data = action->Finished_0->Ok_0;
            let view = action@->Finished_0->Ok_0;
            &&& action@->Finished_0 is Ok
            &&& view.card_id == data.card_id@ && view.atr == data.atr@
            &&& view.card_type == data.card_type && view.remain_count == data.remain_count
            &&& view.expiry_date is Some <==> data.expiry_date is Some
            &&& data.expiry_date is Some ==> view.expiry_date->0 == data.expiry_date->0@
            &&& view.felica_uid is Some <==> data.felica_uid is Some
            &&& data.felica_uid is Some ==> view.felica_uid->0 == data.felica_uid->0@
        },
{
}

/// Replies stand for their bytes or failures, each one, in order.
pub proof fn law_reply_views(replies: Seq<CardReply>, i: int)
    requires
        0 <= i < replies.len(),
    ensures
        reply_views(replies).len() == replies.len(),
        replies[i] is Ok ==> reply_views(replies)[i] == Ok::<_, Seq<char>>(replies[i]->Ok_0@),
        replies[i] is Err ==> reply_views(replies)[i] == Err::<Seq<u8>, _>(
            replies[i]->Err_0.text@,
        ),
{
}

/// How far reading a license has come stands for the command to send, for what was found, or for
/// the error.
pub proof fn law_progress_view(progress: LicenseProgress)
    ensures
        progress is Send ==> progress@ == LicenseProgressView::Send(progress->Send_0),
        progress is Done ==> {
            &&& progress@ is Done && progress@->Done_used == progress->Done_used
            &&& progress@->remain_count == progress->remain_count
            &&& progress@->expiry_date is Some <==> progress->expiry_date is Some
            &&& progress->expiry_date is Some ==> progress@->expiry_date->0
                == progress->expiry_date->0@
        },
        progress is Failed ==> {
            &&& progress@ is Failed && progress@->Failed_used == progress->Failed_used
            &&& progress@->error == progress->error@
        },
{
}

/// The part of the exchange that is about a driver's license alone: four commands in order, cut
/// short by a selection without an answer, and what they gave.
pub proof fn law_license_progress(replies: Seq<apdu::ReplyView>)
    ensures
        ({
            let progress = license_progress(replies);
            let n = replies.len();
            let answered = |i: int| replies[i] is Ok && replies[i]->Ok_0.len() >= 2;
            &&& n == 0 ==> progress == LicenseProgressView::Send(Command::SelectMf)
            &&& n == 1 && answered(0) ==> progress == LicenseProgressView::Send(
                Command::CheckRemain,
            )
            &&& n == 2 && answered(0) ==> progress == LicenseProgressView::Send(
                Command::SelectExpireMf,
            )
            &&& n == 3 && answered(0) && answered(2) ==> progress == LicenseProgressView::Send(
                Command::ReadExpireDf,
            )
            &&& n >= 4 && answered(0) && answered(2) ==> progress == (LicenseProgressView::Done {
                used: 4,
                expiry_date: expiry_date_of(replies[3]),
                remain_count: remain_count_of(replies[1]),
            })
            &&& n >= 1 && !answered(0) ==> progress is Failed && progress->Failed_used == 1
            &&& n >= 3 && answered(0) && !answered(2) ==> progress is Failed
                && progress->Failed_used == 3
        }),
{
    apdu::law_failed_replies(Seq::empty(), replies[0]->Ok_0);
    apdu::law_failed_replies(Seq::empty(), replies[2]->Ok_0);
}

} // verus!
