//! Commands sent to a card and the responses that come back.
use vstd::prelude::*;
use vstd::string::*;

use crate::error::{BridgeError, PcscError};
use crate::text;

verus! {

/// What came back for a transmitted command: the raw response or the failure of the
/// transmission.
pub type CardReply = Result<Vec<u8>, PcscError>;

/// What a [`CardReply`] stands for: the raw response or the text of the failure.
pub type ReplyView = Result<Seq<u8>, Seq<char>>;

pub open spec fn reply_view(reply: CardReply) -> ReplyView {
    match reply {
        Ok(bytes) => Ok(bytes@),
        Err(e) => Err(e.text@),
    }
}

/// Room for the response to a UID query.
pub const UID_RESPONSE_CAPACITY: usize = 256;

/// Room for the response to any other command.
pub const RESPONSE_CAPACITY: usize = 258;

/// The commands that are sent to cards.
#[derive(Debug, Clone, Copy, PartialEq, Eq, Structural)]
pub enum Command {
    /// Initialize NFC card reader session.
    Start,
    /// Begin transaction.
    StartTrans,
    /// Check for car inspection certificate.
    CheckShaken,
    /// Get the card UID: 4 or 7 bytes for MIFARE, the 8 bytes of the IDm for FeliCa.
    GetFelicaIdm,
    /// Select Master File (ISO7816-4).
    SelectMf,
    /// Check remaining read count (PIN verify without data).
    CheckRemain,
    /// Select expiry date file (EF 2F01 under MF).
    SelectExpireMf,
    /// Read expiry date data (17 bytes).
    ReadExpireDf,
    /// End session.
    SelectEnd,
}

impl Command {
    /// The bytes of the command.
    pub open spec fn apdu(self) -> Seq<u8> {
        match self {
            Command::Start => seq![0xFF, 0xC2, 0x00, 0x00, 0x01, 0x81],
            Command::StartTrans => seq![0xFF, 0xC2, 0x00, 0x00, 0x02, 0x84, 0x00],
            Command::CheckShaken => seq![0xFF, 0xCA, 0x01, 0x00, 0x00],
            Command::GetFelicaIdm => seq![0xFF, 0xCA, 0x00, 0x00, 0x00],
            Command::SelectMf => seq![0x00, 0xA4, 0x00, 0x00],
            Command::CheckRemain => seq![0x00, 0x20, 0x00, 0x81],
            Command::SelectExpireMf => seq![0x00, 0xA4, 0x02, 0x0C, 0x02, 0x2F, 0x01],
            Command::ReadExpireDf => seq![0x00, 0xB0, 0x00, 0x00, 0x11],
            Command::SelectEnd => seq![0xFF, 0xC2, 0x00, 0x00, 0x02, 0x82, 0x00],
        }
    }

    /// The bytes to transmit for this command.
    pub fn bytes(&self) -> (bytes: Vec<u8>)
        ensures
            bytes@ == self.apdu(),
    {
        let bytes: Vec<u8> = match self {
            Command::Start => vec![0xFF, 0xC2, 0x00, 0x00, 0x01, 0x81],
            Command::StartTrans => vec![0xFF, 0xC2, 0x00, 0x00, 0x02, 0x84, 0x00],
            Command::CheckShaken => vec![0xFF, 0xCA, 0x01, 0x00, 0x00],
            Command::GetFelicaIdm => vec![0xFF, 0xCA, 0x00, 0x00, 0x00],
            Command::SelectMf => vec![0x00, 0xA4, 0x00, 0x00],
            Command::CheckRemain => vec![0x00, 0x20, 0x00, 0x81],
            Command::SelectExpireMf => vec![0x00, 0xA4, 0x02, 0x0C, 0x02, 0x2F, 0x01],
            Command::ReadExpireDf => vec![0x00, 0xB0, 0x00, 0x00, 0x11],
            Command::SelectEnd => vec![0xFF, 0xC2, 0x00, 0x00, 0x02, 0x82, 0x00],
        };
        assert(bytes@ =~= self.apdu());
        bytes
    }
}

/// A response taken apart: its data and the two bytes of its status word.
#[derive(Debug)]
pub struct Response {
    pub data: Vec<u8>,
    pub sw1: u8,
    pub sw2: u8,
}

/// What a [`Response`] stands for.
pub struct ResponseView {
    pub data: Seq<u8>,
    pub sw1: u8,
    pub sw2: u8,
}

impl View for Response {
    type V = ResponseView;

    open spec fn view(&self) -> ResponseView {
        ResponseView { data: self.data@, sw1: self.sw1, sw2: self.sw2 }
    }
}

impl ResponseView {
    /// Whether the status word reports success.
    pub open spec fn success(self) -> bool {
        self.sw1 == 0x90 && self.sw2 == 0x00
    }
}

/// A reply taken apart: the last two bytes are the status word, everything before them is
/// data. A failed transmission or a response without room for a status word is a failed
/// read, described by the text.
pub open spec fn response(reply: ReplyView) -> Result<ResponseView, Seq<char>> {
    match reply {
        Err(text) => Err("transmit failed: "@ + text),
        Ok(bytes) => if bytes.len() < 2 {
            Err("response too short"@)
        } else {
            Ok(
                ResponseView {
                    data: bytes.take(bytes.len() - 2),
                    sw1: bytes[bytes.len() - 2],
                    sw2: bytes[bytes.len() - 1],
                },
            )
        },
    }
}

/// Whether `result` reports the response `expected`, a failed read with the text given there.
pub open spec fn reports_response(
    result: Result<Response, BridgeError>,
    expected: Result<ResponseView, Seq<char>>,
) -> bool {
    match (result, expected) {
        (Ok(response), Ok(view)) => response@ == view,
        (Err(e), Err(text)) => e@ == crate::error::BridgeErrorView::CardReadFailed(text),
        _ => false,
    }
}

/// Take the reply to a transmitted command apart into data and status word.
pub fn parse_reply(reply: &CardReply) -> (result: Result<Response, BridgeError>)
    ensures
        reports_response(result, response(reply_view(*reply))),
{
    match reply {
        Err(e) => Err(
            BridgeError::CardReadFailed("transmit failed: ".to_string().concat(e.text.as_str())),
        ),
        Ok(bytes) => {
            let len = bytes.len();
            if len < 2 {
                return Err(BridgeError::CardReadFailed("response too short".to_string()));
            }
            let data = take_bytes(bytes.as_slice(), len - 2);
            Ok(Response { data, sw1: bytes[len - 2], sw2: bytes[len - 1] })
        },
    }
}

/// The first `n` bytes, as a vector of their own.
pub(crate) fn take_bytes(bytes: &[u8], n: usize) -> (taken: Vec<u8>)
    requires
        n <= bytes@.len(),
    ensures
        taken@ == bytes@.take(n as int),
{
    let mut taken: Vec<u8> = Vec::new();
    let mut i: usize = 0;
    while i < n
        invariant
            i <= n <= bytes@.len(),
            taken@ == bytes@.take(i as int),
        decreases n - i,
    {
        taken.push(bytes[i]);
        i = i + 1;
        assert(taken@ =~= bytes@.take(i as int));
    }
    taken
}

/// Whether two byte strings are the same.
pub(crate) fn same_bytes(a: &[u8], b: &[u8]) -> (same: bool)
    ensures
        same == (a@ == b@),
{
    if a.len() != b.len() {
        return false;
    }
    let mut i: usize = 0;
    while i < a.len()
        invariant
            i <= a@.len(),
            a@.len() == b@.len(),
            forall|j: int| 0 <= j < i ==> a@[j] == b@[j],
        decreases a@.len() - i,
    {
        if a[i] != b[i] {
            return false;
        }
        i = i + 1;
    }
    assert(a@ =~= b@);
    true
}

/// The UID that a reply to the UID query reports: the hexadecimal digits of its data, if the
/// status word reports success.
pub open spec fn uid_of(reply: ReplyView) -> Result<Seq<char>, Seq<char>> {
    match response(reply) {
        Err(text) => Err(text),
        Ok(r) => if r.success() {
            Ok(text::hex(r.data))
        } else {
            Err("APDU error: SW="@ + text::hex(seq![r.sw1, r.sw2]))
        },
    }
}

/// Read card UID from the reply to the UID query.
pub fn read_uid(reply: &CardReply) -> (result: Result<String, BridgeError>)
    ensures
        match (result, uid_of(reply_view(*reply))) {
            (Ok(uid), Ok(digits)) => uid@ == digits,
            (Err(e), Err(text)) => e@ == crate::error::BridgeErrorView::CardReadFailed(text),
            _ => false,
        },
{
    let response = match parse_reply(reply) {
        Ok(response) => response,
        Err(e) => {
            return Err(e);
        },
    };
    if response.sw1 == 0x90 && response.sw2 == 0x00 {
        Ok(text::to_hex(response.data.as_slice()))
    } else {
        let digits = status_digits(response.sw1, response.sw2);
        Err(BridgeError::CardReadFailed("APDU error: SW=".to_string().concat(digits.as_str())))
    }
}

/// The four hexadecimal digits of a status word.
pub(crate) fn status_digits(sw1: u8, sw2: u8) -> (digits: String)
    ensures
        digits@ == text::hex(seq![sw1, sw2]),
{
    let word: Vec<u8> = vec![sw1, sw2];
    assert(word@ =~= seq![sw1, sw2]);
    text::to_hex(word.as_slice())
}

/// A card that answers the UID query with its UID and a success status is read as the
/// hexadecimal digits of that UID, whatever its length.
pub proof fn law_uid_roundtrip(uid: Seq<u8>)
    ensures
        uid_of(Ok(uid + seq![0x90, 0x00])) == Ok::<Seq<char>, Seq<char>>(text::hex(uid)),
{
    let reply = uid + seq![0x90u8, 0x00u8];
    assert(reply.take(reply.len() - 2) =~= uid);
}

/// A response is its data followed by the two bytes of the status word.
pub proof fn law_response_parts(data: Seq<u8>, sw1: u8, sw2: u8)
    ensures
        response(Ok(data + seq![sw1, sw2])) == Ok::<_, Seq<char>>(ResponseView { data, sw1, sw2 }),
{
    let reply = data + seq![sw1, sw2];
    assert(reply.take(reply.len() - 2) =~= data);
}

/// Without a status word there is no response: a transmission that failed is reported with its
/// text, and fewer than two bytes are too short. Every longer reply is a response.
pub proof fn law_failed_replies(text: Seq<char>, bytes: Seq<u8>)
    ensures
        response(Err(text)) == Err::<ResponseView, _>("transmit failed: "@ + text),
        bytes.len() < 2 ==> response(Ok(bytes)) == Err::<ResponseView, _>("response too short"@),
        response(Ok(bytes)) is Ok <==> bytes.len() >= 2,
        uid_of(Err(text)) == Err::<Seq<char>, _>("transmit failed: "@ + text),
        bytes.len() < 2 ==> uid_of(Ok(bytes)) == Err::<Seq<char>, _>("response too short"@),
{
}

/// A UID is read exactly if the status word is 90 00; every other status word is reported by
/// its digits, and the data then does not matter.
pub proof fn law_uid_needs_success(data: Seq<u8>, sw1: u8, sw2: u8)
    ensures
        uid_of(Ok(data + seq![sw1, sw2])) is Ok <==> sw1 == 0x90 && sw2 == 0x00,
        uid_of(Ok(data + seq![sw1, sw2])) is Ok ==> uid_of(Ok(data + seq![sw1, sw2]))->Ok_0
            == text::hex(data),
        uid_of(Ok(data + seq![sw1, sw2])) is Err ==> uid_of(Ok(data + seq![sw1, sw2]))->Err_0
            == "APDU error: SW="@ + text::hex(seq![sw1, sw2]),
{
    law_response_parts(data, sw1, sw2);
}

/// A reply stands for its bytes, or for the text of the failure.
pub proof fn law_reply_view(reply: CardReply)
    ensures
        reply matches Ok(bytes) ==> reply_view(reply) == Ok::<_, Seq<char>>(bytes@),
        reply matches Err(e) ==> reply_view(reply) == Err::<Seq<u8>, _>(e.text@),
{
}

/// What is reported is the response itself, or a failed read with the text that describes it.
pub proof fn law_reports_response(
    result: Result<Response, BridgeError>,
    expected: Result<ResponseView, Seq<char>>,
)
    requires
        reports_response(result, expected),
    ensures
        expected is Ok ==> {
            &&& result is Ok
            &&& result->Ok_0.data@ == expected->Ok_0.data
            &&& result->Ok_0.sw1 == expected->Ok_0.sw1
            &&& result->Ok_0.sw2 == expected->Ok_0.sw2
        },
        expected is Err ==> {
            &&& result is Err
            &&& result->Err_0 is CardReadFailed
            &&& result->Err_0->CardReadFailed_0@ == expected->Err_0
        },
{
}

} // verus!
