//! Errors of the bridge and the text they are reported with.
use vstd::prelude::*;
use vstd::string::*;

verus! {

/// A failed PC/SC operation: whether it merely ran out of time, and how the smart card
/// service describes it.
#[derive(Debug)]
pub struct PcscError {
    pub timeout: bool,
    pub text: String,
}

/// What a [`PcscError`] stands for.
pub struct PcscErrorView {
    pub timeout: bool,
    pub text: Seq<char>,
}

impl View for PcscError {
    type V = PcscErrorView;

    open spec fn view(&self) -> PcscErrorView {
        PcscErrorView { timeout: self.timeout, text: self.text@ }
    }
}

impl Clone for PcscError {
    fn clone(&self) -> (copy: PcscError)
        ensures
            copy@ == self@,
    {
        PcscError { timeout: self.timeout, text: self.text.clone() }
    }
}

/// An error of the bridge. Errors of the smart card service, of the WebSocket layer and of
/// the operating system are carried with the text that describes them.
#[derive(Debug)]
pub enum BridgeError {
    Pcsc(PcscError),
    WebSocket(String),
    Io(String),
    NoReaders,
    CardReadFailed(String),
}

/// What a [`BridgeError`] stands for.
pub enum BridgeErrorView {
    Pcsc(PcscErrorView),
    WebSocket(Seq<char>),
    Io(Seq<char>),
    NoReaders,
    CardReadFailed(Seq<char>),
}

impl View for BridgeError {
    type V = BridgeErrorView;

    open spec fn view(&self) -> BridgeErrorView {
        match self {
            BridgeError::Pcsc(e) => BridgeErrorView::Pcsc(e@),
            BridgeError::WebSocket(text) => BridgeErrorView::WebSocket(text@),
            BridgeError::Io(text) => BridgeErrorView::Io(text@),
            BridgeError::NoReaders => BridgeErrorView::NoReaders,
            BridgeError::CardReadFailed(text) => BridgeErrorView::CardReadFailed(text@),
        }
    }
}

/// The text an error is reported with.
pub open spec fn error_message(e: BridgeErrorView) -> Seq<char> {
    match e {
        BridgeErrorView::Pcsc(e) => "PC/SC error: "@ + e.text,
        BridgeErrorView::WebSocket(text) => "WebSocket error: "@ + text,
        BridgeErrorView::Io(text) => "IO error: "@ + text,
        BridgeErrorView::NoReaders => "No NFC readers found"@,
        BridgeErrorView::CardReadFailed(text) => "Card read failed: "@ + text,
    }
}

impl BridgeError {
    /// The text this error is reported with.
    pub fn message(&self) -> (text: String)
        ensures
            text@ == error_message(self@),
    {
        match self {
            BridgeError::Pcsc(e) => "PC/SC error: ".to_string().concat(e.text.as_str()),
            BridgeError::WebSocket(text) => "WebSocket error: ".to_string().concat(text.as_str()),
            BridgeError::Io(text) => "IO error: ".to_string().concat(text.as_str()),
            BridgeError::NoReaders => "No NFC readers found".to_string(),
            BridgeError::CardReadFailed(text) => "Card read failed: ".to_string().concat(
                text.as_str(),
            ),
        }
    }
}

impl From<PcscError> for BridgeError {
    fn from(e: PcscError) -> (r: BridgeError) {
        BridgeError::Pcsc(e)
    }
}

impl vstd::std_specs::convert::FromSpecImpl<PcscError> for BridgeError {
    open spec fn obeys_from_spec() -> bool {
        true
    }

    open spec fn from_spec(e: PcscError) -> BridgeError {
        BridgeError::Pcsc(e)
    }
}

/// Every message is a heading that tells where the error comes from, followed by the whole text
/// that describes it; only the lack of readers needs no text.
pub proof fn law_message_is_heading_and_text(e: BridgeError)
    ensures
        e matches BridgeError::Pcsc(pcsc) ==> error_message(e@) == "PC/SC error: "@ + pcsc.text@,
        e matches BridgeError::WebSocket(text) ==> error_message(e@) == "WebSocket error: "@ + text@,
        e matches BridgeError::Io(text) ==> error_message(e@) == "IO error: "@ + text@,
        e matches BridgeError::NoReaders ==> error_message(e@) == "No NFC readers found"@,
        e matches BridgeError::CardReadFailed(text) ==> error_message(e@) == "Card read failed: "@
            + text@,
{
}

/// An error is told apart by its kind and its text, and nothing of it is lost in what it stands
/// for.
pub proof fn law_error_view(a: BridgeError, b: BridgeError)
    requires
        a@ == b@,
    ensures
        a is NoReaders <==> b is NoReaders,
        a is Pcsc ==> b is Pcsc && a->Pcsc_0.timeout == b->Pcsc_0.timeout && a->Pcsc_0.text@
            == b->Pcsc_0.text@,
        a is WebSocket ==> b is WebSocket && a->WebSocket_0@ == b->WebSocket_0@,
        a is Io ==> b is Io && a->Io_0@ == b->Io_0@,
        a is CardReadFailed ==> b is CardReadFailed && a->CardReadFailed_0@
            == b->CardReadFailed_0@,
{
}

} // verus!
