//! Polling the first NFC reader for cards.
//!
//! One poll is a sequence of smart card operations. The caller performs, one after the
//! other, the operations that [`poll_once`] asks for and records what came of them;
//! [`poll_once`] says what comes next until the poll is over. What is sent to browser
//! clients about the polls is decided by [`PollingLoop`].
use vstd::prelude::*;
use vstd::string::*;
use vstd::utf8::*;

use crate::clock;
use crate::config::Config;
use crate::error;
use crate::error::{BridgeError, PcscError};
use crate::events;
use crate::events::NfcEvent;
use crate::nfc::apdu;
use crate::nfc::apdu::{CardReply, Command};
use crate::nfc::debounce;
use crate::nfc::debounce::CardDebouncer;

verus! {

/// The error of `std::str::from_utf8`, carried through unopened.
#[verifier::external_type_specification]
#[verifier::external_body]
pub struct ExUtf8Error(std::str::Utf8Error);

/// `std::str::from_utf8` takes bytes for text: it succeeds exactly on valid UTF-8, and the
/// text is then made of these bytes.
pub assume_specification[ std::str::from_utf8 ](v: &[u8]) -> (r: Result<
    &str,
    std::str::Utf8Error,
>)
    ensures
        r is Ok <==> valid_utf8(v@),
        r is Ok ==> r->Ok_0.spec_bytes() == v@,
;

/// The name that a reader is listed under.
pub open spec fn reader_name(raw: Seq<u8>) -> Seq<char> {
    if valid_utf8(raw) {
        decode_utf8(raw)
    } else {
        "unknown"@
    }
}

/// Raw reader names by their bytes.
pub open spec fn raw_names(raw: Seq<Vec<u8>>) -> Seq<Seq<u8>> {
    raw.map_values(|name: Vec<u8>| name@)
}

/// The names of the available NFC readers, from the raw names that were listed.
pub fn list_readers_sync(listed: Result<Vec<Vec<u8>>, PcscError>) -> (readers: Result<
    Vec<String>,
    BridgeError,
>)
    ensures
        match (listed, readers) {
            (Ok(raw), Ok(names)) => names@.map_values(|name: String| name@) == raw_names(
                raw@,
            ).map_values(|raw: Seq<u8>| reader_name(raw)),
            (Err(e), Err(error)) => error@ == error::BridgeErrorView::Pcsc(e@),
            _ => false,
        },
{
    let raw = match listed {
        Ok(raw) => raw,
        Err(e) => {
            return Err(BridgeError::from(e));
        },
    };
    let mut names: Vec<String> = Vec::new();
    let mut i: usize = 0;
    while i < raw.len()
        invariant
            i <= raw@.len(),
            names@.len() == i,
            forall|j: int| 0 <= j < i ==> (#[trigger] names@[j])@ == reader_name(raw@[j]@),
        decreases raw@.len() - i,
    {
        let name = match std::str::from_utf8(raw[i].as_slice()) {
            Ok(name) => {
                proof {
                    encode_utf8_decode_utf8(name@);
                }
                name.to_string()
            },
            Err(_) => "unknown".to_string(),
        };
        names.push(name);
        i = i + 1;
    }
    assert(names@.map_values(|name: String| name@) =~= raw_names(raw@).map_values(
        |raw: Seq<u8>| reader_name(raw),
    ));
    Ok(names)
}

/// How long one poll waits for a card event, in milliseconds.
pub const CARD_WAIT_MS: u64 = 200;

/// What came of the operations of one poll so far.
#[derive(Debug)]
pub struct PollTrace {
    /// Establishing a context with the smart card service.
    pub context: Option<Result<(), PcscError>>,
    /// Listing the readers by their raw names.
    pub readers: Option<Result<Vec<Vec<u8>>, PcscError>>,
    /// Waiting for a card event: whether a card is present.
    pub card_present: Option<Result<bool, PcscError>>,
    /// Connecting to the card.
    pub connected: Option<Result<(), PcscError>>,
    /// Transmitting the UID query.
    pub uid_reply: Option<CardReply>,
}

/// What a [`PollTrace`] stands for.
pub struct PollTraceView {
    pub context: Option<Result<(), error::PcscErrorView>>,
    pub readers: Option<Result<Seq<Seq<u8>>, error::PcscErrorView>>,
    pub card_present: Option<Result<bool, error::PcscErrorView>>,
    pub connected: Option<Result<(), error::PcscErrorView>>,
    pub uid_reply: Option<apdu::ReplyView>,
}

impl View for PollTrace {
    type V = PollTraceView;

    open spec fn view(&self) -> PollTraceView {
        PollTraceView {
            context: match self.context {
                None => None,
                Some(Ok(())) => Some(Ok(())),
                Some(Err(e)) => Some(Err(e@)),
            },
            readers: match self.readers {
                None => None,
                Some(Ok(raw)) => Some(Ok(raw_names(raw@))),
                Some(Err(e)) => Some(Err(e@)),
            },
            card_present: match self.card_present {
                None => None,
                Some(Ok(present)) => Some(Ok(present)),
                Some(Err(e)) => Some(Err(e@)),
            },
            connected: match self.connected {
                None => None,
                Some(Ok(())) => Some(Ok(())),
                Some(Err(e)) => Some(Err(e@)),
            },
            uid_reply: match self.uid_reply {
                None => None,
                Some(reply) => Some(apdu::reply_view(reply)),
            },
        }
    }
}

impl PollTrace {
    /// The trace of a poll that has not begun.
    pub fn new() -> (trace: PollTrace)
        ensures
            trace@ == (PollTraceView {
                context: None,
                readers: None,
                card_present: None,
                connected: None,
                uid_reply: None,
            }),
    {
        PollTrace {
            context: None,
            readers: None,
            card_present: None,
            connected: None,
            uid_reply: None,
        }
    }
}

/// The result of a poll: the UID of the card, or none if there is no card.
pub type PollResult = Result<Option<String>, BridgeError>;

/// What a [`PollResult`] stands for.
pub type PollResultView = Result<Option<Seq<char>>, error::BridgeErrorView>;

pub open spec fn poll_result_view(result: PollResult) -> PollResultView {
    match result {
        Ok(Some(uid)) => Ok(Some(uid@)),
        Ok(None) => Ok(None),
        Err(e) => Err(e@),
    }
}

/// What a poll comes to next: an operation to perform, or the result.
#[derive(Debug)]
pub enum PollAction {
    EstablishContext,
    ListReaders,
    AwaitCard { reader: Vec<u8>, timeout_ms: u64 },
    Connect { reader: Vec<u8> },
    Transmit(Command),
    Finished(PollResult),
}

/// What a [`PollAction`] stands for.
pub enum PollActionView {
    EstablishContext,
    ListReaders,
    AwaitCard { reader: Seq<u8>, timeout_ms: u64 },
    Connect { reader: Seq<u8> },
    Transmit(Command),
    Finished(PollResultView),
}

impl View for PollAction {
    type V = PollActionView;

    open spec fn view(&self) -> PollActionView {
        match self {
            PollAction::EstablishContext => PollActionView::EstablishContext,
            PollAction::ListReaders => PollActionView::ListReaders,
            PollAction::AwaitCard { reader, timeout_ms } => PollActionView::AwaitCard {
                reader: reader@,
                timeout_ms: *timeout_ms,
            },
            PollAction::Connect { reader } => PollActionView::Connect { reader: reader@ },
            PollAction::Transmit(command) => PollActionView::Transmit(*command),
            PollAction::Finished(result) => PollActionView::Finished(poll_result_view(*result)),
        }
    }
}

pub open spec fn pcsc_failure(e: error::PcscErrorView) -> PollActionView {
    PollActionView::Finished(Err(error::BridgeErrorView::Pcsc(e)))
}

/// What a poll comes to, given what came of its operations so far. Only the first reader is
/// polled. Without a reader the poll fails; if no card shows up in time, or none is present,
/// there is nothing to report.
pub open spec fn poll_action(trace: PollTraceView) -> PollActionView {
    match trace.context {
        None => PollActionView::EstablishContext,
        Some(Err(e)) => pcsc_failure(e),
        Some(Ok(())) => match trace.readers {
            None => PollActionView::ListReaders,
            Some(Err(e)) => pcsc_failure(e),
            Some(Ok(readers)) => if readers.len() == 0 {
                PollActionView::Finished(Err(error::BridgeErrorView::NoReaders))
            } else {
                poll_first_reader(readers[0], trace)
            },
        },
    }
}

/// What polling the given reader comes to.
pub open spec fn poll_first_reader(reader: Seq<u8>, trace: PollTraceView) -> PollActionView {
    match trace.card_present {
        None => PollActionView::AwaitCard { reader, timeout_ms: CARD_WAIT_MS },
        Some(Err(e)) => if e.timeout {
            PollActionView::Finished(Ok(None))
        } else {
            pcsc_failure(e)
        },
        Some(Ok(false)) => PollActionView::Finished(Ok(None)),
        Some(Ok(true)) => match trace.connected {
            None => PollActionView::Connect { reader },
            Some(Err(e)) => pcsc_failure(e),
            Some(Ok(())) => match trace.uid_reply {
                None => PollActionView::Transmit(Command::GetFelicaIdm),
                Some(reply) => match apdu::uid_of(reply) {
                    Ok(uid) => PollActionView::Finished(Ok(Some(uid))),
                    Err(text) => PollActionView::Finished(
                        Err(error::BridgeErrorView::CardReadFailed(text)),
                    ),
                },
            },
        },
    }
}

/// Poll for a card on the first available reader and read its UID: the next operation to
/// perform, or the result of the poll.
pub fn poll_once(trace: &PollTrace) -> (action: PollAction)
    ensures
        action@ == poll_action(trace@),
{
    match &trace.context {
        None => {
            return PollAction::EstablishContext;
        },
        Some(Err(e)) => {
            return fail_poll(e);
        },
        Some(Ok(())) => {},
    }
    let readers = match &trace.readers {
        None => {
            return PollAction::ListReaders;
        },
        Some(Err(e)) => {
            return fail_poll(e);
        },
        Some(Ok(readers)) => readers,
    };
    if readers.len() == 0 {
        return PollAction::Finished(Err(BridgeError::NoReaders));
    }
    assert(raw_names(readers@)[0] == readers@[0]@);
    let reader = apdu::take_bytes(readers[0].as_slice(), readers[0].len());
    assert(reader@ =~= readers@[0]@);
    // Wait for a card event
    match &trace.card_present {
        None => {
            return PollAction::AwaitCard { reader, timeout_ms: CARD_WAIT_MS };
        },
        Some(Err(e)) => {
            if e.timeout {
                return PollAction::Finished(Ok(None));
            }
            return fail_poll(e);
        },
        Some(Ok(present)) => {
            if !*present {
                return PollAction::Finished(Ok(None));
            }
        },
    }
    // Card is present: connect and read UID
    match &trace.connected {
        None => {
            return PollAction::Connect { reader };
        },
        Some(Err(e)) => {
            return fail_poll(e);
        },
        Some(Ok(())) => {},
    }
    match &trace.uid_reply {
        None => PollAction::Transmit(Command::GetFelicaIdm),
        Some(reply) => match apdu::read_uid(reply) {
            Ok(uid) => PollAction::Finished(Ok(Some(uid))),
            Err(e) => PollAction::Finished(Err(e)),
        },
    }
}

fn fail_poll(e: &PcscError) -> (action: PollAction)
    ensures
        action@ == pcsc_failure(e@),
{
    PollAction::Finished(Err(BridgeError::from(e.clone())))
}

/// A poll is over once everything it can ask for is known.
pub proof fn law_poll_terminates(trace: PollTraceView)
    requires
        trace.context is Some,
        trace.readers is Some,
        trace.card_present is Some,
        trace.connected is Some,
        trace.uid_reply is Some,
    ensures
        poll_action(trace) is Finished,
{
}

/// A poll never asks twice for the same operation, so it takes at most five of them.
pub proof fn law_poll_asks_once(trace: PollTraceView)
    ensures
        match poll_action(trace) {
            PollActionView::EstablishContext => trace.context is None,
            PollActionView::ListReaders => trace.readers is None,
            PollActionView::AwaitCard { .. } => trace.card_present is None,
            PollActionView::Connect { .. } => trace.connected is None,
            PollActionView::Transmit(_) => trace.uid_reply is None,
            PollActionView::Finished(_) => true,
        },
{
}

/// Nothing is asked for without a context, and of several readers only the first is used.
pub proof fn law_only_first_reader_is_polled(trace: PollTraceView)
    requires
        poll_action(trace) !is EstablishContext,
        poll_action(trace) !is Finished,
    ensures
        trace.context is Some && trace.context->0 is Ok,
        poll_action(trace) !is ListReaders ==> {
            &&& trace.readers is Some && trace.readers->0 is Ok
            &&& (trace.readers->0->Ok_0).len() > 0
        },
        match poll_action(trace) {
            PollActionView::AwaitCard { reader, .. } => reader == (trace.readers->0->Ok_0)[0],
            PollActionView::Connect { reader } => reader == (trace.readers->0->Ok_0)[0],
            _ => true,
        },
{
}

/// A poll reports that there are no readers exactly if the smart card service listed none.
pub proof fn law_no_readers(trace: PollTraceView)
    ensures
        poll_action(trace) == PollActionView::Finished(Err(error::BridgeErrorView::NoReaders))
            <==> {
            &&& trace.context is Some && trace.context->0 is Ok
            &&& trace.readers is Some && trace.readers->0 is Ok
            &&& (trace.readers->0->Ok_0).len() == 0
        },
{
}

/// The UID of a card that is present on the first reader and answers the UID query is
/// reported in hexadecimal digits, whatever its length.
pub proof fn law_present_card_is_reported(reader: Seq<u8>, others: Seq<Seq<u8>>, uid: Seq<u8>)
    ensures
        poll_action(
            PollTraceView {
                context: Some(Ok(())),
                readers: Some(Ok(seq![reader] + others)),
                card_present: Some(Ok(true)),
                connected: Some(Ok(())),
                uid_reply: Some(Ok(uid + seq![0x90, 0x00])),
            },
        ) == PollActionView::Finished(Ok(Some(crate::text::hex(uid)))),
{
    apdu::law_uid_roundtrip(uid);
}

/// The UID query is only sent to a card that is present and connected to.
pub proof fn law_query_needs_card(trace: PollTraceView)
    requires
        poll_action(trace) is Transmit,
    ensures
        poll_action(trace)->Transmit_0 == Command::GetFelicaIdm,
        trace.card_present == Some(Ok::<bool, error::PcscErrorView>(true)),
        trace.connected is Some && trace.connected->0 is Ok,
{
}

/// Time after which the absence of readers is reported again, in nanoseconds.
pub const NO_READERS_INTERVAL: u128 = 5_000_000_000;

/// Decides what is sent to browser clients about the polls.
#[derive(Debug)]
pub struct PollingLoop {
    debouncer: CardDebouncer,
    last_no_readers_log: Option<u128>,
    poll_interval_ms: u64,
}

/// What a [`PollingLoop`] stands for.
pub struct PollingView {
    pub debouncer: debounce::CardDebouncerView,
    pub last_no_readers_log: Option<u128>,
    pub poll_interval_ms: u64,
}

impl View for PollingLoop {
    type V = PollingView;

    closed spec fn view(&self) -> PollingView {
        PollingView {
            debouncer: self.debouncer@,
            last_no_readers_log: self.last_no_readers_log,
            poll_interval_ms: self.poll_interval_ms,
        }
    }
}

/// The outcome of a poll by what it stands for; none if the poll was cut short.
pub open spec fn outcome_view(outcome: Option<PollResult>) -> Option<PollResultView> {
    match outcome {
        Some(result) => Some(poll_result_view(result)),
        None => None,
    }
}

impl PollingView {
    /// Whether the absence of readers is due to be reported.
    pub open spec fn no_readers_due(self, now: u128) -> bool {
        match self.last_no_readers_log {
            Some(last) => clock::time_between(last, now) > NO_READERS_INTERVAL,
            None => true,
        }
    }

    /// The event that the outcome of a poll gives rise to, if any. A card is reported unless
    /// it is a duplicate, the absence of readers from time to time, every other error always.
    pub open spec fn event(self, outcome: Option<PollResultView>, now: u128) -> Option<
        events::NfcEventView,
    > {
        match outcome {
            Some(Ok(Some(uid))) => if self.debouncer.is_duplicate(uid, now) {
                None
            } else {
                Some(events::NfcEventView::NfcRead { employee_id: uid })
            },
            Some(Ok(None)) => None,
            Some(Err(error::BridgeErrorView::NoReaders)) => if self.no_readers_due(now) {
                Some(events::NfcEventView::NfcError { error: "no_readers"@ })
            } else {
                None
            },
            Some(Err(e)) => Some(events::NfcEventView::NfcError { error: error::error_message(e) }),
            None => None,
        }
    }

    /// The loop after a poll.
    pub open spec fn after(self, outcome: Option<PollResultView>, now: u128) -> PollingView {
        match outcome {
            Some(Ok(Some(uid))) => PollingView {
                debouncer: self.debouncer.after(uid, now),
                ..self
            },
            Some(Err(error::BridgeErrorView::NoReaders)) => if self.no_readers_due(now) {
                PollingView { last_no_readers_log: Some(now), ..self }
            } else {
                self
            },
            _ => self,
        }
    }
}

impl PollingLoop {
    /// Whether the loop's clock was started at a reading of the monotonic clock.
    pub closed spec fn clock_started(&self) -> bool {
        self.debouncer.clock_started()
    }

    /// Whether `now` is a reading of the loop's clock.
    pub closed spec fn clock_shows(&self, now: u128) -> bool {
        self.debouncer.clock_shows(now)
    }

    /// Whether two loops have the same clock, as far as can be told from its readings.
    pub open spec fn same_clock(&self, other: &PollingLoop) -> bool {
        &&& self.clock_started() == other.clock_started()
        &&& forall|now: u128| self.clock_shows(now) == other.clock_shows(now)
    }

    /// The loop before the first poll.
    pub fn new(config: &Config) -> (polling: PollingLoop)
        ensures
            polling@ == (PollingView {
                debouncer: debounce::CardDebouncerView {
                    last: None,
                    cooldown: (config.cooldown_ms * clock::NANOS_PER_MILLI) as u128,
                },
                last_no_readers_log: None,
                poll_interval_ms: config.poll_interval_ms,
            }),
            polling.clock_started(),
    {
        PollingLoop {
            debouncer: CardDebouncer::new(config.cooldown_ms as u128 * clock::NANOS_PER_MILLI),
            last_no_readers_log: None,
            poll_interval_ms: config.poll_interval_ms,
        }
    }

    /// How long to sleep after every poll, whatever came of it, in milliseconds.
    pub fn pause_ms(&self) -> (ms: u64)
        ensures
            ms == self@.poll_interval_ms,
    {
        self.poll_interval_ms
    }

    /// The event to send about a poll that has just ended, if any. The outcome is none if the
    /// poll was cut short.
    ///
    /// What holds is stated for the moment of the call, which is some reading `now` of the
    /// loop's clock.
    pub fn step(&mut self, outcome: Option<PollResult>) -> (event: Option<NfcEvent>)
        ensures
            exists|now: u128|
                old(self).clock_shows(now) && events::option_view(event) == old(self)@.event(
                    outcome_view(outcome),
                    now,
                ) && final(self)@ == #[trigger] old(self)@.after(outcome_view(outcome), now),
            final(self).same_clock(old(self)),
    {
        let now = self.debouncer.now();
        self.step_at(outcome, now)
    }

    /// The event to send about a poll that ended at clock reading `now`, if any.
    pub fn step_at(&mut self, outcome: Option<PollResult>, now: u128) -> (event: Option<NfcEvent>)
        ensures
            events::option_view(event) == old(self)@.event(outcome_view(outcome), now),
            final(self)@ == old(self)@.after(outcome_view(outcome), now),
            final(self).same_clock(old(self)),
    {
        let result = match outcome {
            Some(result) => result,
            None => {
                return None;
            },
        };
        match result {
            Ok(Some(uid)) => {
                if self.debouncer.should_emit_at(uid.as_str(), now) {
                    Some(NfcEvent::NfcRead { employee_id: uid })
                } else {
                    None
                }
            },
            // No card present, continue polling
            Ok(None) => None,
            Err(BridgeError::NoReaders) => {
                // Only report periodically to avoid spam
                let due = match self.last_no_readers_log {
                    Some(last) => clock::duration_since(last, now) > NO_READERS_INTERVAL,
                    None => true,
                };
                if due {
                    self.last_no_readers_log = Some(now);
                    Some(NfcEvent::NfcError { error: "no_readers".to_string() })
                } else {
                    None
                }
            },
            Err(e) => Some(NfcEvent::NfcError { error: e.message() }),
        }
    }
}

/// A run of the polling loop: the outcomes of successive polls with the clock readings at
/// which they came in.
pub type Polls = Seq<(Option<PollResultView>, u128)>;

/// The loop after the given polls.
pub open spec fn polling_after(start: PollingView, polls: Polls) -> PollingView
    decreases polls.len(),
{
    if polls.len() == 0 {
        start
    } else {
        polling_after(start, polls.drop_last()).after(polls.last().0, polls.last().1)
    }
}

/// The event that the poll at position `i` gives rise to.
pub open spec fn event_at(start: PollingView, polls: Polls, i: int) -> Option<
    events::NfcEventView,
> {
    polling_after(start, polls.take(i)).event(polls[i].0, polls[i].1)
}

/// Whether the clock never went back during a run.
pub open spec fn in_order(polls: Polls) -> bool {
    forall|i: int, j: int| 0 <= i <= j < polls.len() ==> polls[i].1 <= polls[j].1
}

proof fn lemma_polling_step(start: PollingView, polls: Polls, i: int)
    requires
        0 <= i < polls.len(),
    ensures
        polling_after(start, polls.take(i + 1)) == polling_after(start, polls.take(i)).after(
            polls[i].0,
            polls[i].1,
        ),
{
    assert(polls.take(i + 1).drop_last() =~= polls.take(i));
}

proof fn lemma_report_is_remembered(start: PollingView, polls: Polls, i: int, k: int)
    requires
        0 <= i < k <= polls.len(),
        in_order(polls),
        polls[i].0 == Some(Err::<Option<Seq<char>>, _>(error::BridgeErrorView::NoReaders)),
        event_at(start, polls, i) is Some,
    ensures
        polling_after(start, polls.take(k)).last_no_readers_log is Some,
        polling_after(start, polls.take(k)).last_no_readers_log->0 >= polls[i].1,
    decreases k,
{
    lemma_polling_step(start, polls, k - 1);
    if k > i + 1 {
        lemma_report_is_remembered(start, polls, i, k - 1);
    }
}

/// The cards that were read in a run, in order, each with the clock reading at that moment.
pub open spec fn reads_of(polls: Polls) -> Seq<(Seq<char>, u128)>
    decreases polls.len(),
{
    if polls.len() == 0 {
        seq![]
    } else {
        match polls.last().0 {
            Some(Ok(Some(uid))) => reads_of(polls.drop_last()).push((uid, polls.last().1)),
            _ => reads_of(polls.drop_last()),
        }
    }
}

proof fn lemma_debouncer_sees_reads(start: PollingView, polls: Polls)
    ensures
        polling_after(start, polls).debouncer == debounce::after_reads(
            start.debouncer,
            reads_of(polls),
        ),
        polling_after(start, polls).poll_interval_ms == start.poll_interval_ms,
    decreases polls.len(),
{
    if polls.len() > 0 {
        lemma_debouncer_sees_reads(start, polls.drop_last());
        if let Some(Ok(Some(uid))) = polls.last().0 {
            let before = reads_of(polls.drop_last());
            assert(before.push((uid, polls.last().1)).drop_last() =~= before);
        }
    }
}

/// Whether a poll found no readers.
pub open spec fn found_no_readers(outcome: Option<PollResultView>) -> bool {
    outcome == Some(Err::<Option<Seq<char>>, _>(error::BridgeErrorView::NoReaders))
}

/// Whether the poll at position `j` found no readers and that was reported.
pub open spec fn reported_missing(start: PollingView, polls: Polls, j: int) -> bool {
    found_no_readers(polls[j].0) && event_at(start, polls, j) is Some
}

/// Whether the poll at position `j` is the latest one before position `i` that found no readers
/// and was reported.
pub open spec fn is_latest_report(start: PollingView, polls: Polls, j: int, i: int) -> bool {
    &&& 0 <= j < i
    &&& reported_missing(start, polls, j)
    &&& forall|m: int| j < m < i ==> !#[trigger] reported_missing(start, polls, m)
}

/// Whether the lack of readers is to be reported at position `i` of a run of a new loop: no
/// earlier poll found readers missing, or the latest report of it is more than five seconds
/// ago.
pub open spec fn report_is_owed(start: PollingView, polls: Polls, i: int) -> bool {
    ||| forall|j: int| 0 <= j < i ==> !found_no_readers((#[trigger] polls[j]).0)
    ||| exists|j: int| #[trigger]
        is_latest_report(start, polls, j, i) && clock::time_between(polls[j].1, polls[i].1)
            > NO_READERS_INTERVAL
}

proof fn lemma_latest_report(start: PollingView, polls: Polls, k: int)
    requires
        0 <= k <= polls.len(),
        start.last_no_readers_log is None,
    ensures
        polling_after(start, polls.take(k)).last_no_readers_log is None ==> forall|j: int|
            0 <= j < k ==> !found_no_readers((#[trigger] polls[j]).0),
        polling_after(start, polls.take(k)).last_no_readers_log is Some ==> exists|j: int|
            #[trigger] is_latest_report(start, polls, j, k) && polls[j].1 == polling_after(
                start,
                polls.take(k),
            ).last_no_readers_log->0,
    decreases k,
{
    if k > 0 {
        lemma_latest_report(start, polls, k - 1);
        lemma_polling_step(start, polls, k - 1);
        if reported_missing(start, polls, k - 1) {
            assert(is_latest_report(start, polls, k - 1, k));
        } else if polling_after(start, polls.take(k - 1)).last_no_readers_log is Some {
            let j = choose|j: int| #[trigger]
                is_latest_report(start, polls, j, k - 1) && polls[j].1 == polling_after(
                    start,
                    polls.take(k - 1),
                ).last_no_readers_log->0;
            assert(is_latest_report(start, polls, j, k));
        }
    }
}

/// A poll that finds no readers is reported exactly if that is owed.
proof fn lemma_report_is_owed(start: PollingView, polls: Polls, i: int)
    requires
        0 <= i < polls.len(),
        start.last_no_readers_log is None,
        found_no_readers(polls[i].0),
    ensures
        event_at(start, polls, i) is Some <==> report_is_owed(start, polls, i),
{
    lemma_latest_report(start, polls, i);
    assert forall|j: int, k: int|
        is_latest_report(start, polls, j, i) && is_latest_report(start, polls, k, i) implies j
        == k by {
        assert(reported_missing(start, polls, j) && reported_missing(start, polls, k));
    }
    assert forall|j: int| is_latest_report(start, polls, j, i) implies found_no_readers(
        (#[trigger] polls[j]).0,
    ) by {
        assert(reported_missing(start, polls, j));
    }
}

/// What every poll of a run gives rise to, whatever the polls before it gave: a card is
/// announced once unless a debouncer that was given exactly the cards read before it, in order,
/// holds it back; without a card and after a poll that was cut short nothing is sent; the lack
/// of readers is reported if none was found before or the latest report is more than five
/// seconds ago; every other error is sent with its text. The loop always goes on, after the
/// same pause.
pub proof fn law_event_of_every_poll(start: PollingView, polls: Polls, i: int)
    requires
        0 <= i < polls.len(),
        start.last_no_readers_log is None,
    ensures
        ({
            let now = polls[i].1;
            let seen = debounce::after_reads(start.debouncer, reads_of(polls.take(i)));
            match polls[i].0 {
                Some(Ok(Some(uid))) => event_at(start, polls, i) == if seen.is_duplicate(uid, now) {
                    None
                } else {
                    Some(events::NfcEventView::NfcRead { employee_id: uid })
                },
                Some(Ok(None)) => event_at(start, polls, i) is None,
                None => event_at(start, polls, i) is None,
                Some(Err(error::BridgeErrorView::NoReaders)) => event_at(start, polls, i)
                    == if report_is_owed(start, polls, i) {
                    Some(events::NfcEventView::NfcError { error: "no_readers"@ })
                } else {
                    None
                },
                Some(Err(e)) => event_at(start, polls, i) == Some(
                    events::NfcEventView::NfcError { error: error::error_message(e) },
                ),
            }
        }),
        polling_after(start, polls.take(i + 1)).poll_interval_ms == start.poll_interval_ms,
{
    lemma_debouncer_sees_reads(start, polls.take(i));
    lemma_debouncer_sees_reads(start, polls.take(i + 1));
    if found_no_readers(polls[i].0) {
        lemma_report_is_owed(start, polls, i);
    }
}

/// Two reports that there are no readers are always more than five seconds apart.
pub proof fn law_no_readers_reports_are_spaced(start: PollingView, polls: Polls, i: int, j: int)
    requires
        0 <= i < j < polls.len(),
        in_order(polls),
        polls[i].0 == Some(Err::<Option<Seq<char>>, _>(error::BridgeErrorView::NoReaders)),
        polls[j].0 == Some(Err::<Option<Seq<char>>, _>(error::BridgeErrorView::NoReaders)),
        event_at(start, polls, i) is Some,
        event_at(start, polls, j) is Some,
    ensures
        polls[j].1 - polls[i].1 > NO_READERS_INTERVAL,
{
    lemma_report_is_remembered(start, polls, i, j);
}

proof fn lemma_card_is_remembered(
    start: PollingView,
    polls: Polls,
    uid: Seq<char>,
    i: int,
    k: int,
)
    requires
        0 <= i < k <= polls.len(),
        in_order(polls),
        polls[i].0 == Some(Ok::<_, error::BridgeErrorView>(Some(uid))),
        event_at(start, polls, i) is Some,
        forall|m: int|
            i < m < k && (#[trigger] polls[m]).0 is Some && polls[m].0->0 is Ok
                && polls[m].0->0->Ok_0 is Some ==> polls[m].0->0->Ok_0->0 == uid,
    ensures
        polling_after(start, polls.take(k)).debouncer.cooldown == start.debouncer.cooldown,
        polling_after(start, polls.take(k)).debouncer.last is Some,
        (polling_after(start, polls.take(k)).debouncer.last->0).0 == uid,
        (polling_after(start, polls.take(k)).debouncer.last->0).1 >= polls[i].1,
    decreases k,
{
    lemma_cooldown_is_kept(start, polls.take(k));
    lemma_polling_step(start, polls, k - 1);
    if k > i + 1 {
        lemma_card_is_remembered(start, polls, uid, i, k - 1);
        assert(polls[k - 1].1 >= polls[i].1);
    }
}

proof fn lemma_cooldown_is_kept(start: PollingView, polls: Polls)
    ensures
        polling_after(start, polls).debouncer.cooldown == start.debouncer.cooldown,
    decreases polls.len(),
{
    if polls.len() > 0 {
        lemma_cooldown_is_kept(start, polls.drop_last());
    }
}

/// A card that stays on the reader, with no other card read in between, is reported at most
/// once per cooldown period.
pub proof fn law_card_reports_are_spaced(
    start: PollingView,
    polls: Polls,
    uid: Seq<char>,
    i: int,
    j: int,
)
    requires
        0 <= i < j < polls.len(),
        in_order(polls),
        polls[i].0 == Some(Ok::<_, error::BridgeErrorView>(Some(uid))),
        polls[j].0 == Some(Ok::<_, error::BridgeErrorView>(Some(uid))),
        event_at(start, polls, i) is Some,
        event_at(start, polls, j) is Some,
        forall|m: int|
            i < m < j && (#[trigger] polls[m]).0 is Some && polls[m].0->0 is Ok
                && polls[m].0->0->Ok_0 is Some ==> polls[m].0->0->Ok_0->0 == uid,
    ensures
        polls[j].1 - polls[i].1 >= start.debouncer.cooldown,
{
    lemma_card_is_remembered(start, polls, uid, i, j);
}

/// From the card to the browser: a card that is present on the first reader and answers the
/// UID query is announced to browser clients with the hexadecimal digits of its UID, unless
/// it is a duplicate.
pub proof fn law_card_reaches_browser(
    polling: PollingView,
    reader: Seq<u8>,
    others: Seq<Seq<u8>>,
    uid: Seq<u8>,
    now: u128,
)
    requires
        !polling.debouncer.is_duplicate(crate::text::hex(uid), now),
    ensures
        ({
            let poll = poll_action(
                PollTraceView {
                    context: Some(Ok(())),
                    readers: Some(Ok(seq![reader] + others)),
                    card_present: Some(Ok(true)),
                    connected: Some(Ok(())),
                    uid_reply: Some(Ok(uid + seq![0x90, 0x00])),
                },
            );
            &&& poll is Finished
            &&& polling.event(Some(poll->Finished_0), now) is Some
            &&& events::event_json(polling.event(Some(poll->Finished_0), now)->0)
                == "{\"type\":\"nfc_read\",\"employee_id\":\""@ + crate::text::hex(uid) + "\"}"@
        }),
{
    law_present_card_is_reported(reader, others, uid);
    events::law_read_message(uid);
}

/// Browser clients are told that there are no readers: at the first poll that finds none, and
/// again whenever that is due.
pub proof fn law_missing_readers_reach_browser(
    polling: PollingView,
    trace: PollTraceView,
    now: u128,
)
    requires
        poll_action(trace) == PollActionView::Finished(Err(error::BridgeErrorView::NoReaders)),
    ensures
        polling.last_no_readers_log is None ==> polling.no_readers_due(now),
        polling.no_readers_due(now) ==> {
            let event = polling.event(Some(poll_action(trace)->Finished_0), now);
            &&& event is Some
            &&& events::event_json(event->0) == "{\"type\":\"nfc_error\",\"error\":\"no_readers\"}"@
        },
{
    events::law_no_readers_message();
}

/// A failed poll is always reported with the text of its error, unless there are merely no
/// readers, and a poll that finds no card is never reported.
pub proof fn law_failures_are_reported(
    polling: PollingView,
    failure: error::BridgeErrorView,
    now: u128,
)
    requires
        failure !is NoReaders,
    ensures
        polling.event(Some(Err(failure)), now) == Some(
            events::NfcEventView::NfcError { error: error::error_message(failure) },
        ),
        polling.after(Some(Err(failure)), now) == polling,
        polling.event(Some(Ok(None)), now) is None,
        polling.after(Some(Ok(None)), now) == polling,
{
}

/// A poll goes on until there is something to report: each operation is asked for as soon as
/// those before it have succeeded, on the first reader, and not before.
pub proof fn law_poll_progress(trace: PollTrace, action: PollAction)
    requires
        action@ == poll_action(trace@),
    ensures
        ({
            let established = trace.context is Some && trace.context->0 is Ok;
            let readers = trace.readers->0->Ok_0@;
            let listed = established && trace.readers is Some && trace.readers->0 is Ok
                && readers.len() > 0;
            let present = listed && trace.card_present is Some && trace.card_present->0 is Ok
                && trace.card_present->0->Ok_0;
            let joined = present && trace.connected is Some && trace.connected->0 is Ok;
            &&& action is EstablishContext <==> trace.context is None
            &&& action is ListReaders <==> established && trace.readers is None
            &&& action is AwaitCard <==> listed && trace.card_present is None
            &&& action is AwaitCard ==> action->AwaitCard_reader@ == readers[0]@
                && action->AwaitCard_timeout_ms == 200
            &&& action is Connect <==> present && trace.connected is None
            &&& action is Connect ==> action->Connect_reader@ == readers[0]@
            &&& action is Transmit <==> joined && trace.uid_reply is None
            &&& action is Transmit ==> action->Transmit_0 == Command::GetFelicaIdm
        }),
{
    if trace.readers is Some && trace.readers->0 is Ok && trace.readers->0->Ok_0@.len() > 0 {
        let readers = trace.readers->0->Ok_0@;
        assert(raw_names(readers)[0] == readers[0]@);
    }
}

/// A poll ends without a card exactly if the first reader has none: the wait ran out of time, or
/// it ended with no card present. It ends with a UID exactly if a card was present, could be
/// connected to and answered the query with success, and the UID is then all of its answer but
/// the status word.
pub proof fn law_poll_success(trace: PollTrace, action: PollAction)
    requires
        action@ == poll_action(trace@),
    ensures
        ({
            let listed = trace.context is Some && trace.context->0 is Ok && trace.readers is Some
                && trace.readers->0 is Ok && trace.readers->0->Ok_0@.len() > 0;
            let bytes = trace.uid_reply->0->Ok_0@;
            let n = bytes.len();
            let succeeded = action is Finished && action->Finished_0 is Ok;
            &&& (succeeded && action->Finished_0->Ok_0 is None) <==> {
                &&& listed
                &&& trace.card_present is Some
                &&& match trace.card_present->0 {
                    Ok(present) => !present,
                    Err(e) => e.timeout,
                }
            }
            &&& (succeeded && action->Finished_0->Ok_0 is Some) <==> {
                &&& listed
                &&& trace.card_present is Some && trace.card_present->0 is Ok
                &&& trace.card_present->0->Ok_0
                &&& trace.connected is Some && trace.connected->0 is Ok
                &&& trace.uid_reply is Some && trace.uid_reply->0 is Ok
                &&& n >= 2 && bytes[n - 2] == 0x90 && bytes[n - 1] == 0x00
            }
            &&& succeeded && action->Finished_0->Ok_0 is Some ==> action->Finished_0->Ok_0->0@
                == crate::text::hex(bytes.take(n - 2))
        }),
{
}

/// A smart card operation that fails ends the poll with its own error, and a card that cannot be
/// read ends it with a failed read; nothing else makes a poll fail, but the lack of readers.
pub proof fn law_poll_failure(trace: PollTrace, action: PollAction)
    requires
        action@ == poll_action(trace@),
    ensures
        ({
            let established = trace.context is Some && trace.context->0 is Ok;
            let listed = established && trace.readers is Some && trace.readers->0 is Ok
                && trace.readers->0->Ok_0@.len() > 0;
            let present = listed && trace.card_present is Some && trace.card_present->0 is Ok
                && trace.card_present->0->Ok_0;
            let joined = present && trace.connected is Some && trace.connected->0 is Ok;
            &&& trace.context is Some && trace.context->0 is Err ==> fails_with(
                action,
                trace.context->0->Err_0,
            )
            &&& established && trace.readers is Some && trace.readers->0 is Err ==> fails_with(
                action,
                trace.readers->0->Err_0,
            )
            &&& listed && trace.card_present is Some && trace.card_present->0 is Err
                && !trace.card_present->0->Err_0.timeout ==> fails_with(
                action,
                trace.card_present->0->Err_0,
            )
            &&& present && trace.connected is Some && trace.connected->0 is Err ==> fails_with(
                action,
                trace.connected->0->Err_0,
            )
            &&& joined && trace.uid_reply is Some && trace.uid_reply->0 is Err ==> {
                &&& action is Finished && action->Finished_0 is Err
                &&& action->Finished_0->Err_0 is CardReadFailed
                &&& action->Finished_0->Err_0->CardReadFailed_0@ == "transmit failed: "@
                    + trace.uid_reply->0->Err_0.text@
            }
            &&& joined && trace.uid_reply is Some && trace.uid_reply->0 is Ok ==> {
                let bytes = trace.uid_reply->0->Ok_0@;
                let n = bytes.len();
                n < 2 || bytes[n - 2] != 0x90 || bytes[n - 1] != 0x00 ==> {
                    &&& action is Finished && action->Finished_0 is Err
                    &&& action->Finished_0->Err_0 is CardReadFailed
                    &&& action->Finished_0->Err_0->CardReadFailed_0@ == if n < 2 {
                        "response too short"@
                    } else {
                        "APDU error: SW="@ + crate::text::hex(seq![bytes[n - 2], bytes[n - 1]])
                    }
                }
            }
            &&& action is Finished && action->Finished_0 is Err
                && action->Finished_0->Err_0 is CardReadFailed ==> joined && trace.uid_reply is Some
            &&& action is Finished && action->Finished_0 is Err ==> {
                ||| action->Finished_0->Err_0 is Pcsc
                ||| action->Finished_0->Err_0 is NoReaders
                ||| action->Finished_0->Err_0 is CardReadFailed
            }
        }),
{
}

/// Whether an action ends the poll with the given error of the smart card service.
pub open spec fn fails_with(action: PollAction, e: PcscError) -> bool {
    &&& action is Finished && action->Finished_0 is Err
    &&& action->Finished_0->Err_0 is Pcsc
    &&& action->Finished_0->Err_0->Pcsc_0.timeout == e.timeout
    &&& action->Finished_0->Err_0->Pcsc_0.text@ == e.text@
}

/// A poll performed from `known` on: what is asked for comes out as `world` has it, for at most
/// `n` operations.
pub open spec fn poll_performed(world: PollTraceView, known: PollTraceView, n: nat) -> PollActionView
    decreases n,
{
    let action = poll_action(known);
    if n == 0 {
        action
    } else {
        let m = (n - 1) as nat;
        match action {
            PollActionView::EstablishContext => poll_performed(
                world,
                PollTraceView { context: world.context, ..known },
                m,
            ),
            PollActionView::ListReaders => poll_performed(
                world,
                PollTraceView { readers: world.readers, ..known },
                m,
            ),
            PollActionView::AwaitCard { .. } => poll_performed(
                world,
                PollTraceView { card_present: world.card_present, ..known },
                m,
            ),
            PollActionView::Connect { .. } => poll_performed(
                world,
                PollTraceView { connected: world.connected, ..known },
                m,
            ),
            PollActionView::Transmit(_) => poll_performed(
                world,
                PollTraceView { uid_reply: world.uid_reply, ..known },
                m,
            ),
            PollActionView::Finished(_) => action,
        }
    }
}

/// A whole poll, from the first operation to the result: with a reader attached and a card on
/// the first one that answers the UID query, its UID is read; with no card there, nothing is;
/// with no reader, that is the result.
pub proof fn law_whole_poll(world: PollTraceView, uid: Seq<u8>)
    requires
        world.context is Some && world.context->0 is Ok,
        world.readers is Some && world.readers->0 is Ok,
        world.card_present is Some,
        world.connected is Some && world.connected->0 is Ok,
        world.uid_reply == Some(Ok::<_, Seq<char>>(uid + seq![0x90, 0x00])),
    ensures
        ({
            let nothing = PollTraceView {
                context: None,
                readers: None,
                card_present: None,
                connected: None,
                uid_reply: None,
            };
            let result = poll_performed(world, nothing, 5);
            let attached = (world.readers->0->Ok_0).len() > 0;
            &&& result is Finished
            &&& !attached ==> result->Finished_0 == Err::<Option<Seq<char>>, _>(
                error::BridgeErrorView::NoReaders,
            )
            &&& attached && world.card_present->0 == Ok::<_, error::PcscErrorView>(true)
                ==> result->Finished_0 == Ok::<_, error::BridgeErrorView>(
                Some(crate::text::hex(uid)),
            )
            &&& attached && world.card_present->0 == Ok::<_, error::PcscErrorView>(false)
                ==> result->Finished_0 == Ok::<Option<Seq<char>>, error::BridgeErrorView>(None)
        }),
{
    reveal_with_fuel(poll_performed, 6);
    apdu::law_uid_needs_success(uid, 0x90, 0x00);
}

/// A reader is listed under the text that its raw name spells, and only a name that spells none
/// is unknown.
pub proof fn law_reader_name(name: Seq<char>, raw: Seq<u8>)
    ensures
        reader_name(encode_utf8(name)) == name,
        valid_utf8(raw) ==> encode_utf8(reader_name(raw)) == raw,
        !valid_utf8(raw) ==> reader_name(raw) == "unknown"@,
{
    encode_utf8_valid_utf8(name);
    encode_utf8_decode_utf8(name);
    if valid_utf8(raw) {
        decode_utf8_encode_utf8(raw);
    }
}

/// The outcome of a poll stands for its UID, its lack of a card or its error.
pub proof fn law_outcome_view(outcome: Option<PollResult>)
    ensures
        outcome is None <==> outcome_view(outcome) is None,
        outcome is Some && outcome->0 is Err ==> outcome_view(outcome) == Some(
            Err::<Option<Seq<char>>, _>(outcome->0->Err_0@),
        ),
        outcome is Some && outcome->0 is Ok && outcome->0->Ok_0 is None ==> outcome_view(outcome)
            == Some(Ok::<Option<Seq<char>>, error::BridgeErrorView>(None)),
        outcome is Some && outcome->0 is Ok && outcome->0->Ok_0 is Some ==> outcome_view(outcome)
            == Some(Ok::<_, error::BridgeErrorView>(Some(outcome->0->Ok_0->0@))),
{
}

/// One poll of a loop in any state: a card is announced with its whole UID unless the debouncer
/// holds it back, and from then on it is the card that the debouncer goes by.
pub proof fn law_card_is_announced(polling: PollingView, uid: Seq<char>, now: u128)
    ensures
        polling.debouncer.is_duplicate(uid, now) ==> {
            &&& polling.event(Some(Ok(Some(uid))), now) is None
            &&& polling.after(Some(Ok(Some(uid))), now) == polling
        },
        !polling.debouncer.is_duplicate(uid, now) ==> {
            &&& polling.event(Some(Ok(Some(uid))), now) == Some(
                events::NfcEventView::NfcRead { employee_id: uid },
            )
            &&& polling.after(Some(Ok(Some(uid))), now).debouncer.last == Some((uid, now))
        },
        polling.after(Some(Ok(Some(uid))), now).debouncer.cooldown == polling.debouncer.cooldown,
        polling.after(Some(Ok(Some(uid))), now).last_no_readers_log == polling.last_no_readers_log,
{
}

/// The lack of readers is due to be reported if it never was, or more than five seconds ago.
pub proof fn law_no_readers_due(polling: PollingView, now: u128)
    ensures
        polling.no_readers_due(now) <==> {
            ||| polling.last_no_readers_log is None
            ||| now - polling.last_no_readers_log->0 > 5_000_000_000
        },
{
}

/// Raw names stand for their bytes, each one, in order.
pub proof fn law_raw_names(raw: Seq<Vec<u8>>, i: int)
    requires
        0 <= i < raw.len(),
    ensures
        raw_names(raw).len() == raw.len(),
        raw_names(raw)[i] == raw[i]@,
{
}

/// What is called a reading of a loop's clock is one of its debouncer's.
proof fn law_clock_of_loop(polling: PollingLoop, now: u128)
    ensures
        polling.clock_shows(now) <==> polling.debouncer.clock_shows(now),
        polling.clock_started() <==> polling.debouncer.clock_started(),
{
}

} // verus!
