//! Debouncing: a card that stays on the reader is reported once per cooldown period.
use vstd::prelude::*;
use vstd::string::*;

use crate::clock;
use crate::clock::Clock;

verus! {

/// Tracks the card that was reported last, for debouncing.
#[derive(Debug)]
pub struct CardDebouncer {
    /// The UID that was let through last and the clock reading at that moment.
    last: Option<(String, u128)>,
    cooldown: u128,
    clock: Clock,
}

/// What a [`CardDebouncer`] stands for: the UID that was let through last, when that was,
/// and for how many nanoseconds the same UID is held back after that.
pub struct CardDebouncerView {
    pub last: Option<(Seq<char>, u128)>,
    pub cooldown: u128,
}

impl View for CardDebouncer {
    type V = CardDebouncerView;

    closed spec fn view(&self) -> CardDebouncerView {
        CardDebouncerView {
            last: match self.last {
                Some((uid, seen)) => Some((uid@, seen)),
                None => None,
            },
            cooldown: self.cooldown,
        }
    }
}

impl CardDebouncerView {
    /// Whether `uid` is a duplicate: the card let through last, less than the cooldown ago.
    pub open spec fn is_duplicate(self, uid: Seq<char>, now: u128) -> bool {
        match self.last {
            Some((last_uid, seen)) => last_uid == uid && clock::time_between(seen, now)
                < self.cooldown,
            None => false,
        }
    }

    /// The debouncer after a read of `uid`: duplicates leave no trace.
    pub open spec fn after(self, uid: Seq<char>, now: u128) -> CardDebouncerView {
        if self.is_duplicate(uid, now) {
            self
        } else {
            CardDebouncerView { last: Some((uid, now)), cooldown: self.cooldown }
        }
    }
}

impl CardDebouncer {
    /// Whether the debouncer's clock was started at a reading of the monotonic clock.
    pub closed spec fn clock_started(&self) -> bool {
        self.clock.was_started()
    }

    /// Whether `now` is a reading of the debouncer's clock.
    pub closed spec fn clock_shows(&self, now: u128) -> bool {
        self.clock.shows(now)
    }

    /// Whether two debouncers have the same clock, as far as can be told from its readings.
    pub open spec fn same_clock(&self, other: &CardDebouncer) -> bool {
        &&& self.clock_started() == other.clock_started()
        &&& forall|now: u128| self.clock_shows(now) == other.clock_shows(now)
    }

    /// A debouncer that holds the same UID back for `cooldown` nanoseconds.
    pub fn new(cooldown: u128) -> (debouncer: CardDebouncer)
        ensures
            debouncer@ == (CardDebouncerView { last: None, cooldown }),
            debouncer.clock_started(),
    {
        CardDebouncer { last: None, cooldown, clock: Clock::start() }
    }

    /// Returns true if this UID should be emitted (not a duplicate within cooldown).
    ///
    /// What holds is stated for the moment of the call, which is some reading `now` of the
    /// debouncer's clock.
    pub fn should_emit(&mut self, uid: &str) -> (emit: bool)
        ensures
            exists|now: u128|
                old(self).clock_shows(now) && emit == !old(self)@.is_duplicate(uid@, now)
                    && final(self)@ == #[trigger] old(self)@.after(uid@, now),
            final(self).same_clock(old(self)),
            old(self)@.last is None || (old(self)@.last->0).0 != uid@ ==> emit,
            !emit ==> final(self)@ == old(self)@,
    {
        let now = self.clock.read();
        self.should_emit_at(uid, now)
    }

    /// Returns true if this UID, read at clock reading `now`, should be emitted.
    pub fn should_emit_at(&mut self, uid: &str, now: u128) -> (emit: bool)
        ensures
            emit == !old(self)@.is_duplicate(uid@, now),
            final(self)@ == old(self)@.after(uid@, now),
            final(self).same_clock(old(self)),
    {
        let uid = uid.to_string();
        if let Some((last_uid, seen)) = &self.last {
            if *last_uid == uid && clock::duration_since(*seen, now) < self.cooldown {
                return false;
            }
        }
        self.last = Some((uid, now));
        true
    }

    /// The current reading of the debouncer's clock.
    pub(crate) fn now(&self) -> (now: u128)
        ensures
            self.clock_shows(now),
    {
        self.clock.read()
    }
}

/// The debouncer after the given reads, each with the clock reading at that moment.
pub open spec fn after_reads(
    debouncer: CardDebouncerView,
    reads: Seq<(Seq<char>, u128)>,
) -> CardDebouncerView
    decreases reads.len(),
{
    if reads.len() == 0 {
        debouncer
    } else {
        after_reads(debouncer, reads.drop_last()).after(reads.last().0, reads.last().1)
    }
}

/// Whether the read at position `i` is let through.
pub open spec fn let_through(
    debouncer: CardDebouncerView,
    reads: Seq<(Seq<char>, u128)>,
    i: int,
) -> bool {
    !after_reads(debouncer, reads.take(i)).is_duplicate(reads[i].0, reads[i].1)
}

/// Whether the read at position `j` is the latest one before position `i` that is let through.
pub open spec fn is_latest_let_through(
    debouncer: CardDebouncerView,
    reads: Seq<(Seq<char>, u128)>,
    j: int,
    i: int,
) -> bool {
    &&& 0 <= j < i
    &&& let_through(debouncer, reads, j)
    &&& forall|m: int| j < m < i ==> !#[trigger] let_through(debouncer, reads, m)
}

proof fn lemma_latest_is_remembered(
    debouncer: CardDebouncerView,
    reads: Seq<(Seq<char>, u128)>,
    k: int,
)
    requires
        0 <= k <= reads.len(),
        debouncer.last is None,
    ensures
        after_reads(debouncer, reads.take(k)).cooldown == debouncer.cooldown,
        after_reads(debouncer, reads.take(k)).last is None ==> k == 0,
        after_reads(debouncer, reads.take(k)).last is Some ==> exists|j: int|
            #[trigger] is_latest_let_through(debouncer, reads, j, k) && reads[j]
                == after_reads(debouncer, reads.take(k)).last->0,
    decreases k,
{
    if k > 0 {
        lemma_latest_is_remembered(debouncer, reads, k - 1);
        assert(reads.take(k).drop_last() =~= reads.take(k - 1));
        if let_through(debouncer, reads, k - 1) {
            assert(is_latest_let_through(debouncer, reads, k - 1, k));
        } else {
            let j = choose|j: int| #[trigger]
                is_latest_let_through(debouncer, reads, j, k - 1) && reads[j] == after_reads(
                    debouncer,
                    reads.take(k - 1),
                ).last->0;
            assert(is_latest_let_through(debouncer, reads, j, k));
        }
    }
}

/// Over any run of reads, a read is held back exactly if the latest read that was let through
/// before it is of the same card and less than the cooldown ago.
pub proof fn law_held_back_by_latest(
    debouncer: CardDebouncerView,
    reads: Seq<(Seq<char>, u128)>,
    i: int,
)
    requires
        debouncer.last is None,
        0 <= i < reads.len(),
    ensures
        !let_through(debouncer, reads, i) <==> exists|j: int| #[trigger]
            is_latest_let_through(debouncer, reads, j, i) && reads[j].0 == reads[i].0
                && clock::time_between(reads[j].1, reads[i].1) < debouncer.cooldown,
{
    lemma_latest_is_remembered(debouncer, reads, i);
    assert forall|j: int, k: int|
        is_latest_let_through(debouncer, reads, j, i) && is_latest_let_through(
            debouncer,
            reads,
            k,
            i,
        ) implies j == k by {
        assert(let_through(debouncer, reads, j) && let_through(debouncer, reads, k));
    }
}

/// A card that was let through is held back when it is read again before the cooldown is
/// over, and let through again after that.
pub proof fn law_duplicate_within_cooldown(
    debouncer: CardDebouncerView,
    uid: Seq<char>,
    first: u128,
    second: u128,
)
    requires
        !debouncer.is_duplicate(uid, first),
        first <= second,
    ensures
        debouncer.after(uid, first).is_duplicate(uid, second) <==> second - first
            < debouncer.cooldown,
{
}

/// A card is never held back on account of another one, and the first card passes.
pub proof fn law_other_card_passes(
    debouncer: CardDebouncerView,
    uid: Seq<char>,
    other: Seq<char>,
    first: u128,
    second: u128,
)
    requires
        uid != other,
        !debouncer.is_duplicate(uid, first),
    ensures
        !debouncer.after(uid, first).is_duplicate(other, second),
        debouncer.last is None ==> !debouncer.is_duplicate(other, second),
{
}

/// One read in any state: it is held back exactly if it is of the card let through last, less
/// than the cooldown ago. A read that is let through becomes the one to go by; one that is held
/// back leaves no trace.
pub proof fn law_one_read(debouncer: CardDebouncerView, uid: Seq<char>, now: u128)
    ensures
        debouncer.is_duplicate(uid, now) <==> {
            &&& debouncer.last is Some
            &&& (debouncer.last->0).0 == uid
            &&& debouncer.cooldown > 0
            &&& now - (debouncer.last->0).1 < debouncer.cooldown
        },
        debouncer.is_duplicate(uid, now) ==> debouncer.after(uid, now) == debouncer,
        !debouncer.is_duplicate(uid, now) ==> debouncer.after(uid, now).last == Some((uid, now)),
        debouncer.after(uid, now).cooldown == debouncer.cooldown,
{
}

/// What is called a reading of a debouncer's clock is one.
proof fn law_clock_of_debouncer(debouncer: CardDebouncer, now: u128)
    ensures
        debouncer.clock_shows(now) <==> debouncer.clock.shows(now),
        debouncer.clock_started() <==> debouncer.clock.was_started(),
{
}

} // verus!
