use vstd::prelude::*;
use crate::event::{Event, KeyboardEnhancementFlags};

verus! {

/// An item decoded from the terminal's input: a public event, or a reply of
/// the terminal to a query, which callers of `read` and `poll` never see.
#[derive(Debug, PartialOrd, PartialEq, Eq, Clone, Hash)]
pub enum InternalEvent {
    /// A public event.
    Event(Event),
    /// The cursor position (column, row).
    CursorPosition(u16, u16),
    /// The keyboard enhancement flags that the terminal has on.
    KeyboardEnhancementFlags(KeyboardEnhancementFlags),
    /// The terminal's primary device attributes.
    PrimaryDeviceAttributes,
}

/// What the decoder made of a stretch of input: an item, or bytes that form
/// no known sequence and are dropped.
#[derive(Debug, Clone)]
pub enum Decoded {
    Item(InternalEvent),
    Malformed,
}

/// The items among `input`, in order, with what was malformed left out.
pub open spec fn decoded_items(input: Seq<Decoded>) -> Seq<InternalEvent>
    decreases input.len(),
{
    if input.len() == 0 {
        Seq::empty()
    } else {
        let rest = decoded_items(input.drop_last());
        match input.last() {
            Decoded::Item(e) => rest.push(e),
            Decoded::Malformed => rest,
        }
    }
}

/// Selects the items that a call waits for; the others stay buffered.
pub trait Filter {
    /// Whether the filter takes `e`.
    spec fn accepts(&self, e: InternalEvent) -> bool;

    fn eval(&self, e: &InternalEvent) -> (r: bool)
        ensures
            r == self.accepts(*e),
    ;
}

/// Takes public events only.
pub struct EventFilter;

impl Filter for EventFilter {
    open spec fn accepts(&self, e: InternalEvent) -> bool {
        e is Event
    }

    fn eval(&self, e: &InternalEvent) -> (r: bool) {
        matches!(e, InternalEvent::Event(_))
    }
}

/// Takes cursor position replies only.
pub struct CursorPositionFilter;

impl Filter for CursorPositionFilter {
    open spec fn accepts(&self, e: InternalEvent) -> bool {
        e is CursorPosition
    }

    fn eval(&self, e: &InternalEvent) -> (r: bool) {
        matches!(e, InternalEvent::CursorPosition(_, _))
    }
}

/// Takes keyboard enhancement flag replies only.
pub struct KeyboardEnhancementFlagsFilter;

impl Filter for KeyboardEnhancementFlagsFilter {
    open spec fn accepts(&self, e: InternalEvent) -> bool {
        e is KeyboardEnhancementFlags
    }

    fn eval(&self, e: &InternalEvent) -> (r: bool) {
        matches!(e, InternalEvent::KeyboardEnhancementFlags(_))
    }
}

/// Takes primary device attribute replies only.
pub struct PrimaryDeviceAttributesFilter;

impl Filter for PrimaryDeviceAttributesFilter {
    open spec fn accepts(&self, e: InternalEvent) -> bool {
        e is PrimaryDeviceAttributes
    }

    fn eval(&self, e: &InternalEvent) -> (r: bool) {
        matches!(e, InternalEvent::PrimaryDeviceAttributes)
    }
}

/// The index of the first item of `s` that `f` takes.
pub open spec fn first_match<F: Filter>(s: Seq<InternalEvent>, f: &F) -> Option<nat>
    decreases s.len(),
{
    if s.len() == 0 {
        None
    } else if f.accepts(s[0]) {
        Some(0)
    } else {
        match first_match(s.drop_first(), f) {
            Some(i) => Some(i + 1),
            None => None,
        }
    }
}

/// Taking from backlog `s` with `f`: the first item that `f` takes, and the
/// backlog without it, the others in their order; nothing, and `s` as it is,
/// where `f` takes none.
pub open spec fn take_match<F: Filter>(s: Seq<InternalEvent>, f: &F) -> (
    Option<InternalEvent>,
    Seq<InternalEvent>,
) {
    match first_match(s, f) {
        Some(i) => (Some(s[i as int]), s.remove(i as int)),
        None => (None, s),
    }
}

/// `first_match` is the least index that `f` takes.
pub proof fn lemma_first_match<F: Filter>(s: Seq<InternalEvent>, f: &F)
    ensures
        match first_match(s, f) {
            Some(i) => i < s.len() && f.accepts(s[i as int]) && forall|j: int|
                0 <= j < i ==> !f.accepts(#[trigger] s[j]),
            None => forall|j: int| 0 <= j < s.len() ==> !f.accepts(#[trigger] s[j]),
        },
    decreases s.len(),
{
    if s.len() > 0 && !f.accepts(s[0]) {
        let t = s.drop_first();
        lemma_first_match(t, f);
        match first_match(t, f) {
            Some(i) => {
                assert forall|j: int| 0 <= j < i + 1 implies !f.accepts(#[trigger] s[j]) by {
                    if j > 0 {
                        assert(s[j] == t[j - 1]);
                    }
                }
            },
            None => {
                assert forall|j: int| 0 <= j < s.len() implies !f.accepts(#[trigger] s[j]) by {
                    if j > 0 {
                        assert(s[j] == t[j - 1]);
                    }
                }
            },
        }
    }
}

/// An index that `f` takes, before which `f` takes none, is the first match.
pub proof fn lemma_first_match_at<F: Filter>(s: Seq<InternalEvent>, f: &F, i: int)
    requires
        0 <= i < s.len(),
        f.accepts(s[i]),
        forall|j: int| 0 <= j < i ==> !f.accepts(#[trigger] s[j]),
    ensures
        first_match(s, f) == Some(i as nat),
{
    lemma_first_match(s, f);
    match first_match(s, f) {
        Some(k) => {
            if (k as int) < i {
                assert(!f.accepts(s[k as int]));
            } else if (k as int) > i {
                assert(!f.accepts(s[i]));
            }
        },
        None => {
            assert(!f.accepts(s[i]));
        },
    }
}

/// Where `f` takes none of `s`, there is no first match.
pub proof fn lemma_no_first_match<F: Filter>(s: Seq<InternalEvent>, f: &F)
    requires
        forall|j: int| 0 <= j < s.len() ==> !f.accepts(#[trigger] s[j]),
    ensures
        first_match(s, f) is None,
{
    lemma_first_match(s, f);
    if let Some(k) = first_match(s, f) {
        assert(f.accepts(s[k as int]));
    }
}

/// The terminal's decoded input that no call has taken yet, oldest first.
pub struct InternalEventReader {
    events: Vec<InternalEvent>,
}

impl View for InternalEventReader {
    type V = Seq<InternalEvent>;

    closed spec fn view(&self) -> Seq<InternalEvent> {
        self.events@
    }
}

impl InternalEventReader {
    /// A reader with nothing buffered.
    pub fn new() -> (r: InternalEventReader)
        ensures
            r@ == Seq::<InternalEvent>::empty(),
    {
        InternalEventReader { events: Vec::new() }
    }

    /// The number of buffered items.
    pub fn len(&self) -> (r: usize)
        ensures
            r == self@.len(),
    {
        self.events.len()
    }

    /// Whether `filter` takes a buffered item.
    pub fn has_match<F: Filter>(&self, filter: &F) -> (r: bool)
        ensures
            r == first_match(self@, filter) is Some,
    {
        let mut i: usize = 0;
        while i < self.events.len()
            invariant
                i <= self.events@.len(),
                forall|j: int| 0 <= j < i ==> !filter.accepts(#[trigger] self.events@[j]),
            decreases self.events@.len() - i,
        {
            if filter.eval(&self.events[i]) {
                proof { lemma_first_match_at(self.events@, filter, i as int); }
                return true;
            }
            i = i + 1;
        }
        proof { lemma_no_first_match(self.events@, filter); }
        false
    }

    /// Removes and returns the first buffered item that `filter` takes,
    /// leaving the others in their order.
    pub fn take_match<F: Filter>(&mut self, filter: &F) -> (r: Option<InternalEvent>)
        ensures
            (r, final(self)@) == take_match(old(self)@, filter),
    {
        let mut i: usize = 0;
        while i < self.events.len()
            invariant
                i <= self.events@.len(),
                self.events@ == old(self)@,
                forall|j: int| 0 <= j < i ==> !filter.accepts(#[trigger] self.events@[j]),
            decreases self.events@.len() - i,
        {
            if filter.eval(&self.events[i]) {
                proof { lemma_first_match_at(self.events@, filter, i as int); }
                let e = self.events.remove(i);
                return Some(e);
            }
            i = i + 1;
        }
        proof { lemma_no_first_match(self.events@, filter); }
        None
    }

    /// Buffers the items among `input`, after those already buffered; what
    /// was malformed is dropped.
    pub fn ingest(&mut self, input: Vec<Decoded>)
        ensures
            final(self)@ == old(self)@ + decoded_items(input@),
    {
        let mut rest = input;
        while rest.len() > 0
            invariant
                self@ + decoded_items(rest@) == old(self)@ + decoded_items(input@),
            decreases rest@.len(),
        {
            let ghost before = rest@;
            let ghost head = rest@.take(1);
            proof {
                lemma_decoded_items_append(head, rest@.drop_first());
                assert(head + rest@.drop_first() =~= rest@);
                assert(head.drop_last() =~= Seq::<Decoded>::empty());
                assert(head.last() == rest@[0]);
                assert(decoded_items(head.drop_last()) =~= Seq::<InternalEvent>::empty());
            }
            let d = rest.remove(0);
            assert(rest@ =~= before.drop_first());
            assert(d == head.last());
            match d {
                Decoded::Item(e) => {
                    assert(decoded_items(head) =~= seq![e]);
                    self.events.push(e);
                    assert(self@ + decoded_items(rest@) =~= old(self)@ + decoded_items(input@));
                },
                Decoded::Malformed => {
                    assert(decoded_items(head) =~= Seq::<InternalEvent>::empty());
                    assert(self@ + decoded_items(rest@) =~= old(self)@ + decoded_items(input@));
                },
            }
        }
        assert(self@ =~= self@ + decoded_items(rest@));
    }

    /// One decision of a poll: buffers what the last wait on the input
    /// brought (`None` before the first wait), then answers `Ready` where
    /// `filter` takes a buffered item, else `Wait` with the budget `leftover`
    /// (`None`: unbounded) where the input has not been waited on yet or
    /// budget is left, else `Expired`.
    pub fn poll_step<F: Filter>(
        &mut self,
        filter: &F,
        input: Option<Vec<Decoded>>,
        leftover: Option<u128>,
    ) -> (r: PollStep)
        ensures
            final(self)@ == old(self)@ + match input {
                Some(v) => decoded_items(v@),
                None => Seq::empty(),
            },
            r == poll_decision(final(self)@, filter, input is Some, leftover),
    {
        let waited = input.is_some();
        match input {
            Some(v) => self.ingest(v),
            None => {
                assert(self@ =~= old(self)@ + Seq::<InternalEvent>::empty());
            },
        }
        if self.has_match(filter) {
            PollStep::Ready
        } else if !waited {
            PollStep::Wait(leftover)
        } else {
            match leftover {
                Some(l) => if l == 0 {
                    PollStep::Expired
                } else {
                    PollStep::Wait(leftover)
                },
                None => PollStep::Wait(leftover),
            }
        }
    }

    /// One attempt of a read: buffers `input`, then removes and returns the
    /// first buffered item that `filter` takes; `None` where there is none
    /// yet, and the input is to be waited on without a bound.
    pub fn read_step<F: Filter>(&mut self, filter: &F, input: Vec<Decoded>) -> (r: Option<
        InternalEvent,
    >)
        ensures
            (r, final(self)@) == take_match(old(self)@ + decoded_items(input@), filter),
    {
        self.ingest(input);
        self.take_match(filter)
    }

    /// One attempt of reading a public event: `read_step` with `EventFilter`,
    /// with the event taken out of its wrapper.
    pub fn read_event_step(&mut self, input: Vec<Decoded>) -> (r: Option<Event>)
        ensures
            final(self)@ == take_match(old(self)@ + decoded_items(input@), &EventFilter).1,
            match take_match(old(self)@ + decoded_items(input@), &EventFilter).0 {
                Some(InternalEvent::Event(e)) => r == Some(e),
                _ => r is None,
            },
    {
        let filter = EventFilter;
        match self.read_step(&filter, input) {
            Some(InternalEvent::Event(e)) => Some(e),
            _ => None,
        }
    }
}

/// What a poll does next.
#[derive(Debug, Clone, Copy, PartialEq, Eq, Structural)]
pub enum PollStep {
    /// An item that the filter takes is buffered: the poll answers yes.
    Ready,
    /// The budget is used up: the poll answers no.
    Expired,
    /// Wait for input this many nanoseconds (`None`: without a bound), then
    /// decide again.
    Wait(Option<u128>),
}

/// The decision of a poll over backlog `s`: ready where `f` takes an item of
/// it; else wait where the input was not waited on yet or budget is left;
/// else expired.
pub open spec fn poll_decision<F: Filter>(
    s: Seq<InternalEvent>,
    f: &F,
    waited: bool,
    leftover: Option<u128>,
) -> PollStep {
    if first_match(s, f) is Some {
        PollStep::Ready
    } else if waited && leftover == Some(0u128) {
        PollStep::Expired
    } else {
        PollStep::Wait(leftover)
    }
}

/// A poll with a zero budget never blocks: each wait it asks for is a wait of
/// zero, and once the input has been waited on and nothing that the filter
/// takes is buffered, it answers no.
pub proof fn lemma_zero_budget_never_blocks<F: Filter>(s: Seq<InternalEvent>, f: &F, waited: bool)
    ensures
        poll_decision(s, f, waited, Some(0u128)) matches PollStep::Wait(l) ==> l == Some(0u128),
        waited && first_match(s, f) is None ==> poll_decision(s, f, waited, Some(0u128))
            == PollStep::Expired,
{
}

/// A query for the cursor position does not disturb pending events: where
/// the backlog holds a cursor reply and a public event, taking with
/// `CursorPositionFilter` returns the first cursor reply, and taking with
/// `EventFilter` from what is left returns the first public event of the
/// original backlog.
pub proof fn lemma_reply_taken_events_kept(s: Seq<InternalEvent>)
    requires
        first_match(s, &CursorPositionFilter) is Some,
        first_match(s, &EventFilter) is Some,
    ensures
        ({
            let (reply, rest) = take_match(s, &CursorPositionFilter);
            let (event, _) = take_match(rest, &EventFilter);
            &&& reply == Some(s[first_match(s, &CursorPositionFilter)->Some_0 as int])
            &&& reply matches Some(InternalEvent::CursorPosition(_, _))
            &&& event == Some(s[first_match(s, &EventFilter)->Some_0 as int])
            &&& event matches Some(InternalEvent::Event(_))
        }),
{
    let c = &CursorPositionFilter;
    let f = &EventFilter;
    lemma_first_match(s, c);
    lemma_first_match(s, f);
    let k = first_match(s, c)->Some_0 as int;
    let j = first_match(s, f)->Some_0 as int;
    let rest = s.remove(k);
    if j < k {
        assert forall|i: int| 0 <= i < j implies !f.accepts(#[trigger] rest[i]) by {
            assert(rest[i] == s[i]);
        }
        assert(rest[j] == s[j]);
        lemma_first_match_at(rest, f, j);
    } else {
        assert forall|i: int| 0 <= i < j - 1 implies !f.accepts(#[trigger] rest[i]) by {
            if i < k {
                assert(rest[i] == s[i]);
            } else {
                assert(rest[i] == s[i + 1]);
            }
        }
        assert(rest[j - 1] == s[j]);
        lemma_first_match_at(rest, f, j - 1);
    }
}

/// Garbage does not hide what follows it: where nothing in the backlog is a
/// public event, input of malformed stretches followed by a resize yields
/// that resize to the next read.
pub proof fn lemma_garbage_skipped(s: Seq<InternalEvent>, garbage: Seq<Decoded>, columns: u16, rows: u16)
    requires
        first_match(s, &EventFilter) is None,
        forall|i: int| 0 <= i < garbage.len() ==> #[trigger] garbage[i] is Malformed,
    ensures
        take_match(
            s + decoded_items(garbage.push(Decoded::Item(InternalEvent::Event(Event::Resize(columns, rows))))),
            &EventFilter,
        ).0 == Some(InternalEvent::Event(Event::Resize(columns, rows))),
{
    let e = InternalEvent::Event(Event::Resize(columns, rows));
    lemma_no_garbage_items(garbage);
    let input = garbage.push(Decoded::Item(e));
    assert(input.drop_last() =~= garbage);
    assert(decoded_items(input) =~= seq![e]);
    let all = s + seq![e];
    lemma_first_match(s, &EventFilter);
    assert forall|i: int| 0 <= i < s.len() implies !EventFilter.accepts(#[trigger] all[i]) by {
        assert(all[i] == s[i]);
    }
    lemma_first_match_at(all, &EventFilter, s.len() as int);
}

/// Input that is all malformed yields no items.
pub proof fn lemma_no_garbage_items(garbage: Seq<Decoded>)
    requires
        forall|i: int| 0 <= i < garbage.len() ==> #[trigger] garbage[i] is Malformed,
    ensures
        decoded_items(garbage) == Seq::<InternalEvent>::empty(),
    decreases garbage.len(),
{
    if garbage.len() > 0 {
        let rest = garbage.drop_last();
        assert forall|i: int| 0 <= i < rest.len() implies #[trigger] rest[i] is Malformed by {
            assert(rest[i] == garbage[i]);
        }
        lemma_no_garbage_items(rest);
        assert(garbage.last() is Malformed);
    }
}


/// Decoding two stretches of input one after the other gives the items of
/// the first, then those of the second.
pub proof fn lemma_decoded_items_append(a: Seq<Decoded>, b: Seq<Decoded>)
    ensures
        decoded_items(a + b) == decoded_items(a) + decoded_items(b),
    decreases b.len(),
{
    if b.len() == 0 {
        assert(a + b =~= a);
        assert(decoded_items(a) + decoded_items(b) =~= decoded_items(a));
    } else {
        lemma_decoded_items_append(a, b.drop_last());
        assert((a + b).drop_last() =~= a + b.drop_last());
        assert((a + b).last() == b.last());
        match b.last() {
            Decoded::Item(e) => {
                assert(decoded_items(a) + decoded_items(b) =~= (decoded_items(a) + decoded_items(b.drop_last())).push(e));
            },
            Decoded::Malformed => {},
        }
    }
}

} // verus!
