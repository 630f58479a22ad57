use vstd::prelude::*;
use crate::Error;
use crate::event::{is_end_event, is_start_event, is_value_event, Event};

verus! {

/// Processes the events emitted during serialization of a value tree.
///
/// Both the generic `accept` and the specific `accept_*` methods may be
/// called and must behave alike. The contract makes that obligation
/// precise: whichever path a caller takes, a successful call appends
/// exactly the corresponding event to the sink's abstract event history
/// `sunk()`. The default bodies of the specific methods forward to the
/// generic `accept`; an implementation may instead make the specific
/// methods primary and dispatch `accept` over them — the contract holds
/// either way.
pub trait EventSink: Sized {
    /// The events this sink has taken in, in order.
    spec fn sunk(&self) -> Seq<Event>;

    /// The well-formedness the sink maintains across calls.
    spec fn sink_wf(&self) -> bool;

    /// What one successful `accept` of the event guarantees about the
    /// sink's next state; each sink states its own transition relation.
    spec fn accept_rel(self, event: Event, post: Self) -> bool;

    fn accept(&mut self, event: Event) -> (r: Result<(), Error>)
        requires
            old(self).sink_wf(),
        ensures
            final(self).sink_wf(),
            r is Ok ==> final(self).sunk() == old(self).sunk().push(event),
            r is Ok ==> old(self).accept_rel(event, *final(self)),
    ;

    /// A `finish` call signals that no further events follow; buffered
    /// state may be flushed. It does not take in an event.
    fn finish(&mut self) -> (r: Result<(), Error>)
        requires
            old(self).sink_wf(),
        ensures
            final(self).sink_wf(),
            final(self).sunk() == old(self).sunk(),
    ;

    fn accept_start_sequence(&mut self) -> (r: Result<(), Error>)
        requires
            old(self).sink_wf(),
        ensures
            final(self).sink_wf(),
            r is Ok ==> final(self).sunk() == old(self).sunk().push(Event::StartSequence),
    {
        self.accept(Event::StartSequence)
    }

    fn accept_end_sequence(&mut self) -> (r: Result<(), Error>)
        requires
            old(self).sink_wf(),
        ensures
            final(self).sink_wf(),
            r is Ok ==> final(self).sunk() == old(self).sunk().push(Event::EndSequence),
    {
        self.accept(Event::EndSequence)
    }

    fn accept_start_tuple(&mut self) -> (r: Result<(), Error>)
        requires
            old(self).sink_wf(),
        ensures
            final(self).sink_wf(),
            r is Ok ==> final(self).sunk() == old(self).sunk().push(Event::StartTuple),
    {
        self.accept(Event::StartTuple)
    }

    fn accept_end_tuple(&mut self) -> (r: Result<(), Error>)
        requires
            old(self).sink_wf(),
        ensures
            final(self).sink_wf(),
            r is Ok ==> final(self).sunk() == old(self).sunk().push(Event::EndTuple),
    {
        self.accept(Event::EndTuple)
    }

    fn accept_start_struct(&mut self) -> (r: Result<(), Error>)
        requires
            old(self).sink_wf(),
        ensures
            final(self).sink_wf(),
            r is Ok ==> final(self).sunk() == old(self).sunk().push(Event::StartStruct),
    {
        self.accept(Event::StartStruct)
    }

    fn accept_end_struct(&mut self) -> (r: Result<(), Error>)
        requires
            old(self).sink_wf(),
        ensures
            final(self).sink_wf(),
            r is Ok ==> final(self).sunk() == old(self).sunk().push(Event::EndStruct),
    {
        self.accept(Event::EndStruct)
    }

    fn accept_start_map(&mut self) -> (r: Result<(), Error>)
        requires
            old(self).sink_wf(),
        ensures
            final(self).sink_wf(),
            r is Ok ==> final(self).sunk() == old(self).sunk().push(Event::StartMap),
    {
        self.accept(Event::StartMap)
    }

    fn accept_end_map(&mut self) -> (r: Result<(), Error>)
        requires
            old(self).sink_wf(),
        ensures
            final(self).sink_wf(),
            r is Ok ==> final(self).sunk() == old(self).sunk().push(Event::EndMap),
    {
        self.accept(Event::EndMap)
    }

    fn accept_item(&mut self) -> (r: Result<(), Error>)
        requires
            old(self).sink_wf(),
        ensures
            final(self).sink_wf(),
            r is Ok ==> final(self).sunk() == old(self).sunk().push(Event::Item),
    {
        self.accept(Event::Item)
    }

    fn accept_some(&mut self) -> (r: Result<(), Error>)
        requires
            old(self).sink_wf(),
        ensures
            final(self).sink_wf(),
            r is Ok ==> final(self).sunk() == old(self).sunk().push(Event::Present),
    {
        self.accept(Event::Present)
    }

    fn accept_null(&mut self) -> (r: Result<(), Error>)
        requires
            old(self).sink_wf(),
        ensures
            final(self).sink_wf(),
            r is Ok ==> final(self).sunk() == old(self).sunk().push(Event::Null),
    {
        self.accept(Event::Null)
    }

    fn accept_default(&mut self) -> (r: Result<(), Error>)
        requires
            old(self).sink_wf(),
        ensures
            final(self).sink_wf(),
            r is Ok ==> final(self).sunk() == old(self).sunk().push(Event::Default),
    {
        self.accept(Event::Default)
    }

    fn accept_str(&mut self, val: String) -> (r: Result<(), Error>)
        requires
            old(self).sink_wf(),
        ensures
            final(self).sink_wf(),
            r is Ok ==> final(self).sunk() == old(self).sunk().push(Event::Str(val)),
    {
        self.accept(Event::Str(val))
    }

    fn accept_variant(&mut self, name: String, idx: usize) -> (r: Result<(), Error>)
        requires
            old(self).sink_wf(),
        ensures
            final(self).sink_wf(),
            r is Ok ==> final(self).sunk() == old(self).sunk().push(Event::Variant(name, idx)),
    {
        self.accept(Event::Variant(name, idx))
    }

    fn accept_bool(&mut self, val: bool) -> (r: Result<(), Error>)
        requires
            old(self).sink_wf(),
        ensures
            final(self).sink_wf(),
            r is Ok ==> final(self).sunk() == old(self).sunk().push(Event::Bool(val)),
    {
        self.accept(Event::Bool(val))
    }

    fn accept_i8(&mut self, val: i8) -> (r: Result<(), Error>)
        requires
            old(self).sink_wf(),
        ensures
            final(self).sink_wf(),
            r is Ok ==> final(self).sunk() == old(self).sunk().push(Event::I8(val)),
    {
        self.accept(Event::I8(val))
    }

    fn accept_i16(&mut self, val: i16) -> (r: Result<(), Error>)
        requires
            old(self).sink_wf(),
        ensures
            final(self).sink_wf(),
            r is Ok ==> final(self).sunk() == old(self).sunk().push(Event::I16(val)),
    {
        self.accept(Event::I16(val))
    }

    fn accept_i32(&mut self, val: i32) -> (r: Result<(), Error>)
        requires
            old(self).sink_wf(),
        ensures
            final(self).sink_wf(),
            r is Ok ==> final(self).sunk() == old(self).sunk().push(Event::I32(val)),
    {
        self.accept(Event::I32(val))
    }

    fn accept_i64(&mut self, val: i64) -> (r: Result<(), Error>)
        requires
            old(self).sink_wf(),
        ensures
            final(self).sink_wf(),
            r is Ok ==> final(self).sunk() == old(self).sunk().push(Event::I64(val)),
    {
        self.accept(Event::I64(val))
    }

    fn accept_u8(&mut self, val: u8) -> (r: Result<(), Error>)
        requires
            old(self).sink_wf(),
        ensures
            final(self).sink_wf(),
            r is Ok ==> final(self).sunk() == old(self).sunk().push(Event::U8(val)),
    {
        self.accept(Event::U8(val))
    }

    fn accept_u16(&mut self, val: u16) -> (r: Result<(), Error>)
        requires
            old(self).sink_wf(),
        ensures
            final(self).sink_wf(),
            r is Ok ==> final(self).sunk() == old(self).sunk().push(Event::U16(val)),
    {
        self.accept(Event::U16(val))
    }

    fn accept_u32(&mut self, val: u32) -> (r: Result<(), Error>)
        requires
            old(self).sink_wf(),
        ensures
            final(self).sink_wf(),
            r is Ok ==> final(self).sunk() == old(self).sunk().push(Event::U32(val)),
    {
        self.accept(Event::U32(val))
    }

    fn accept_u64(&mut self, val: u64) -> (r: Result<(), Error>)
        requires
            old(self).sink_wf(),
        ensures
            final(self).sink_wf(),
            r is Ok ==> final(self).sunk() == old(self).sunk().push(Event::U64(val)),
    {
        self.accept(Event::U64(val))
    }

    /// Takes a 32-bit float as its IEEE-754 bit pattern.
    fn accept_f32(&mut self, bits: u32) -> (r: Result<(), Error>)
        requires
            old(self).sink_wf(),
        ensures
            final(self).sink_wf(),
            r is Ok ==> final(self).sunk() == old(self).sunk().push(Event::F32(bits)),
    {
        self.accept(Event::F32(bits))
    }

    /// Takes a 64-bit float as its IEEE-754 bit pattern.
    fn accept_f64(&mut self, bits: u64) -> (r: Result<(), Error>)
        requires
            old(self).sink_wf(),
        ensures
            final(self).sink_wf(),
            r is Ok ==> final(self).sunk() == old(self).sunk().push(Event::F64(bits)),
    {
        self.accept(Event::F64(bits))
    }
}

/// A sink that can also yield a finished array of type `A` and clear its
/// per-row buffers. Some builders retain internal state across builds —
/// a dictionary builder keeps its key mapping, so that separate chunks
/// of one logical column share consistent keys.
pub trait ArrayBuilder<A>: EventSink {
    /// The well-formedness the builder needs to build.
    spec fn builder_wf(&self) -> bool;

    fn build_array(&mut self) -> (r: Result<A, Error>)
        requires
            old(self).builder_wf(),
    ;
}

/// A sink that records the event stream itself: useful for inspecting
/// serialization output and for custom consumers.
pub struct EventRecorder {
    pub events: Vec<Event>,
}

impl EventRecorder {
    pub fn new() -> (r: Self)
        ensures
            r.sunk() == Seq::<Event>::empty(),
    {
        EventRecorder { events: Vec::new() }
    }

    pub fn into_inner(self) -> (r: Vec<Event>)
        ensures
            r@ == self.sunk(),
    {
        self.events
    }
}

impl EventSink for EventRecorder {
    open spec fn sunk(&self) -> Seq<Event> {
        self.events@
    }

    open spec fn sink_wf(&self) -> bool {
        true
    }

    open spec fn accept_rel(self, event: Event, post: Self) -> bool {
        post.events@ == self.events@.push(event)
    }

    fn accept(&mut self, event: Event) -> (r: Result<(), Error>)
        ensures
            r is Ok,
            final(self).sunk() == old(self).sunk().push(event),
            old(self).accept_rel(event, *final(self)),
    {
        self.events.push(event);
        Ok(())
    }

    fn finish(&mut self) -> (r: Result<(), Error>)
        ensures
            r is Ok,
            final(self).sunk() == old(self).sunk(),
    {
        Ok(())
    }
}

/// A pass-through sink wrapper; the hook where per-event tracing would be
/// attached while debugging a stream.
pub struct DebugSink<E> {
    pub wrapped: E,
}

impl<E: EventSink> DebugSink<E> {
    pub fn new(wrapped: E) -> (r: Self)
        ensures
            r.wrapped == wrapped,
    {
        DebugSink { wrapped }
    }

    pub fn into_inner(self) -> (r: E)
        ensures
            r == self.wrapped,
    {
        self.wrapped
    }
}

impl<E: EventSink> EventSink for DebugSink<E> {
    open spec fn sunk(&self) -> Seq<Event> {
        self.wrapped.sunk()
    }

    open spec fn sink_wf(&self) -> bool {
        self.wrapped.sink_wf()
    }

    open spec fn accept_rel(self, event: Event, post: Self) -> bool {
        self.wrapped.accept_rel(event, post.wrapped)
    }

    fn accept(&mut self, event: Event) -> (r: Result<(), Error>)
        ensures
            r is Ok ==> final(self).sunk() == old(self).sunk().push(event),
            r is Ok ==> old(self).accept_rel(event, *final(self)),
    {
        self.wrapped.accept(event)
    }

    fn finish(&mut self) -> (r: Result<(), Error>)
        ensures
            final(self).sunk() == old(self).sunk(),
    {
        self.wrapped.finish()
    }
}

/// The states of the outer-sequence stripper.
#[derive(Debug, Clone, Copy, PartialEq, Eq, Structural)]
pub enum StripState {
    /// Nothing seen yet: only the outer sequence start may come.
    WaitForStart,
    /// Between records: an item marker opens a record, an end marker
    /// closes the whole stream.
    WaitForItem,
    /// Inside a record, with the number of containers currently open.
    Item(usize),
}

/// One transition of the stripper's state machine: the next state and
/// whether the event is forwarded to the wrapped sink, or `None` when the
/// event is invalid in the current state.
pub open spec fn strip_step(state: StripState, e: Event) -> Option<(StripState, bool)> {
    if is_start_event(e) {
        match state {
            StripState::WaitForStart => Some((StripState::WaitForItem, false)),
            StripState::Item(depth) => if depth < usize::MAX {
                Some((StripState::Item((depth + 1) as usize), true))
            } else {
                None
            },
            _ => None,
        }
    } else if is_end_event(e) {
        match state {
            StripState::Item(depth) => if depth == 1 {
                Some((StripState::WaitForItem, true))
            } else if depth > 1 {
                Some((StripState::Item((depth - 1) as usize), true))
            } else {
                None
            },
            StripState::WaitForItem => Some((StripState::WaitForStart, false)),
            _ => None,
        }
    } else if is_value_event(e) {
        match state {
            StripState::Item(depth) => if depth == 0 {
                Some((StripState::WaitForItem, true))
            } else {
                Some((StripState::Item(depth), true))
            },
            _ => None,
        }
    } else {
        // A marker: an item marker between records opens the next record;
        // any marker inside a record is forwarded unchanged.
        match state {
            StripState::WaitForItem => if e is Item {
                Some((StripState::Item(0), false))
            } else {
                None
            },
            StripState::Item(depth) => Some((StripState::Item(depth), true)),
            _ => None,
        }
    }
}

/// Removes exactly one outer sequence from the event stream, so that a
/// sink expecting "N records, one after the other" can be fed from a
/// stream that represents "one sequence of N records". Item markers of
/// the outer sequence and the outer start/end pair are swallowed; all
/// events inside a record are forwarded unchanged.
pub struct StripOuterSequenceSink<E> {
    pub wrapped: E,
    pub state: StripState,
    pub received: Ghost<Seq<Event>>,
}

impl<E: EventSink> StripOuterSequenceSink<E> {
    pub fn new(wrapped: E) -> (r: Self)
        ensures
            r.wrapped == wrapped,
            r.state == StripState::WaitForStart,
            r.sunk() == Seq::<Event>::empty(),
    {
        StripOuterSequenceSink {
            wrapped,
            state: StripState::WaitForStart,
            received: Ghost(Seq::empty()),
        }
    }

    pub fn into_inner(self) -> (r: E)
        ensures
            r == self.wrapped,
    {
        self.wrapped
    }
}

impl<E: EventSink> EventSink for StripOuterSequenceSink<E> {
    open spec fn sunk(&self) -> Seq<Event> {
        self.received@
    }

    open spec fn sink_wf(&self) -> bool {
        self.wrapped.sink_wf()
    }

    open spec fn accept_rel(self, event: Event, post: Self) -> bool {
        match strip_step(self.state, event) {
            None => false,
            Some((s2, forwarded)) => {
                &&& post.state == s2
                &&& if forwarded {
                    self.wrapped.accept_rel(event, post.wrapped)
                } else {
                    post.wrapped == self.wrapped
                }
            },
        }
    }

    /// Feeds one event through the state machine. An event that is not
    /// allowed in the current state fails with an event-state error and
    /// changes nothing; a swallowed event advances only the state; a
    /// forwarded event is handed to the wrapped sink (whose own refusal
    /// leaves the state unchanged).
    fn accept(&mut self, event: Event) -> (r: Result<(), Error>)
        ensures
            r is Ok ==> old(self).accept_rel(event, *final(self)),
            match strip_step(old(self).state, event) {
                None => {
                    &&& r == Err::<(), Error>(Error::EventState)
                    &&& *final(self) == *old(self)
                },
                Some((s2, forwarded)) => {
                    &&& (r is Ok ==> final(self).state == s2)
                    &&& (r is Ok ==> if forwarded {
                        final(self).wrapped.sunk() == old(self).wrapped.sunk().push(event)
                    } else {
                        final(self).wrapped == old(self).wrapped
                    })
                    &&& (r is Err ==> final(self).state == old(self).state)
                    &&& (!forwarded ==> r is Ok)
                },
            },
    {
        match strip_try_step(self.state, &event) {
            None => Err(Error::EventState),
            Some((s2, forwarded)) => {
                if forwarded {
                    self.wrapped.accept(event)?;
                    self.state = s2;
                    proof {
                        self.received@ = self.received@.push(event);
                    }
                    Ok(())
                } else {
                    self.state = s2;
                    proof {
                        self.received@ = self.received@.push(event);
                    }
                    Ok(())
                }
            },
        }
    }

    fn finish(&mut self) -> (r: Result<(), Error>)
        ensures
            final(self).state == old(self).state,
            final(self).wrapped.sunk() == old(self).wrapped.sunk(),
    {
        self.wrapped.finish()
    }
}

/// The run of the stripper's machine over a whole stream: the final
/// state and the events forwarded to the wrapped sink, or nothing as
/// soon as one event is invalid for its state.
pub open spec fn strip_run(state: StripState, events: Seq<Event>) -> Option<
    (StripState, Seq<Event>),
>
    decreases events.len(),
{
    if events.len() == 0 {
        Some((state, Seq::empty()))
    } else {
        match strip_step(state, events[0]) {
            None => None,
            Some((s2, fwd)) => match strip_run(s2, events.drop_first()) {
                None => None,
                Some((s3, rest)) => Some(
                    (
                        s3,
                        if fwd {
                            seq![events[0]] + rest
                        } else {
                            rest
                        },
                    ),
                ),
            },
        }
    }
}

/// Extending a run by one event at the back: the run of the longer
/// stream is the run of the prefix followed by one step.
pub proof fn lemma_strip_run_snoc(s0: StripState, es: Seq<Event>, e: Event)
    ensures
        strip_run(s0, es.push(e)) == (match strip_run(s0, es) {
            None => None::<(StripState, Seq<Event>)>,
            Some((s1, f)) => match strip_step(s1, e) {
                None => None::<(StripState, Seq<Event>)>,
                Some((s2, fw)) => Some(
                    (
                        s2,
                        if fw {
                            f.push(e)
                        } else {
                            f
                        },
                    ),
                ),
            },
        }),
    decreases es.len(),
{
    reveal_with_fuel(strip_run, 3);
    if es.len() == 0 {
        assert(es.push(e)[0] == e);
        assert(es.push(e).drop_first() =~= Seq::<Event>::empty());
        match strip_step(s0, e) {
            None => {},
            Some((s2, fw)) => {
                if fw {
                    assert(seq![e] + Seq::<Event>::empty() =~= Seq::<Event>::empty().push(e));
                }
            },
        }
    } else {
        assert(es.push(e)[0] == es[0]);
        assert(es.push(e).drop_first() =~= es.drop_first().push(e));
        match strip_step(s0, es[0]) {
            None => {},
            Some((s2, fwd0)) => {
                lemma_strip_run_snoc(s2, es.drop_first(), e);
                match strip_run(s2, es.drop_first()) {
                    None => {},
                    Some((s3, rest)) => {
                        match strip_step(s3, e) {
                            None => {},
                            Some((s4, fw)) => {
                                if fwd0 && fw {
                                    assert(seq![es[0]] + rest.push(e) =~= (seq![es[0]]
                                        + rest).push(e));
                                }
                            },
                        }
                    },
                }
            },
        }
    }
}

/// One outer sequence of single-event records, as a caller frames it: an
/// item marker before each record event.
pub open spec fn framed_rows(rows: Seq<Event>) -> Seq<Event>
    decreases rows.len(),
{
    if rows.len() == 0 {
        Seq::empty()
    } else {
        seq![Event::Item, rows[0]] + framed_rows(rows.drop_first())
    }
}

/// Law: feeding the stripper one outer sequence that frames N
/// single-event records — a sequence start, an item marker before each
/// record, a sequence end — is accepted in full, forwards exactly the N
/// record events in order, and returns the machine to its initial
/// state. Only the outer framing is swallowed.
pub proof fn lemma_strip_outer_sequence(rows: Seq<Event>)
    requires
        forall|i: int| 0 <= i < rows.len() ==> is_value_event(#[trigger] rows[i]),
    ensures
        strip_run(
            StripState::WaitForStart,
            seq![Event::StartSequence] + framed_rows(rows) + seq![Event::EndSequence],
        ) == Some((StripState::WaitForStart, rows)),
{
    reveal_with_fuel(strip_run, 3);
    let stream = seq![Event::StartSequence] + framed_rows(rows) + seq![Event::EndSequence];
    assert(stream[0] == Event::StartSequence);
    assert(stream.drop_first() =~= framed_rows(rows) + seq![Event::EndSequence]);
    lemma_strip_items(rows);
}

/// The inductive heart of the law above, from the between-records state.
proof fn lemma_strip_items(rows: Seq<Event>)
    requires
        forall|i: int| 0 <= i < rows.len() ==> is_value_event(#[trigger] rows[i]),
    ensures
        strip_run(StripState::WaitForItem, framed_rows(rows) + seq![Event::EndSequence]) == Some(
            (StripState::WaitForStart, rows),
        ),
    decreases rows.len(),
{
    reveal_with_fuel(strip_run, 4);
    reveal_with_fuel(framed_rows, 2);
    let stream = framed_rows(rows) + seq![Event::EndSequence];
    if rows.len() == 0 {
        assert(stream =~= seq![Event::EndSequence]);
        assert(stream[0] == Event::EndSequence);
        assert(stream.drop_first() =~= Seq::<Event>::empty());
    } else {
        lemma_strip_items(rows.drop_first());
        assert(stream[0] == Event::Item);
        let after_item = stream.drop_first();
        assert(after_item =~= seq![rows[0]] + (framed_rows(rows.drop_first()) + seq![
            Event::EndSequence,
        ]));
        assert(after_item[0] == rows[0]);
        assert(is_value_event(rows[0]));
        assert(after_item.drop_first() =~= framed_rows(rows.drop_first()) + seq![
            Event::EndSequence,
        ]);
        assert(seq![rows[0]] + rows.drop_first() =~= rows);
    }
}

/// One transition of the stripper's machine, computed without a sink:
/// used to validate a whole stream's shape up front.
pub fn strip_try_step(state: StripState, event: &Event) -> (r: Option<(StripState, bool)>)
    ensures
        r == strip_step(state, *event),
{
    if event.is_start() {
        match state {
            StripState::WaitForStart => Some((StripState::WaitForItem, false)),
            StripState::Item(depth) => if depth < usize::MAX {
                Some((StripState::Item(depth + 1), true))
            } else {
                None
            },
            _ => None,
        }
    } else if event.is_end() {
        match state {
            StripState::Item(depth) => if depth == 1 {
                Some((StripState::WaitForItem, true))
            } else if depth > 1 {
                Some((StripState::Item(depth - 1), true))
            } else {
                None
            },
            StripState::WaitForItem => Some((StripState::WaitForStart, false)),
            _ => None,
        }
    } else if event.is_value() {
        match state {
            StripState::Item(depth) => if depth == 0 {
                Some((StripState::WaitForItem, true))
            } else {
                Some((state, true))
            },
            _ => None,
        }
    } else {
        match state {
            StripState::WaitForItem => if matches!(event, Event::Item) {
                Some((StripState::Item(0), false))
            } else {
                None
            },
            StripState::Item(_) => Some((state, true)),
            _ => None,
        }
    }
}

/// Splitting a run at any point: the run of the whole stream is the run
/// of the first part continued through the second.
pub proof fn lemma_strip_run_append(s0: StripState, a: Seq<Event>, b: Seq<Event>)
    ensures
        strip_run(s0, a + b) == (match strip_run(s0, a) {
            None => None::<(StripState, Seq<Event>)>,
            Some((s1, f)) => match strip_run(s1, b) {
                None => None::<(StripState, Seq<Event>)>,
                Some((s2, g)) => Some((s2, f + g)),
            },
        }),
    decreases a.len(),
{
    reveal_with_fuel(strip_run, 3);
    if a.len() == 0 {
        assert(a + b =~= b);
        match strip_run(s0, b) {
            None => {},
            Some((s2, g)) => {
                assert(Seq::<Event>::empty() + g =~= g);
            },
        }
    } else {
        assert((a + b)[0] == a[0]);
        assert((a + b).drop_first() =~= a.drop_first() + b);
        match strip_step(s0, a[0]) {
            None => {},
            Some((s1, fwd0)) => {
                lemma_strip_run_append(s1, a.drop_first(), b);
                match strip_run(s1, a.drop_first()) {
                    None => {},
                    Some((s2, f)) => {
                        match strip_run(s2, b) {
                            None => {},
                            Some((s3, g)) => {
                                if fwd0 {
                                    assert(seq![a[0]] + (f + g) =~= (seq![a[0]] + f) + g);
                                }
                            },
                        }
                    },
                }
            },
        }
    }
}

/// Whether a stream represents one well-formed outer sequence of
/// records, as the stripper's machine accepts it from its initial state.
pub open spec fn spec_stream_valid(events: Seq<Event>) -> bool {
    strip_run(StripState::WaitForStart, events) is Some
}

/// Validates a whole stream's shape against the stripper's machine,
/// without feeding anything.
pub fn validate_stream(events: &Vec<Event>) -> (r: bool)
    ensures
        r == spec_stream_valid(events@),
{
    let ghost all = events@;
    let mut st = StripState::WaitForStart;
    let mut i: usize = 0;
    proof {
        assert(all.take(0) =~= Seq::<Event>::empty());
    }
    while i < events.len()
        invariant
            i <= all.len(),
            all == events@,
            match strip_run(StripState::WaitForStart, all.take(i as int)) {
                Some((s1, _)) => s1 == st,
                None => false,
            },
        decreases all.len() - i,
    {
        match strip_try_step(st, &events[i]) {
            Some((s2, _)) => {
                proof {
                    lemma_strip_run_snoc(StripState::WaitForStart, all.take(i as int), all[i as int]);
                    assert(all.take(i + 1) =~= all.take(i as int).push(all[i as int]));
                }
                st = s2;
            },
            None => {
                proof {
                    let rest = all.skip(i as int);
                    assert(all =~= all.take(i as int) + rest);
                    lemma_strip_run_append(StripState::WaitForStart, all.take(i as int), rest);
                    assert(rest[0] == all[i as int]);
                }
                return false;
            },
        }
        i += 1;
    }
    proof {
        assert(all.take(all.len() as int) =~= all);
    }
    true
}

} // verus!
