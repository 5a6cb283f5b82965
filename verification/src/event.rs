use vstd::prelude::*;

verus! {

/// An event delivered to a plugin, timed by its sample offset within the block.
///
/// `V` is the type of the continuous quantities an event carries (velocity, gain,
/// pan, tuning, parameter values); the timing and addressing logic does not depend on it.
/// Notes are addressed by `(channel, key, note_id)`; `None` is a wildcard.
#[derive(Clone, Copy, Debug)]
pub enum Event<V> {
    NoteOn { sample_offset: usize, channel: u8, note_id: Option<u32>, key: u8, velocity: V },
    NoteOff {
        sample_offset: usize,
        channel: Option<u8>,
        note_id: Option<u32>,
        key: Option<u8>,
        velocity: V,
    },
    PolyVolume {
        sample_offset: usize,
        channel: Option<u8>,
        note_id: Option<u32>,
        key: Option<u8>,
        gain: V,
    },
    PolyPressure {
        sample_offset: usize,
        channel: Option<u8>,
        note_id: Option<u32>,
        key: Option<u8>,
        value: V,
    },
    PolyPan {
        sample_offset: usize,
        channel: Option<u8>,
        note_id: Option<u32>,
        key: Option<u8>,
        pan: V,
    },
    PolyTuning {
        sample_offset: usize,
        channel: Option<u8>,
        note_id: Option<u32>,
        key: Option<u8>,
        semitones: V,
    },
    PolyVibrato {
        sample_offset: usize,
        channel: Option<u8>,
        note_id: Option<u32>,
        key: Option<u8>,
        amount: V,
    },
    PolyExpression {
        sample_offset: usize,
        channel: Option<u8>,
        note_id: Option<u32>,
        key: Option<u8>,
        amount: V,
    },
    PolyBrightness {
        sample_offset: usize,
        channel: Option<u8>,
        note_id: Option<u32>,
        key: Option<u8>,
        amount: V,
    },
    MidiPitchBend { sample_offset: usize, channel: u8, semitones: V },
    MidiChannelPressure { sample_offset: usize, channel: u8, value: V },
    MidiPolyPressure { sample_offset: usize, channel: u8, key: u8, value: V },
    MidiProgramChange { sample_offset: usize, channel: u8, program: u8 },
    MidiControlChange { sample_offset: usize, channel: u8, controller: u8, value: V },
    ParameterValue { sample_offset: usize, id: u32, value: V },
    ParameterModulation { sample_offset: usize, id: u32, amount: V },
}

/// The sample offset at which an event takes effect.
pub open spec fn offset_of<V>(event: Event<V>) -> usize {
    match event {
        Event::NoteOn { sample_offset, .. } => sample_offset,
        Event::NoteOff { sample_offset, .. } => sample_offset,
        Event::PolyVolume { sample_offset, .. } => sample_offset,
        Event::PolyPressure { sample_offset, .. } => sample_offset,
        Event::PolyPan { sample_offset, .. } => sample_offset,
        Event::PolyTuning { sample_offset, .. } => sample_offset,
        Event::PolyVibrato { sample_offset, .. } => sample_offset,
        Event::PolyExpression { sample_offset, .. } => sample_offset,
        Event::PolyBrightness { sample_offset, .. } => sample_offset,
        Event::MidiPitchBend { sample_offset, .. } => sample_offset,
        Event::MidiChannelPressure { sample_offset, .. } => sample_offset,
        Event::MidiPolyPressure { sample_offset, .. } => sample_offset,
        Event::MidiProgramChange { sample_offset, .. } => sample_offset,
        Event::MidiControlChange { sample_offset, .. } => sample_offset,
        Event::ParameterValue { sample_offset, .. } => sample_offset,
        Event::ParameterModulation { sample_offset, .. } => sample_offset,
    }
}

/// Parameter value and modulation events are the ones at which a signal is split.
pub open spec fn is_parameter_event<V>(event: Event<V>) -> bool {
    event is ParameterValue || event is ParameterModulation
}

impl<V> Event<V> {
    pub fn sample_offset(&self) -> (offset: usize)
        ensures
            offset == offset_of(*self),
    {
        match self {
            Event::NoteOn { sample_offset, .. } => *sample_offset,
            Event::NoteOff { sample_offset, .. } => *sample_offset,
            Event::PolyVolume { sample_offset, .. } => *sample_offset,
            Event::PolyPressure { sample_offset, .. } => *sample_offset,
            Event::PolyPan { sample_offset, .. } => *sample_offset,
            Event::PolyTuning { sample_offset, .. } => *sample_offset,
            Event::PolyVibrato { sample_offset, .. } => *sample_offset,
            Event::PolyExpression { sample_offset, .. } => *sample_offset,
            Event::PolyBrightness { sample_offset, .. } => *sample_offset,
            Event::MidiPitchBend { sample_offset, .. } => *sample_offset,
            Event::MidiChannelPressure { sample_offset, .. } => *sample_offset,
            Event::MidiPolyPressure { sample_offset, .. } => *sample_offset,
            Event::MidiProgramChange { sample_offset, .. } => *sample_offset,
            Event::MidiControlChange { sample_offset, .. } => *sample_offset,
            Event::ParameterValue { sample_offset, .. } => *sample_offset,
            Event::ParameterModulation { sample_offset, .. } => *sample_offset,
        }
    }

    /// Splits a signal of `signal_len` samples at the parameter events among `events`.
    pub fn split_signal_at_events(signal_len: usize, events: Vec<Event<V>>) -> (splitter:
        SignalSplitter<V>) where V: Copy
        ensures
            splitter.wf(),
            splitter.events() == events@,
            splitter.position() == 0,
            splitter.signal_len() == signal_len,
            splitter.offset() == 0,
            splitter.splits_ahead_in_order(),
    {
        SignalSplitter::new(signal_len, events)
    }

    pub fn is_parameter_event(&self) -> (b: bool)
        ensures
            b == is_parameter_event(*self),
    {
        match self {
            Event::ParameterValue { .. } | Event::ParameterModulation { .. } => true,
            _ => false,
        }
    }
}


/// Index of the first parameter event at or after `from`, if any.
pub open spec fn first_parameter_event<V>(events: Seq<Event<V>>, from: int) -> Option<int>
    decreases events.len() - from,
{
    if from < 0 || from >= events.len() {
        None
    } else if is_parameter_event(events[from]) {
        Some(from)
    } else {
        first_parameter_event(events, from + 1)
    }
}

/// The sample offset at which a signal of `len` samples is split for an event.
pub open spec fn split_point<V>(event: Event<V>, len: usize) -> usize {
    if offset_of(event) < len {
        offset_of(event)
    } else {
        len
    }
}

/// Parameter events come with non-decreasing split points from `from` on.
pub open spec fn parameter_events_ordered<V>(events: Seq<Event<V>>, len: usize, from: int) -> bool {
    forall|i: int, j: int|
        from <= i < j < events.len() && is_parameter_event(#[trigger] events[i])
            && is_parameter_event(#[trigger] events[j]) ==> split_point(events[i], len)
            <= split_point(events[j], len)
}

/// Splits a signal of `signal_len` samples into consecutive pieces, one ending at each
/// parameter event (the event that closes the piece comes with it) and a last piece,
/// without event, up to the end of the signal. Other events are passed over.
pub struct SignalSplitter<V> {
    events: Vec<Event<V>>,
    position: usize,
    signal_len: usize,
    offset: usize,
}

impl<V: Copy> SignalSplitter<V> {
    pub closed spec fn events(&self) -> Seq<Event<V>> {
        self.events@
    }

    /// How many events have been taken from the event list.
    pub closed spec fn position(&self) -> int {
        self.position as int
    }

    pub closed spec fn signal_len(&self) -> usize {
        self.signal_len
    }

    /// Where the next piece starts.
    pub closed spec fn offset(&self) -> usize {
        self.offset
    }

    pub open spec fn wf(&self) -> bool {
        &&& self.offset() <= self.signal_len()
        &&& 0 <= self.position() <= self.events().len()
    }

    /// No parameter event still to come splits before the current piece starts.
    pub open spec fn splits_ahead_in_order(&self) -> bool {
        forall|j: int|
            self.position() <= j < self.events().len() && is_parameter_event(
                #[trigger] self.events()[j],
            ) ==> split_point(self.events()[j], self.signal_len()) >= self.offset()
    }

    /// The next parameter event does not split before the current piece starts.
    pub open spec fn next_split_in_order(&self) -> bool {
        match first_parameter_event(self.events(), self.position()) {
            Some(i) => split_point(self.events()[i], self.signal_len()) >= self.offset(),
            None => true,
        }
    }

    pub fn new(signal_len: usize, events: Vec<Event<V>>) -> (splitter: Self)
        ensures
            splitter.wf(),
            splitter.events() == events@,
            splitter.position() == 0,
            splitter.signal_len() == signal_len,
            splitter.offset() == 0,
            splitter.splits_ahead_in_order(),
    {
        SignalSplitter { events, position: 0, signal_len, offset: 0 }
    }

    /// The next piece `(start, end, event)`: the samples `start..end` and the parameter
    /// event at `end`, or `None` for the last piece.
    pub fn next(&mut self) -> (piece: Option<(usize, usize, Option<Event<V>>)>)
        requires
            old(self).wf(),
            old(self).next_split_in_order(),
        ensures
            final(self).wf(),
            final(self).events() == old(self).events(),
            final(self).signal_len() == old(self).signal_len(),
            parameter_events_ordered(old(self).events(), old(self).signal_len(), 0)
                && old(self).splits_ahead_in_order() ==> final(self).splits_ahead_in_order(),
            match first_parameter_event(old(self).events(), old(self).position()) {
                Some(i) => {
                    &&& piece == Some(
                        (
                            old(self).offset(),
                            split_point(old(self).events()[i], old(self).signal_len()),
                            Some(old(self).events()[i]),
                        ),
                    )
                    &&& final(self).position() == i + 1
                    &&& final(self).offset() == split_point(
                        old(self).events()[i],
                        old(self).signal_len(),
                    )
                },
                None => {
                    &&& final(self).position() == old(self).events().len()
                    &&& final(self).offset() == old(self).signal_len()
                    &&& if old(self).offset() < old(self).signal_len() {
                        piece == Some((old(self).offset(), old(self).signal_len(), None::<Event<V>>))
                    } else {
                        piece is None
                    }
                },
            },
    {
        loop
            invariant
                self.wf(),
                self.events() == old(self).events(),
                self.signal_len() == old(self).signal_len(),
                self.offset() == old(self).offset(),
                old(self).position() <= self.position(),
                first_parameter_event(self.events(), self.position()) == first_parameter_event(
                    old(self).events(),
                    old(self).position(),
                ),
            decreases self.events@.len() - self.position,
        {
            if self.position >= self.events.len() {
                if self.offset < self.signal_len {
                    let start = self.offset;
                    self.offset = self.signal_len;
                    return Some((start, self.signal_len, None));
                } else {
                    return None;
                }
            }
            let event = self.events[self.position];
            self.position = self.position + 1;
            if event.is_parameter_event() {
                let event_offset = event.sample_offset();
                let split = if event_offset < self.signal_len {
                    event_offset
                } else {
                    self.signal_len
                };
                let start = self.offset;
                self.offset = split;
                return Some((start, split, Some(event)));
            }
        }
    }
}

/// Splitting never goes back: while no parameter event still to come splits before
/// the current piece starts (which `new` establishes and `next` keeps for events in order
/// of their split points), `next` meets its precondition.
pub proof fn lemma_ordered_events_split_in_order<V: Copy>(splitter: SignalSplitter<V>)
    requires
        splitter.wf(),
        splitter.splits_ahead_in_order(),
    ensures
        splitter.next_split_in_order(),
{
    lemma_first_parameter_event_is_parameter_event(splitter.events(), splitter.position());
}

pub proof fn lemma_first_parameter_event_is_parameter_event<V>(events: Seq<Event<V>>, from: int)
    requires
        0 <= from,
    ensures
        first_parameter_event(events, from) matches Some(i) ==> {
            &&& from <= i < events.len()
            &&& is_parameter_event(events[i])
            &&& forall|j: int| from <= j < i ==> !is_parameter_event(#[trigger] events[j])
        },
        first_parameter_event(events, from) is None ==> forall|j: int|
            from <= j < events.len() ==> !is_parameter_event(#[trigger] events[j]),
    decreases events.len() - from,
{
    if from < 0 || from >= events.len() {
    } else if is_parameter_event(events[from]) {
    } else {
        lemma_first_parameter_event_is_parameter_event(events, from + 1);
    }
}

/// The parameter events among the first `n` events, in order.
pub open spec fn parameter_events_upto<V>(events: Seq<Event<V>>, n: int) -> Seq<Event<V>>
    decreases n,
{
    if n <= 0 {
        Seq::empty()
    } else {
        parameter_events_upto(events, n - 1) + if is_parameter_event(events[n - 1]) {
            seq![events[n - 1]]
        } else {
            Seq::empty()
        }
    }
}

/// The events that close the pieces, in order.
pub open spec fn closing_events<V>(pieces: Seq<(usize, usize, Option<Event<V>>)>) -> Seq<Event<V>>
    decreases pieces.len(),
{
    if pieces.len() == 0 {
        Seq::empty()
    } else {
        closing_events(pieces.drop_last()) + match pieces.last().2 {
            Some(e) => seq![e],
            None => Seq::empty(),
        }
    }
}

/// Pieces that follow one another from the start of a signal of `len` samples, each
/// within it.
pub open spec fn pieces_follow_on<V>(pieces: Seq<(usize, usize, Option<Event<V>>)>, len: usize) -> bool {
    &&& pieces.len() > 0 ==> pieces[0].0 == 0
    &&& forall|k: int| 0 < k < pieces.len() ==> (#[trigger] pieces[k]).0 == pieces[k - 1].1
    &&& forall|k: int| 0 <= k < pieces.len() ==> (#[trigger] pieces[k]).0 <= pieces[k].1 <= len
}

proof fn lemma_no_parameter_events_between<V>(events: Seq<Event<V>>, a: int, b: int)
    requires
        0 <= a <= b <= events.len(),
        forall|j: int| a <= j < b ==> !is_parameter_event(#[trigger] events[j]),
    ensures
        parameter_events_upto(events, b) == parameter_events_upto(events, a),
    decreases b - a,
{
    if b > a {
        lemma_no_parameter_events_between(events, a, b - 1);
        assert(!is_parameter_event(events[b - 1]));
        assert(parameter_events_upto(events, b - 1) + Seq::<Event<V>>::empty() == parameter_events_upto(
            events,
            b - 1,
        ));
    }
}

/// Splits a whole signal of `signal_len` samples at its parameter events. For events
/// in order of their split points, the pieces follow on from the start of the signal to
/// its end, and each parameter event closes exactly one piece, in the events' order; only
/// the last piece may come without an event, and only when samples are left after the
/// last split.
pub fn split_signal<V: Copy>(signal_len: usize, events: Vec<Event<V>>) -> (pieces: Vec<(usize, usize, Option<Event<V>>)>)
    requires
        parameter_events_ordered(events@, signal_len, 0),
    ensures
        pieces_follow_on(pieces@, signal_len),
        pieces@.len() > 0 ==> pieces@.last().1 == signal_len,
        pieces@.len() == 0 ==> signal_len == 0,
        closing_events(pieces@) == parameter_events_upto(events@, events@.len() as int),
        forall|k: int| 0 <= k < pieces@.len() - 1 ==> (#[trigger] pieces@[k]).2 is Some,
        forall|k: int|
            0 <= k < pieces@.len() ==> ((#[trigger] pieces@[k]).2 matches Some(e) ==> pieces@[k].1
                == split_point(e, signal_len)),
        forall|k: int|
            0 <= k < pieces@.len() ==> ((#[trigger] pieces@[k]).2 is None ==> pieces@[k].0 < pieces@[k].1),
{
    let ghost all = events@;
    let mut splitter = SignalSplitter::new(signal_len, events);
    let mut pieces: Vec<(usize, usize, Option<Event<V>>)> = Vec::new();
    loop
        invariant_except_break
            splitter.wf(),
            splitter.events() == all,
            splitter.signal_len() == signal_len,
            parameter_events_ordered(all, signal_len, 0),
            splitter.splits_ahead_in_order(),
            pieces_follow_on(pieces@, signal_len),
            pieces@.len() > 0 ==> pieces@.last().1 == splitter.offset(),
            pieces@.len() == 0 ==> splitter.offset() == 0,
            closing_events(pieces@) == parameter_events_upto(all, splitter.position()),
            forall|k: int| 0 <= k < pieces@.len() ==> (#[trigger] pieces@[k]).2 is Some,
            forall|k: int|
                0 <= k < pieces@.len() ==> ((#[trigger] pieces@[k]).2 matches Some(e) ==> pieces@[k].1
                    == split_point(e, signal_len)),
        ensures
            pieces_follow_on(pieces@, signal_len),
            pieces@.len() > 0 ==> pieces@.last().1 == signal_len,
            pieces@.len() == 0 ==> signal_len == 0,
            closing_events(pieces@) == parameter_events_upto(all, all.len() as int),
            forall|k: int| 0 <= k < pieces@.len() - 1 ==> (#[trigger] pieces@[k]).2 is Some,
            forall|k: int|
                0 <= k < pieces@.len() ==> ((#[trigger] pieces@[k]).2 matches Some(e) ==> pieces@[k].1
                    == split_point(e, signal_len)),
            forall|k: int|
                0 <= k < pieces@.len() ==> ((#[trigger] pieces@[k]).2 is None ==> pieces@[k].0
                    < pieces@[k].1),
        decreases (all.len() - splitter.position()) * 2 + if splitter.offset() < signal_len {
            1int
        } else {
            0int
        },
    {
        let ghost pos = splitter.position();
        let ghost before = pieces@;
        proof {
            lemma_ordered_events_split_in_order(splitter);
            lemma_first_parameter_event_is_parameter_event(all, pos);
        }
        match splitter.next() {
            Some(piece) => {
                pieces.push(piece);
                proof {
                    assert(pieces@.drop_last() == before);
                    match first_parameter_event(all, pos) {
                        Some(i) => {
                            lemma_no_parameter_events_between(all, pos, i);
                            assert(closing_events(pieces@) == closing_events(before) + seq![all[i]]);
                            assert(parameter_events_upto(all, i + 1) == parameter_events_upto(all, i)
                                + seq![all[i]]);
                        },
                        None => {
                            lemma_no_parameter_events_between(all, pos, all.len() as int);
                            assert(closing_events(pieces@) == closing_events(before) + Seq::<
                                Event<V>,
                            >::empty());
                        },
                    }
                }
                if piece.2.is_none() {
                    proof {
                        assert forall|k: int| 0 <= k < pieces@.len() - 1 implies (
                        #[trigger] pieces@[k]).2 is Some by {
                            assert(pieces@[k] == before[k]);
                        }
                        assert forall|k: int|
                            0 <= k < pieces@.len() implies ((#[trigger] pieces@[k]).2 matches Some(e)
                            ==> pieces@[k].1 == split_point(e, signal_len)) by {
                            if k < before.len() {
                                assert(pieces@[k] == before[k]);
                            }
                        }
                        assert forall|k: int|
                            0 <= k < pieces@.len() implies ((#[trigger] pieces@[k]).2 is None
                            ==> pieces@[k].0 < pieces@[k].1) by {
                            if k < before.len() {
                                assert(pieces@[k] == before[k]);
                            }
                        }
                    }
                    break;
                }
            },
            None => {
                proof {
                    lemma_no_parameter_events_between(all, pos, all.len() as int);
                }
                break;
            },
        }
    }
    pieces
}

} // verus!
