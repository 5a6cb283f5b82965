use vstd::prelude::*;
use crate::event::Event;

verus! {

/// The size of the block that starts at `offset`: as much as is left, but no more than
/// the largest block.
pub open spec fn chunk_size_at(frame_count: usize, max_block_size: usize, offset: int) -> int {
    if frame_count - offset < max_block_size {
        frame_count - offset
    } else {
        max_block_size as int
    }
}

/// Blocks that cover `0..frame_count` one after another, each as large as it may be.
pub open spec fn covers_in_blocks(chunks: Seq<(usize, usize)>, frame_count: usize, max_block_size: usize) -> bool {
    &&& forall|k: int| 0 <= k < chunks.len() ==> (#[trigger] chunks[k]).0 < frame_count
    &&& forall|k: int|
        0 <= k < chunks.len() ==> (#[trigger] chunks[k]).1 == chunk_size_at(
            frame_count,
            max_block_size,
            chunks[k].0 as int,
        )
    &&& chunks.len() > 0 ==> chunks[0].0 == 0
    &&& forall|k: int| 0 < k < chunks.len() ==> (#[trigger] chunks[k]).0 == chunks[k - 1].0 + chunks[k - 1].1
    &&& chunks.len() == 0 ==> frame_count == 0
    &&& chunks.len() > 0 ==> chunks.last().0 + chunks.last().1 == frame_count
}

/// The `(offset, size)` blocks in which an audio callback of `frame_count` frames is
/// processed, so that the processor never gets more than `max_block_size` frames.
pub fn block_chunks(frame_count: usize, max_block_size: usize) -> (chunks: Vec<(usize, usize)>)
    requires
        max_block_size > 0,
    ensures
        covers_in_blocks(chunks@, frame_count, max_block_size),
{
    let mut chunks: Vec<(usize, usize)> = Vec::new();
    let mut frame_offset: usize = 0;
    while frame_offset < frame_count
        invariant
            max_block_size > 0,
            frame_offset <= frame_count,
            forall|k: int| 0 <= k < chunks@.len() ==> (#[trigger] chunks@[k]).0 < frame_count,
            forall|k: int|
                0 <= k < chunks@.len() ==> (#[trigger] chunks@[k]).1 == chunk_size_at(
                    frame_count,
                    max_block_size,
                    chunks@[k].0 as int,
                ),
            chunks@.len() > 0 ==> chunks@[0].0 == 0,
            forall|k: int| 0 < k < chunks@.len() ==> (#[trigger] chunks@[k]).0 == chunks@[k - 1].0 + chunks@[k - 1].1,
            chunks@.len() == 0 ==> frame_offset == 0,
            chunks@.len() > 0 ==> chunks@.last().0 + chunks@.last().1 == frame_offset,
        decreases frame_count - frame_offset,
    {
        let left = frame_count - frame_offset;
        let chunk_size = if left < max_block_size {
            left
        } else {
            max_block_size
        };
        chunks.push((frame_offset, chunk_size));
        frame_offset = frame_offset + chunk_size;
    }
    chunks
}

/// The blocks in which plugin `P` processes an audio callback of `frame_count` frames.
pub fn plugin_block_chunks<P: crate::plugin::StandalonePlugin>(frame_count: usize) -> (chunks: Vec<(usize, usize)>)
    requires
        P::MAX_BLOCK_SIZE > 0,
    ensures
        covers_in_blocks(chunks@, frame_count, P::MAX_BLOCK_SIZE),
{
    block_chunks(frame_count, P::MAX_BLOCK_SIZE)
}

/// Where sample `frame` of channel `ch` lies in an interleaved buffer.
pub open spec fn interleaved_index(frame: int, channels: int, ch: int) -> int {
    frame * channels + ch
}

proof fn lemma_index_in_bounds(frame: int, size: int, channels: int, ch: int)
    requires
        0 <= frame < size,
        0 <= ch < channels,
    ensures
        0 <= interleaved_index(frame, channels, ch) < size * channels,
{
    assert(frame * channels + ch < size * channels) by (nonlinear_arith)
        requires
            0 <= frame < size,
            0 <= ch < channels,
    ;
    assert(0 <= frame * channels) by (nonlinear_arith)
        requires
            0 <= frame,
            0 <= ch < channels,
    ;
}

proof fn lemma_index_distinct(f1: int, c1: int, f2: int, c2: int, channels: int)
    requires
        0 <= c1 < channels,
        0 <= c2 < channels,
        0 <= f1,
        0 <= f2,
        interleaved_index(f1, channels, c1) == interleaved_index(f2, channels, c2),
    ensures
        f1 == f2,
        c1 == c2,
{
    if f1 < f2 {
        assert(f1 * channels + c1 < f2 * channels + c2) by (nonlinear_arith)
            requires
                f1 < f2,
                0 <= c1 < channels,
                0 <= c2,
        ;
    } else if f2 < f1 {
        assert(f2 * channels + c2 < f1 * channels + c1) by (nonlinear_arith)
            requires
                f2 < f1,
                0 <= c2 < channels,
                0 <= c1,
        ;
    }
}

/// Splits frames `offset .. offset + size` of an interleaved buffer into one sequence of
/// samples per channel.
pub fn deinterleave<T: Copy>(data: &[T], channels: usize, offset: usize, size: usize) -> (block: Vec<Vec<T>>)
    requires
        (offset + size) * channels <= data@.len(),
    ensures
        block@.len() == channels,
        forall|ch: int| 0 <= ch < channels ==> (#[trigger] block@[ch])@.len() == size,
        forall|ch: int, f: int|
            0 <= ch < channels && 0 <= f < size ==> (#[trigger] block@[ch]@[f]) == data@[interleaved_index(
                offset + f,
                channels as int,
                ch,
            )],
{
    let len = data.len();
    let mut block: Vec<Vec<T>> = Vec::new();
    let mut ch: usize = 0;
    while ch < channels
        invariant
            0 <= ch <= channels,
            len == data@.len(),
            (offset + size) * channels <= data@.len(),
            block@.len() == ch,
            forall|c: int| 0 <= c < ch ==> (#[trigger] block@[c])@.len() == size,
            forall|c: int, f: int|
                0 <= c < ch && 0 <= f < size ==> (#[trigger] block@[c]@[f]) == data@[interleaved_index(
                    offset + f,
                    channels as int,
                    c,
                )],
        decreases channels - ch,
    {
        let mut samples: Vec<T> = Vec::new();
        let mut f: usize = 0;
        while f < size
            invariant
                0 <= f <= size,
                ch < channels,
                len == data@.len(),
                (offset + size) * channels <= data@.len(),
                samples@.len() == f,
                forall|g: int|
                    0 <= g < f ==> (#[trigger] samples@[g]) == data@[interleaved_index(
                        offset + g,
                        channels as int,
                        ch as int,
                    )],
            decreases size - f,
        {
            proof {
                lemma_index_in_bounds(offset + f, offset + size, channels as int, ch as int);
                assert(offset + f <= (offset + f) * channels) by (nonlinear_arith)
                    requires
                        ch < channels,
                ;
            }
            samples.push(data[(offset + f) * channels + ch]);
            f = f + 1;
        }
        block.push(samples);
        ch = ch + 1;
    }
    block
}

/// Writes one sequence of samples per channel back into frames `offset .. offset + size`
/// of an interleaved buffer; the rest of the buffer is left as it was.
pub fn interleave<T: Copy>(data: &mut Vec<T>, channels: usize, offset: usize, size: usize, block: &Vec<Vec<T>>)
    requires
        (offset + size) * channels <= old(data)@.len(),
        block@.len() == channels,
        forall|ch: int| 0 <= ch < channels ==> (#[trigger] block@[ch])@.len() == size,
    ensures
        final(data)@.len() == old(data)@.len(),
        forall|ch: int, f: int|
            0 <= ch < channels && 0 <= f < size ==> final(data)@[interleaved_index(
                offset + f,
                channels as int,
                ch,
            )] == (#[trigger] block@[ch]@[f]),
        forall|i: int|
            0 <= i < old(data)@.len() && !(offset * channels <= i < (offset + size) * channels)
                ==> #[trigger] final(data)@[i] == old(data)@[i],
{
    let ghost initial = data@;
    let len = data.len();
    proof {
        assert(offset * channels <= (offset + size) * channels) by (nonlinear_arith);
    }
    let mut index: usize = offset * channels;
    let mut f: usize = 0;
    while f < size
        invariant
            0 <= f <= size,
            (offset + size) * channels <= initial.len(),
            index == (offset + f) * channels,
            len == initial.len(),
            data@.len() == initial.len(),
            block@.len() == channels,
            forall|ch: int| 0 <= ch < channels ==> (#[trigger] block@[ch])@.len() == size,
            forall|ch: int, g: int|
                0 <= ch < channels && 0 <= g < f ==> data@[interleaved_index(
                    offset + g,
                    channels as int,
                    ch,
                )] == (#[trigger] block@[ch]@[g]),
            forall|i: int|
                0 <= i < initial.len() && !(offset * channels <= i < index) ==> #[trigger] data@[i]
                    == initial[i],
        decreases size - f,
    {
        let mut ch: usize = 0;
        while ch < channels
            invariant
                0 <= ch <= channels,
                f < size,
                (offset + size) * channels <= initial.len(),
                index == (offset + f) * channels + ch,
                len == initial.len(),
                data@.len() == initial.len(),
                block@.len() == channels,
                forall|c: int| 0 <= c < channels ==> (#[trigger] block@[c])@.len() == size,
                forall|c: int, g: int|
                    0 <= c < channels && 0 <= g < f ==> data@[interleaved_index(
                        offset + g,
                        channels as int,
                        c,
                    )] == (#[trigger] block@[c]@[g]),
                forall|c: int|
                    0 <= c < ch ==> data@[interleaved_index(offset + f, channels as int, c)] == (
                    #[trigger] block@[c]@[f as int]),
                forall|i: int|
                    0 <= i < initial.len() && !(offset * channels <= i < index) ==> #[trigger] data@[i]
                        == initial[i],
            decreases channels - ch,
        {
            proof {
                lemma_index_in_bounds(offset + f, offset + size, channels as int, ch as int);
                assert(offset * channels <= (offset + f) * channels) by (nonlinear_arith)
                    requires
                        f >= 0,
                ;
            }
            let sample = block[ch][f];
            let ghost before = data@;
            data.set(index, sample);
            proof {
                assert forall|c: int, g: int|
                    0 <= c < channels && 0 <= g < f implies data@[interleaved_index(
                        offset + g,
                        channels as int,
                        c,
                    )] == (#[trigger] block@[c]@[g]) by {
                    lemma_index_in_bounds(offset + g, offset + size, channels as int, c);
                    if interleaved_index(offset + g, channels as int, c) == index {
                        lemma_index_distinct(offset + g, c, offset + f, ch as int, channels as int);
                    }
                    assert(before[interleaved_index(offset + g, channels as int, c)] == block@[c]@[g]);
                }
                assert forall|c: int|
                    0 <= c < ch + 1 implies data@[interleaved_index(offset + f, channels as int, c)] == (
                    #[trigger] block@[c]@[f as int]) by {
                    lemma_index_in_bounds(offset + f, offset + size, channels as int, c);
                    if c < ch {
                        if interleaved_index(offset + f, channels as int, c) == index {
                            lemma_index_distinct(offset + f, c, offset + f, ch as int, channels as int);
                        }
                    }
                }
            }
            index = index + 1;
            ch = ch + 1;
        }
        proof {
            assert((offset + f) * channels + channels == (offset + f + 1) * channels) by (nonlinear_arith);
            assert forall|c: int, g: int|
                0 <= c < channels && 0 <= g < f + 1 implies data@[interleaved_index(
                    offset + g,
                    channels as int,
                    c,
                )] == (#[trigger] block@[c]@[g]) by {
                if g == f {
                    assert(data@[interleaved_index(offset + f, channels as int, c)] == block@[c]@[f as int]);
                }
            }
        }
        f = f + 1;
    }
}

/// Writing back a block just split off an interleaved buffer leaves the buffer as it was.
pub proof fn lemma_interleave_deinterleave_round_trip<T>(
    data: Seq<T>,
    written: Seq<T>,
    block: Seq<Seq<T>>,
    channels: int,
    offset: int,
    size: int,
)
    requires
        0 <= offset,
        0 <= size,
        0 <= channels,
        (offset + size) * channels <= data.len(),
        written.len() == data.len(),
        block.len() == channels,
        forall|ch: int, f: int|
            0 <= ch < channels && 0 <= f < size ==> (#[trigger] block[ch][f]) == data[interleaved_index(
                offset + f,
                channels,
                ch,
            )],
        forall|ch: int, f: int|
            0 <= ch < channels && 0 <= f < size ==> written[interleaved_index(offset + f, channels, ch)]
                == (#[trigger] block[ch][f]),
        forall|i: int|
            0 <= i < data.len() && !(offset * channels <= i < (offset + size) * channels) ==> #[trigger] written[i]
                == data[i],
    ensures
        written == data,
{
    assert forall|i: int| 0 <= i < data.len() implies #[trigger] written[i] == data[i] by {
        if offset * channels <= i < (offset + size) * channels {
            let k = i - offset * channels;
            let f = k / channels;
            let ch = k % channels;
            if channels == 0 {
                assert(offset * channels == 0 && (offset + size) * channels == 0) by (nonlinear_arith)
                    requires
                        channels == 0,
                ;
            }
            assert((offset + size) * channels == offset * channels + size * channels) by (nonlinear_arith);
            assert(k == f * channels + ch && 0 <= ch < channels) by (nonlinear_arith)
                requires
                    f == k / channels,
                    ch == k % channels,
                    channels > 0,
            ;
            assert(0 <= f < size) by (nonlinear_arith)
                requires
                    k == f * channels + ch,
                    0 <= ch < channels,
                    0 <= k < size * channels,
                    channels > 0,
            ;
            assert(i == interleaved_index(offset + f, channels, ch)) by (nonlinear_arith)
                requires
                    k == i - offset * channels,
                    k == f * channels + ch,
            ;
            assert(written[i] == block[ch][f]);
        }
    }
    assert(written =~= data);
}

/// The offset and size of each scheduled block.
pub open spec fn block_bounds<V>(schedule: Seq<(usize, usize, Vec<Event<V>>)>) -> Seq<(usize, usize)> {
    schedule.map_values(|b: (usize, usize, Vec<Event<V>>)| (b.0, b.1))
}

/// The parameter values the editor changed, as events at the start of the block.
pub open spec fn parameter_value_events<V>(changes: Seq<(u32, V)>) -> Seq<Event<V>> {
    changes.map_values(|c: (u32, V)| Event::ParameterValue { sample_offset: 0, id: c.0, value: c.1 })
}

fn to_parameter_events<V: Copy>(changes: Vec<(u32, V)>) -> (events: Vec<Event<V>>)
    ensures
        events@ == parameter_value_events(changes@),
{
    let mut events: Vec<Event<V>> = Vec::new();
    let mut i: usize = 0;
    while i < changes.len()
        invariant
            0 <= i <= changes@.len(),
            events@ == parameter_value_events(changes@.subrange(0, i as int)),
        decreases changes@.len() - i,
    {
        proof {
            assert(parameter_value_events(changes@.subrange(0, i + 1)) == parameter_value_events(
                changes@.subrange(0, i as int),
            ).push(Event::ParameterValue { sample_offset: 0, id: changes@[i as int].0, value: changes@[i as int].1 }));
        }
        let (id, value) = changes[i];
        events.push(Event::ParameterValue { sample_offset: 0, id, value });
        i = i + 1;
    }
    proof {
        assert(changes@.subrange(0, changes@.len() as int) == changes@);
    }
    events
}

/// The processor calls for one audio callback of `frame_count` frames: one call per
/// block, in order, each block as large as it may be. The first call takes the MIDI
/// events received since the last callback, in order, and then the editor's parameter
/// changes as parameter values; later calls take no events. A callback without frames
/// makes no call.
pub fn block_schedule<V: Copy>(
    frame_count: usize,
    max_block_size: usize,
    midi_events: Vec<Event<V>>,
    changes: Vec<(u32, V)>,
) -> (schedule: Vec<(usize, usize, Vec<Event<V>>)>)
    requires
        max_block_size > 0,
    ensures
        covers_in_blocks(block_bounds(schedule@), frame_count, max_block_size),
        schedule@.len() > 0 ==> schedule@[0].2@ == midi_events@ + parameter_value_events(changes@),
        forall|k: int| 1 <= k < schedule@.len() ==> (#[trigger] schedule@[k]).2@.len() == 0,
{
    let chunks = block_chunks(frame_count, max_block_size);
    let parameter_events = to_parameter_events(changes);
    let mut first: Vec<Event<V>> = midi_events;
    let ghost first_events = first@ + parameter_events@;
    let mut j: usize = 0;
    while j < parameter_events.len()
        invariant
            0 <= j <= parameter_events@.len(),
            first@ + parameter_events@.subrange(j as int, parameter_events@.len() as int) == first_events,
        decreases parameter_events@.len() - j,
    {
        proof {
            assert(parameter_events@.subrange(j as int, parameter_events@.len() as int) == seq![
                parameter_events@[j as int],
            ] + parameter_events@.subrange(j + 1, parameter_events@.len() as int));
            assert(first@ + parameter_events@.subrange(j as int, parameter_events@.len() as int)
                == first@.push(parameter_events@[j as int]) + parameter_events@.subrange(
                j + 1,
                parameter_events@.len() as int,
            ));
        }
        first.push(parameter_events[j]);
        j = j + 1;
    }
    proof {
        assert(first@ + Seq::<Event<V>>::empty() == first@);
        assert(parameter_events@.subrange(parameter_events@.len() as int, parameter_events@.len() as int)
            == Seq::<Event<V>>::empty());
    }
    let mut schedule: Vec<(usize, usize, Vec<Event<V>>)> = Vec::new();
    let mut pending: Option<Vec<Event<V>>> = Some(first);
    let mut i: usize = 0;
    while i < chunks.len()
        invariant
            0 <= i <= chunks@.len(),
            schedule@.len() == i,
            block_bounds(schedule@) == chunks@.subrange(0, i as int),
            i == 0 ==> (pending matches Some(p) && p@ == first_events),
            i > 0 ==> pending is None,
            i > 0 ==> schedule@[0].2@ == first_events,
            forall|k: int| 1 <= k < i ==> (#[trigger] schedule@[k]).2@.len() == 0,
        decreases chunks@.len() - i,
    {
        let (offset, size) = chunks[i];
        let events = match pending.take() {
            Some(p) => p,
            None => Vec::new(),
        };
        let ghost before = schedule@;
        schedule.push((offset, size, events));
        proof {
            assert(block_bounds(schedule@) == block_bounds(before).push((offset, size)));
            assert(chunks@.subrange(0, i + 1) == chunks@.subrange(0, i as int).push(chunks@[i as int]));
            assert forall|k: int| 1 <= k < i + 1 implies (#[trigger] schedule@[k]).2@.len() == 0 by {
                if k < i {
                    assert(schedule@[k] == before[k]);
                }
            }
            if i > 0 {
                assert(schedule@[0] == before[0]);
            }
        }
        i = i + 1;
    }
    proof {
        assert(chunks@.subrange(0, chunks@.len() as int) == chunks@);
    }
    schedule
}

} // verus!
