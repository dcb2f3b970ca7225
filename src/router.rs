use vstd::prelude::*;
use crate::event::NoteEvent;

verus! {

/// Lowest value the split point can take.
pub const MIN_SPLIT: u8 = 0;

/// Highest value the split point can take.
pub const MAX_SPLIT: u8 = 127;

/// Split point that a fresh router starts from.
pub const DEFAULT_SPLIT: u8 = 64;

/// The lane a note goes to: 0 at or below the split point, 1 above it.
pub open spec fn lane(note: u8, split: u8) -> u8 {
    if note <= split { 0 } else { 1 }
}

/// What routing one event against `split` yields: a note-bearing event
/// comes back on its lane, anything else is dropped.
pub open spec fn routed(e: NoteEvent, split: u8) -> Option<NoteEvent> {
    if e.has_note() {
        Some(e.set_channel(lane(e.note_of(), split)))
    } else {
        None
    }
}

/// The output of a block, each event paired with the split value read when
/// it was processed: the routed events, in input order.
pub open spec fn routed_seq(input: Seq<(NoteEvent, u8)>) -> Seq<NoteEvent>
    decreases input.len(),
{
    if input.len() == 0 {
        Seq::empty()
    } else {
        let prev = routed_seq(input.drop_last());
        match routed(input.last().0, input.last().1) {
            Some(r) => prev.push(r),
            None => prev,
        }
    }
}

/// Where the output of the `i`-th input item stands: the number of outputs
/// that the items before it produce.
pub open spec fn out_pos(input: Seq<(NoteEvent, u8)>, i: int) -> nat {
    routed_seq(input.take(i)).len()
}

/// The lane for `note` under `split`.
pub fn output_channel(note: u8, split: u8) -> (r: u8)
    ensures
        r == lane(note, split),
        r == 0 <==> note <= split,
        r == 1 <==> note > split,
{
    if note <= split {
        0
    } else {
        1
    }
}

/// Routes one event against the split value current when it is processed.
pub fn route_event(event: NoteEvent, split: u8) -> (r: Option<NoteEvent>)
    ensures
        r == routed(event, split),
        r is None <==> !event.has_note(),
        r matches Some(o) ==> {
            &&& o.has_note()
            &&& (o.channel_of() == 0 <==> event.note_of() <= split)
            &&& (o.channel_of() == 1 <==> event.note_of() > split)
            &&& o.timing_of() == event.timing_of()
            &&& o.voice_id_of() == event.voice_id_of()
            &&& o.note_of() == event.note_of()
            &&& o.set_channel(event.channel_of()) == event
        },
{
    match event.note() {
        Some(note) => {
            let c = output_channel(note, split);
            let o = event.with_channel(c);
            assert(o.set_channel(event.channel_of()) == event);
            Some(o)
        },
        None => None,
    }
}

/// Routes a whole block. Each input item is an event together with the
/// split value that was current when it was processed; the result holds the
/// routed events in input order.
pub fn route_block(input: &[(NoteEvent, u8)]) -> (r: Vec<NoteEvent>)
    ensures
        r@ == routed_seq(input@),
        r@.len() <= input@.len(),
{
    let mut out: Vec<NoteEvent> = Vec::new();
    let mut i: usize = 0;
    while i < input.len()
        invariant
            i <= input@.len(),
            out@ == routed_seq(input@.take(i as int)),
            out@.len() <= i,
        decreases input@.len() - i,
    {
        let (event, split) = input[i];
        assert(input@.take(i as int + 1).drop_last() == input@.take(i as int));
        match route_event(event, split) {
            Some(o) => out.push(o),
            None => {},
        }
        i = i + 1;
    }
    assert(input@.take(i as int) == input@);
    out
}

/// Routing a prefix of a block yields a prefix of the block's output.
proof fn lemma_prefix(input: Seq<(NoteEvent, u8)>, k: int)
    requires
        0 <= k <= input.len(),
    ensures
        routed_seq(input.take(k)).len() <= routed_seq(input).len(),
        routed_seq(input).take(routed_seq(input.take(k)).len() as int) == routed_seq(input.take(k)),
    decreases input.len() - k,
{
    if k < input.len() {
        lemma_prefix(input, k + 1);
        assert(input.take(k + 1).drop_last() == input.take(k));
        let a = routed_seq(input.take(k));
        let b = routed_seq(input.take(k + 1));
        assert(b.take(a.len() as int) == a);
    } else {
        assert(input.take(k) == input);
    }
}

/// Within a block, the item at index `i` yields an output exactly when its
/// event carries a note, and that output, the routed event, stands at
/// `out_pos(input, i)`; every other item yields nothing.
pub proof fn lemma_item_output(input: Seq<(NoteEvent, u8)>, i: int)
    requires
        0 <= i < input.len(),
    ensures
        out_pos(input, i + 1) == out_pos(input, i) + (if input[i].0.has_note() { 1nat } else { 0nat }),
        input[i].0.has_note() ==> routed_seq(input)[out_pos(input, i) as int]
            == routed(input[i].0, input[i].1)->0,
        input[i].0.has_note() ==> out_pos(input, i) < routed_seq(input).len(),
{
    assert(input.take(i + 1).drop_last() == input.take(i));
    assert(input.take(i + 1).last() == input[i]);
    lemma_prefix(input, i + 1);
    if input[i].0.has_note() {
        let b = routed_seq(input.take(i + 1));
        assert(routed_seq(input).take(b.len() as int)[out_pos(input, i) as int] == b[out_pos(input, i) as int]);
    }
}

/// Output positions never decrease along the input.
proof fn lemma_pos_monotone(input: Seq<(NoteEvent, u8)>, i: int, j: int)
    requires
        0 <= i <= j <= input.len(),
    ensures
        out_pos(input, i) <= out_pos(input, j),
    decreases j - i,
{
    if i < j {
        lemma_pos_monotone(input, i, j - 1);
        lemma_item_output(input, j - 1);
    }
}

/// Routing keeps order: of two note-bearing events, the earlier one in the
/// block is forwarded, as the routed event, before the later one.
pub proof fn lemma_order_kept(input: Seq<(NoteEvent, u8)>, i: int, j: int)
    requires
        0 <= i < j < input.len(),
        input[i].0.has_note(),
        input[j].0.has_note(),
    ensures
        out_pos(input, i) < out_pos(input, j),
        out_pos(input, j) < routed_seq(input).len(),
        routed_seq(input)[out_pos(input, i) as int] == routed(input[i].0, input[i].1)->0,
        routed_seq(input)[out_pos(input, j) as int] == routed(input[j].0, input[j].1)->0,
{
    lemma_item_output(input, i);
    lemma_item_output(input, j);
    lemma_pos_monotone(input, i + 1, j);
}

/// A change of the split value takes effect only from the event at which it
/// is observed: two blocks that agree on their first `k` items, events and
/// split values alike, agree on everything those items forwarded.
pub proof fn lemma_earlier_outputs_fixed(a: Seq<(NoteEvent, u8)>, b: Seq<(NoteEvent, u8)>, k: int)
    requires
        0 <= k <= a.len(),
        k <= b.len(),
        a.take(k) == b.take(k),
    ensures
        out_pos(a, k) == out_pos(b, k),
        out_pos(a, k) <= routed_seq(a).len(),
        out_pos(b, k) <= routed_seq(b).len(),
        routed_seq(a).take(out_pos(a, k) as int) == routed_seq(b).take(out_pos(b, k) as int),
{
    lemma_prefix(a, k);
    lemma_prefix(b, k);
}

/// The router keeps no hidden state: the same block routes to the same
/// output, every time.
pub proof fn lemma_rerun_identical(a: Seq<(NoteEvent, u8)>, b: Seq<(NoteEvent, u8)>)
    requires
        a == b,
    ensures
        routed_seq(a) == routed_seq(b),
{
}

} // verus!
