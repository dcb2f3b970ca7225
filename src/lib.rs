//! A keyboard-split MIDI router: every note-bearing event of a processing
//! block is sent to lane 0 when its note lies at or below the split point and
//! to lane 1 above it; all other events are dropped.
mod event;
mod router;

pub use event::{NoteEvent, Payload};
pub use router::{
    lemma_earlier_outputs_fixed, lemma_item_output, lemma_order_kept, lemma_rerun_identical,
    output_channel, route_block, route_event, DEFAULT_SPLIT, MAX_SPLIT, MIN_SPLIT,
};
