use keyboard_splitter::{
    output_channel, route_block, route_event, NoteEvent, Payload, DEFAULT_SPLIT, MAX_SPLIT,
    MIN_SPLIT,
};

fn p(bits: u32) -> Payload {
    Payload { bits }
}

fn note_on(timing: u32, channel: u8, note: u8, velocity: u32) -> NoteEvent {
    NoteEvent::NoteOn { timing, voice_id: None, channel, note, velocity: p(velocity) }
}

fn channel_of(e: &NoteEvent) -> Option<u8> {
    match e {
        NoteEvent::NoteOn { channel, .. }
        | NoteEvent::NoteOff { channel, .. }
        | NoteEvent::Choke { channel, .. }
        | NoteEvent::PolyPressure { channel, .. }
        | NoteEvent::PolyVolume { channel, .. }
        | NoteEvent::PolyPan { channel, .. }
        | NoteEvent::PolyTuning { channel, .. }
        | NoteEvent::PolyVibrato { channel, .. }
        | NoteEvent::PolyExpression { channel, .. }
        | NoteEvent::PolyBrightness { channel, .. } => Some(*channel),
        NoteEvent::Other { .. } => None,
    }
}

fn every_kind(note: u8, channel: u8) -> Vec<NoteEvent> {
    let v = Some(7);
    vec![
        NoteEvent::NoteOn { timing: 1, voice_id: v, channel, note, velocity: p(11) },
        NoteEvent::NoteOff { timing: 2, voice_id: v, channel, note, velocity: p(12) },
        NoteEvent::Choke { timing: 3, voice_id: v, channel, note },
        NoteEvent::PolyPressure { timing: 4, voice_id: v, channel, note, pressure: p(14) },
        NoteEvent::PolyVolume { timing: 5, voice_id: v, channel, note, gain: p(15) },
        NoteEvent::PolyPan { timing: 6, voice_id: v, channel, note, pan: p(16) },
        NoteEvent::PolyTuning { timing: 7, voice_id: v, channel, note, tuning: p(17) },
        NoteEvent::PolyVibrato { timing: 8, voice_id: v, channel, note, vibrato: p(18) },
        NoteEvent::PolyExpression { timing: 9, voice_id: v, channel, note, expression: p(19) },
        NoteEvent::PolyBrightness { timing: 10, voice_id: v, channel, note, brightness: p(20) },
    ]
}

#[test]
fn low_note_goes_to_lane_zero() {
    let r = route_event(note_on(0, 5, 60, 100), DEFAULT_SPLIT);
    assert_eq!(r, Some(note_on(0, 0, 60, 100)));
}

#[test]
fn note_equal_to_split_goes_low() {
    let r = route_event(note_on(10, 3, 64, 90), DEFAULT_SPLIT);
    assert_eq!(r, Some(note_on(10, 0, 64, 90)));
}

#[test]
fn note_above_split_goes_high() {
    let r = route_event(note_on(10, 0, 65, 90), DEFAULT_SPLIT);
    assert_eq!(r, Some(note_on(10, 1, 65, 90)));
}

#[test]
fn note_off_is_routed() {
    let e = NoteEvent::NoteOff { timing: 5, voice_id: None, channel: 2, note: 70, velocity: p(0) };
    let want = NoteEvent::NoteOff { timing: 5, voice_id: None, channel: 1, note: 70, velocity: p(0) };
    assert_eq!(route_event(e, DEFAULT_SPLIT), Some(want));
}

#[test]
fn pitch_bend_is_dropped() {
    assert_eq!(route_event(NoteEvent::Other { timing: 0 }, DEFAULT_SPLIT), None);
    assert_eq!(route_event(NoteEvent::Other { timing: 4000 }, DEFAULT_SPLIT), None);
}

#[test]
fn split_change_mid_block() {
    let e = note_on(0, 9, 50, 1);
    let out = route_block(&[(e, 64), (e, 30)]);
    assert_eq!(out, vec![note_on(0, 0, 50, 1), note_on(0, 1, 50, 1)]);
}

#[test]
fn every_kind_is_routed_by_note() {
    for e in every_kind(40, 9) {
        let r = route_event(e, 40).unwrap();
        assert_eq!(channel_of(&r), Some(0));
        let r = route_event(e, 39).unwrap();
        assert_eq!(channel_of(&r), Some(1));
    }
}

#[test]
fn only_channel_changes() {
    let low = every_kind(100, 0);
    let high = every_kind(100, 1);
    for (i, e) in every_kind(100, 13).into_iter().enumerate() {
        assert_eq!(route_event(e, 99), Some(high[i]));
        assert_eq!(route_event(e, 100), Some(low[i]));
        assert_eq!(route_event(e, 99).unwrap().timing(), e.timing());
        assert_eq!(route_event(e, 99).unwrap().note(), e.note());
    }
}

#[test]
fn incoming_channel_is_ignored() {
    for c in 0..16u8 {
        assert_eq!(route_event(note_on(3, c, 20, 5), 64), Some(note_on(3, 0, 20, 5)));
        assert_eq!(route_event(note_on(3, c, 90, 5), 64), Some(note_on(3, 1, 90, 5)));
    }
}

#[test]
fn voice_id_is_kept() {
    let e = NoteEvent::Choke { timing: 12, voice_id: Some(-3), channel: 4, note: 127 };
    let want = NoteEvent::Choke { timing: 12, voice_id: Some(-3), channel: 1, note: 127 };
    assert_eq!(route_event(e, 126), Some(want));
}

#[test]
fn split_extremes() {
    assert_eq!(MIN_SPLIT, 0);
    assert_eq!(MAX_SPLIT, 127);
    assert_eq!(route_event(note_on(0, 2, 0, 1), MIN_SPLIT), Some(note_on(0, 0, 0, 1)));
    assert_eq!(route_event(note_on(0, 2, 1, 1), MIN_SPLIT), Some(note_on(0, 1, 1, 1)));
    assert_eq!(route_event(note_on(0, 2, 127, 1), MAX_SPLIT), Some(note_on(0, 0, 127, 1)));
}

#[test]
fn out_of_range_note_is_passed_on() {
    assert_eq!(route_event(note_on(0, 2, 200, 1), MAX_SPLIT), Some(note_on(0, 1, 200, 1)));
}

#[test]
fn output_channel_threshold() {
    assert_eq!(output_channel(64, 64), 0);
    assert_eq!(output_channel(65, 64), 1);
    assert_eq!(output_channel(0, 0), 0);
    assert_eq!(output_channel(255, 127), 1);
}

#[test]
fn block_drops_others_and_keeps_order() {
    let input = [
        (NoteEvent::Other { timing: 0 }, 64),
        (note_on(1, 0, 80, 1), 64),
        (NoteEvent::Other { timing: 2 }, 64),
        (note_on(3, 0, 10, 2), 64),
        (NoteEvent::Choke { timing: 4, voice_id: None, channel: 0, note: 64 }, 64),
        (NoteEvent::Other { timing: 5 }, 64),
    ];
    let out = route_block(&input);
    assert_eq!(
        out,
        vec![
            note_on(1, 1, 80, 1),
            note_on(3, 0, 10, 2),
            NoteEvent::Choke { timing: 4, voice_id: None, channel: 0, note: 64 },
        ]
    );
}

#[test]
fn block_of_only_others_is_empty() {
    let input = [(NoteEvent::Other { timing: 0 }, 64), (NoteEvent::Other { timing: 9 }, 1)];
    assert!(route_block(&input).is_empty());
    assert!(route_block(&[]).is_empty());
}

#[test]
fn later_split_change_leaves_earlier_output() {
    let events = [note_on(0, 0, 50, 1), NoteEvent::Other { timing: 1 }, note_on(2, 0, 50, 2)];
    let a = route_block(&[(events[0], 64), (events[1], 64), (events[2], 64)]);
    let b = route_block(&[(events[0], 64), (events[1], 64), (events[2], 30)]);
    assert_eq!(a[0], b[0]);
    assert_eq!(a[1], note_on(2, 0, 50, 2));
    assert_eq!(b[1], note_on(2, 1, 50, 2));
}

#[test]
fn rerun_gives_same_output() {
    let input: Vec<(NoteEvent, u8)> = every_kind(64, 5)
        .into_iter()
        .chain([NoteEvent::Other { timing: 11 }])
        .map(|e| (e, DEFAULT_SPLIT))
        .collect();
    let first = route_block(&input);
    let second = route_block(&input);
    assert_eq!(first, second);
    assert_eq!(first.len(), 10);
}

#[test]
fn accessors() {
    let e = NoteEvent::PolyPan { timing: 33, voice_id: None, channel: 4, note: 12, pan: p(1) };
    assert_eq!(e.note(), Some(12));
    assert_eq!(e.timing(), 33);
    assert_eq!(channel_of(&e.with_channel(9)), Some(9));
    let o = NoteEvent::Other { timing: 8 };
    assert_eq!(o.note(), None);
    assert_eq!(o.timing(), 8);
    assert_eq!(o.with_channel(3), o);
}
