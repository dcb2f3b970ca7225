use vstd::prelude::*;

verus! {

/// A payload value that the router carries along without reading it
/// (velocity, pressure, gain, pan, tuning, ...). The host holds such values as
/// 32-bit floats; here they travel as their raw bit pattern.
#[derive(Clone, Copy, Debug, PartialEq, Eq, Structural)]
pub struct Payload {
    pub bits: u32,
}

/// One event of a processing block.
///
/// The first ten variants carry a note number and a channel; `Other` stands
/// for every kind of event that lacks one of the two (controllers, pitch
/// bend, channel pressure, system exclusive, ...), of which only the timing
/// is kept.
#[derive(Clone, Copy, Debug, PartialEq, Eq, Structural)]
pub enum NoteEvent {
    NoteOn { timing: u32, voice_id: Option<i32>, channel: u8, note: u8, velocity: Payload },
    NoteOff { timing: u32, voice_id: Option<i32>, channel: u8, note: u8, velocity: Payload },
    Choke { timing: u32, voice_id: Option<i32>, channel: u8, note: u8 },
    PolyPressure { timing: u32, voice_id: Option<i32>, channel: u8, note: u8, pressure: Payload },
    PolyVolume { timing: u32, voice_id: Option<i32>, channel: u8, note: u8, gain: Payload },
    PolyPan { timing: u32, voice_id: Option<i32>, channel: u8, note: u8, pan: Payload },
    PolyTuning { timing: u32, voice_id: Option<i32>, channel: u8, note: u8, tuning: Payload },
    PolyVibrato { timing: u32, voice_id: Option<i32>, channel: u8, note: u8, vibrato: Payload },
    PolyExpression {
        timing: u32,
        voice_id: Option<i32>,
        channel: u8,
        note: u8,
        expression: Payload,
    },
    PolyBrightness {
        timing: u32,
        voice_id: Option<i32>,
        channel: u8,
        note: u8,
        brightness: Payload,
    },
    Other { timing: u32 },
}

impl NoteEvent {
    /// Whether the event carries both a note number and a channel.
    pub open spec fn has_note(self) -> bool {
        !(self is Other)
    }

    pub open spec fn timing_of(self) -> u32 {
        match self {
            NoteEvent::NoteOn { timing, .. } => timing,
            NoteEvent::NoteOff { timing, .. } => timing,
            NoteEvent::Choke { timing, .. } => timing,
            NoteEvent::PolyPressure { timing, .. } => timing,
            NoteEvent::PolyVolume { timing, .. } => timing,
            NoteEvent::PolyPan { timing, .. } => timing,
            NoteEvent::PolyTuning { timing, .. } => timing,
            NoteEvent::PolyVibrato { timing, .. } => timing,
            NoteEvent::PolyExpression { timing, .. } => timing,
            NoteEvent::PolyBrightness { timing, .. } => timing,
            NoteEvent::Other { timing } => timing,
        }
    }

    /// The voice identifier; `None` for `Other`, which keeps none.
    pub open spec fn voice_id_of(self) -> Option<i32> {
        match self {
            NoteEvent::NoteOn { voice_id, .. } => voice_id,
            NoteEvent::NoteOff { voice_id, .. } => voice_id,
            NoteEvent::Choke { voice_id, .. } => voice_id,
            NoteEvent::PolyPressure { voice_id, .. } => voice_id,
            NoteEvent::PolyVolume { voice_id, .. } => voice_id,
            NoteEvent::PolyPan { voice_id, .. } => voice_id,
            NoteEvent::PolyTuning { voice_id, .. } => voice_id,
            NoteEvent::PolyVibrato { voice_id, .. } => voice_id,
            NoteEvent::PolyExpression { voice_id, .. } => voice_id,
            NoteEvent::PolyBrightness { voice_id, .. } => voice_id,
            NoteEvent::Other { .. } => None,
        }
    }

    /// The note number; meaningful only where `has_note` holds.
    pub open spec fn note_of(self) -> u8 {
        match self {
            NoteEvent::NoteOn { note, .. } => note,
            NoteEvent::NoteOff { note, .. } => note,
            NoteEvent::Choke { note, .. } => note,
            NoteEvent::PolyPressure { note, .. } => note,
            NoteEvent::PolyVolume { note, .. } => note,
            NoteEvent::PolyPan { note, .. } => note,
            NoteEvent::PolyTuning { note, .. } => note,
            NoteEvent::PolyVibrato { note, .. } => note,
            NoteEvent::PolyExpression { note, .. } => note,
            NoteEvent::PolyBrightness { note, .. } => note,
            NoteEvent::Other { .. } => 0,
        }
    }

    /// The channel; meaningful only where `has_note` holds.
    pub open spec fn channel_of(self) -> u8 {
        match self {
            NoteEvent::NoteOn { channel, .. } => channel,
            NoteEvent::NoteOff { channel, .. } => channel,
            NoteEvent::Choke { channel, .. } => channel,
            NoteEvent::PolyPressure { channel, .. } => channel,
            NoteEvent::PolyVolume { channel, .. } => channel,
            NoteEvent::PolyPan { channel, .. } => channel,
            NoteEvent::PolyTuning { channel, .. } => channel,
            NoteEvent::PolyVibrato { channel, .. } => channel,
            NoteEvent::PolyExpression { channel, .. } => channel,
            NoteEvent::PolyBrightness { channel, .. } => channel,
            NoteEvent::Other { .. } => 0,
        }
    }

    /// The same event with its channel replaced by `c`; `Other` has no
    /// channel and stays as it is.
    pub open spec fn set_channel(self, c: u8) -> NoteEvent {
        match self {
            NoteEvent::NoteOn { timing, voice_id, note, velocity, .. } =>
                NoteEvent::NoteOn { timing, voice_id, channel: c, note, velocity },
            NoteEvent::NoteOff { timing, voice_id, note, velocity, .. } =>
                NoteEvent::NoteOff { timing, voice_id, channel: c, note, velocity },
            NoteEvent::Choke { timing, voice_id, note, .. } =>
                NoteEvent::Choke { timing, voice_id, channel: c, note },
            NoteEvent::PolyPressure { timing, voice_id, note, pressure, .. } =>
                NoteEvent::PolyPressure { timing, voice_id, channel: c, note, pressure },
            NoteEvent::PolyVolume { timing, voice_id, note, gain, .. } =>
                NoteEvent::PolyVolume { timing, voice_id, channel: c, note, gain },
            NoteEvent::PolyPan { timing, voice_id, note, pan, .. } =>
                NoteEvent::PolyPan { timing, voice_id, channel: c, note, pan },
            NoteEvent::PolyTuning { timing, voice_id, note, tuning, .. } =>
                NoteEvent::PolyTuning { timing, voice_id, channel: c, note, tuning },
            NoteEvent::PolyVibrato { timing, voice_id, note, vibrato, .. } =>
                NoteEvent::PolyVibrato { timing, voice_id, channel: c, note, vibrato },
            NoteEvent::PolyExpression { timing, voice_id, note, expression, .. } =>
                NoteEvent::PolyExpression { timing, voice_id, channel: c, note, expression },
            NoteEvent::PolyBrightness { timing, voice_id, note, brightness, .. } =>
                NoteEvent::PolyBrightness { timing, voice_id, channel: c, note, brightness },
            NoteEvent::Other { timing } => NoteEvent::Other { timing },
        }
    }

    /// The note number of a note-bearing event, `None` for `Other`.
    pub fn note(&self) -> (r: Option<u8>)
        ensures
            r == (if self.has_note() { Some(self.note_of()) } else { None::<u8> }),
    {
        match self {
            NoteEvent::NoteOn { note, .. } => Some(*note),
            NoteEvent::NoteOff { note, .. } => Some(*note),
            NoteEvent::Choke { note, .. } => Some(*note),
            NoteEvent::PolyPressure { note, .. } => Some(*note),
            NoteEvent::PolyVolume { note, .. } => Some(*note),
            NoteEvent::PolyPan { note, .. } => Some(*note),
            NoteEvent::PolyTuning { note, .. } => Some(*note),
            NoteEvent::PolyVibrato { note, .. } => Some(*note),
            NoteEvent::PolyExpression { note, .. } => Some(*note),
            NoteEvent::PolyBrightness { note, .. } => Some(*note),
            NoteEvent::Other { .. } => None,
        }
    }

    /// The event's sample offset within its block.
    pub fn timing(&self) -> (r: u32)
        ensures
            r == self.timing_of(),
    {
        match self {
            NoteEvent::NoteOn { timing, .. } => *timing,
            NoteEvent::NoteOff { timing, .. } => *timing,
            NoteEvent::Choke { timing, .. } => *timing,
            NoteEvent::PolyPressure { timing, .. } => *timing,
            NoteEvent::PolyVolume { timing, .. } => *timing,
            NoteEvent::PolyPan { timing, .. } => *timing,
            NoteEvent::PolyTuning { timing, .. } => *timing,
            NoteEvent::PolyVibrato { timing, .. } => *timing,
            NoteEvent::PolyExpression { timing, .. } => *timing,
            NoteEvent::PolyBrightness { timing, .. } => *timing,
            NoteEvent::Other { timing } => *timing,
        }
    }

    /// The same event with its channel replaced by `c`, every other field
    /// kept; an `Other` event comes back unchanged.
    pub fn with_channel(self, c: u8) -> (r: NoteEvent)
        ensures
            r == self.set_channel(c),
    {
        match self {
            NoteEvent::NoteOn { timing, voice_id, note, velocity, .. } =>
                NoteEvent::NoteOn { timing, voice_id, channel: c, note, velocity },
            NoteEvent::NoteOff { timing, voice_id, note, velocity, .. } =>
                NoteEvent::NoteOff { timing, voice_id, channel: c, note, velocity },
            NoteEvent::Choke { timing, voice_id, note, .. } =>
                NoteEvent::Choke { timing, voice_id, channel: c, note },
            NoteEvent::PolyPressure { timing, voice_id, note, pressure, .. } =>
                NoteEvent::PolyPressure { timing, voice_id, channel: c, note, pressure },
            NoteEvent::PolyVolume { timing, voice_id, note, gain, .. } =>
                NoteEvent::PolyVolume { timing, voice_id, channel: c, note, gain },
            NoteEvent::PolyPan { timing, voice_id, note, pan, .. } =>
                NoteEvent::PolyPan { timing, voice_id, channel: c, note, pan },
            NoteEvent::PolyTuning { timing, voice_id, note, tuning, .. } =>
                NoteEvent::PolyTuning { timing, voice_id, channel: c, note, tuning },
            NoteEvent::PolyVibrato { timing, voice_id, note, vibrato, .. } =>
                NoteEvent::PolyVibrato { timing, voice_id, channel: c, note, vibrato },
            NoteEvent::PolyExpression { timing, voice_id, note, expression, .. } =>
                NoteEvent::PolyExpression { timing, voice_id, channel: c, note, expression },
            NoteEvent::PolyBrightness { timing, voice_id, note, brightness, .. } =>
                NoteEvent::PolyBrightness { timing, voice_id, channel: c, note, brightness },
            NoteEvent::Other { timing } => NoteEvent::Other { timing },
        }
    }
}

} // verus!
