use vstd::prelude::*;

verus! {

/// A note-on intensity as the host hands it over.
///
/// The host's numeric encoding is carried through untouched in `bits`; the
/// gate never interprets it. `positive` records the one fact the gating
/// decision reads: whether the velocity is greater than zero. A zero
/// velocity is MIDI's alternate encoding of a note release.
#[derive(Clone, Copy, PartialEq, Eq, Debug)]
pub struct Velocity {
    /// Opaque encoding of the host's velocity value, passed through unchanged.
    pub bits: u32,
    /// Whether the velocity is greater than zero.
    pub positive: bool,
}

/// One MIDI event as the filter sees it.
///
/// Note events carry a timing offset within the current processing block, an
/// optional host voice identifier, a channel in `0..16`, a note number in
/// `0..128`, and a velocity. Every other event kind is represented by
/// `Other`: the filter reads nothing from such events and passes them through.
#[derive(Clone, Copy, PartialEq, Eq, Debug)]
pub enum NoteMessage {
    NoteOn { timing: u32, voice_id: Option<i32>, channel: u8, note: u8, velocity: Velocity },
    NoteOff { timing: u32, voice_id: Option<i32>, channel: u8, note: u8, velocity: Velocity },
    Other,
}

impl NoteMessage {
    /// A note event addresses a channel in `0..16` and a note in `0..128`.
    pub open spec fn wf(self) -> bool {
        match self {
            NoteMessage::NoteOn { channel, note, .. } => channel < 16 && note < 128,
            NoteMessage::NoteOff { channel, note, .. } => channel < 16 && note < 128,
            NoteMessage::Other => true,
        }
    }

    /// Whether the event tries to start a note: a note-on with positive velocity.
    pub open spec fn is_attack(self) -> bool {
        match self {
            NoteMessage::NoteOn { velocity, .. } => velocity.positive,
            _ => false,
        }
    }

    /// Whether the event releases its pair: a note-off, or a note-on with
    /// zero velocity (MIDI's alternate encoding of a release).
    pub open spec fn is_release(self) -> bool {
        match self {
            NoteMessage::NoteOn { velocity, .. } => !velocity.positive,
            NoteMessage::NoteOff { .. } => true,
            NoteMessage::Other => false,
        }
    }

    /// Whether the event addresses the pair (channel `c`, note `n`).
    /// Events that are neither note-on nor note-off address no pair.
    pub open spec fn targets(self, c: int, n: int) -> bool {
        match self {
            NoteMessage::NoteOn { channel, note, .. } => c == channel as int && n == note as int,
            NoteMessage::NoteOff { channel, note, .. } => c == channel as int && n == note as int,
            NoteMessage::Other => false,
        }
    }

    /// The event as it leaves the filter when it is forwarded: a zero-velocity
    /// note-on is recoded as a note-off with every field kept; every other
    /// event is forwarded unchanged.
    pub open spec fn forwarded_form(self) -> NoteMessage {
        match self {
            NoteMessage::NoteOn { timing, voice_id, channel, note, velocity } => if velocity.positive {
                self
            } else {
                NoteMessage::NoteOff { timing, voice_id, channel, note, velocity }
            },
            _ => self,
        }
    }
}

} // verus!
