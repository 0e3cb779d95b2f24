//! A real-time MIDI note filter: `gate::NoteGate` tracks, per (channel,
//! note) pair, whether a note-on is outstanding, and suppresses a
//! positive-velocity note-on for a pair that is already sounding. Note-offs
//! — including zero-velocity note-ons, MIDI's alternate encoding of a
//! release — are always forwarded and leave the pair idle; every other
//! event kind passes through untouched. `event` holds the event
//! representation the filter works on.

pub mod event;
pub mod gate;
