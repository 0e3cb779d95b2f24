use vstd::prelude::*;
use crate::event::NoteMessage;

verus! {

/// Whether (`c`, `n`) is one of the 16 x 128 (channel, note) pairs that a
/// `NoteGate` tracks.
pub open spec fn valid_pair(c: int, n: int) -> bool {
    0 <= c < 16 && 0 <= n < 128
}

/// A gate that suppresses a note-on for a (channel, note) pair that is
/// already sounding, so a voice is never retriggered while its previous
/// instance is still active.
///
/// One activity flag per pair, stored flat: the flag of channel `c`, note
/// `n` sits at index `c * 128 + n`. A flag is true exactly while its pair
/// has an outstanding note-on without a matching release.
pub struct NoteGate {
    active: Vec<bool>,
}

impl NoteGate {
    /// Well formed: one flag for each of the 16 x 128 pairs.
    pub closed spec fn wf(self) -> bool {
        self.active@.len() == 2048
    }

    /// Whether channel `c`, note `n` has an outstanding note-on that no
    /// release has matched yet.
    pub closed spec fn sounding(self, c: int, n: int) -> bool {
        self.active@[c * 128 + n]
    }

    /// What `handle` emits for event `e` in state `self`: nothing exactly
    /// when `e` is a positive-velocity note-on whose pair is already
    /// sounding; otherwise the event's forwarded form, unchanged but for the
    /// recoding of a zero-velocity note-on as a note-off.
    pub open spec fn spec_output(self, e: NoteMessage) -> Option<NoteMessage> {
        match e {
            NoteMessage::NoteOn { channel, note, velocity, .. } => if velocity.positive
                && self.sounding(channel as int, note as int) {
                None
            } else {
                Some(e.forwarded_form())
            },
            _ => Some(e.forwarded_form()),
        }
    }

    /// The flag of pair (`c`, `n`) after `e` has been consumed in state `self`: an
    /// attack leaves its own pair sounding, a release leaves its own pair
    /// idle, and every other pair keeps its flag.
    pub open spec fn spec_after(self, e: NoteMessage, c: int, n: int) -> bool {
        if e.targets(c, n) {
            e.is_attack()
        } else {
            self.sounding(c, n)
        }
    }

    /// A fresh gate: every pair idle.
    pub fn new() -> (g: NoteGate)
        ensures
            g.wf(),
            forall|c: int, n: int| valid_pair(c, n) ==> !(#[trigger] g.sounding(c, n)),
    {
        let mut active: Vec<bool> = Vec::new();
        let mut i: usize = 0;
        while i < 2048
            invariant
                i <= 2048,
                active@.len() == i,
                forall|j: int| 0 <= j < i ==> !active@[j],
            decreases 2048 - i,
        {
            active.push(false);
            i += 1;
        }
        NoteGate { active }
    }

    /// Clear every flag, whatever the prior history. Called when the host
    /// reinitializes processing; safe at any time, and allocation-free.
    pub fn reset(&mut self)
        requires
            old(self).wf(),
        ensures
            final(self).wf(),
            forall|c: int, n: int| valid_pair(c, n) ==> !(#[trigger] final(self).sounding(c, n)),
    {
        let mut i: usize = 0;
        while i < self.active.len()
            invariant
                self.active@.len() == 2048,
                i <= 2048,
                forall|j: int| 0 <= j < i ==> !self.active@[j],
            decreases 2048 - i,
        {
            self.active.set(i, false);
            i += 1;
        }
    }

    /// Decide one event: forward it (possibly recoded) or drop it, and keep
    /// the activity flags consistent with the decision.
    ///
    /// A positive-velocity note-on is forwarded exactly when its pair is
    /// idle, and marks the pair sounding. A note-off, or a zero-velocity
    /// note-on recoded as a note-off, is always forwarded and marks the pair
    /// idle. Any other event is forwarded unchanged and touches no flag.
    pub fn handle(&mut self, e: NoteMessage) -> (r: Option<NoteMessage>)
        requires
            old(self).wf(),
            e.wf(),
        ensures
            final(self).wf(),
            r == old(self).spec_output(e),
            forall|c: int, n: int| valid_pair(c, n) ==>
                #[trigger] final(self).sounding(c, n) == old(self).spec_after(e, c, n),
    {
        match e {
            NoteMessage::NoteOn { timing, voice_id, channel, note, velocity } => {
                let slot = (channel as usize) * 128 + (note as usize);
                if velocity.positive {
                    if self.active[slot] {
                        None
                    } else {
                        self.active.set(slot, true);
                        Some(e)
                    }
                } else {
                    self.active.set(slot, false);
                    Some(NoteMessage::NoteOff { timing, voice_id, channel, note, velocity })
                }
            },
            NoteMessage::NoteOff { timing: _, voice_id: _, channel, note, velocity: _ } => {
                let slot = (channel as usize) * 128 + (note as usize);
                self.active.set(slot, false);
                Some(e)
            },
            NoteMessage::Other => Some(e),
        }
    }

    /// Whether the pair (channel, note) is currently sounding.
    pub fn is_sounding(&self, channel: u8, note: u8) -> (r: bool)
        requires
            self.wf(),
            channel < 16,
            note < 128,
        ensures
            r == self.sounding(channel as int, note as int),
    {
        self.active[(channel as usize) * 128 + (note as usize)]
    }
}

impl Default for NoteGate {
    /// Same as `NoteGate::new`: a gate with every pair idle.
    fn default() -> (g: NoteGate)
        ensures
            g.wf(),
            forall|c: int, n: int| valid_pair(c, n) ==> !(#[trigger] g.sounding(c, n)),
    {
        NoteGate::new()
    }
}

/// A positive-velocity note-on reaching a gate in which no pair is sounding
/// — as right after construction or `reset` — is always forwarded, unchanged.
pub proof fn lemma_attack_on_idle_gate_forwarded(g: NoteGate, e: NoteMessage)
    requires
        g.wf(),
        e.wf(),
        e.is_attack(),
        forall|c: int, n: int| valid_pair(c, n) ==> !(#[trigger] g.sounding(c, n)),
    ensures
        g.spec_output(e) == Some(e),
{
    match e {
        NoteMessage::NoteOn { channel, note, .. } => {
            assert(valid_pair(channel as int, note as int));
            assert(!g.sounding(channel as int, note as int));
        },
        _ => {},
    }
}

/// A positive-velocity note-on arriving while its pair is sounding is
/// dropped, and the pair stays sounding — so any number of such repeats are
/// dropped in turn.
pub proof fn lemma_attack_on_sounding_pair_dropped(g: NoteGate, e: NoteMessage, c: int, n: int)
    requires
        g.wf(),
        e.wf(),
        e.is_attack(),
        e.targets(c, n),
        g.sounding(c, n),
    ensures
        g.spec_output(e) is None,
        g.spec_after(e, c, n),
{
}

/// A note-off, or a zero-velocity note-on, is always forwarded — in
/// note-off form, with every field kept — and leaves its pair idle, even if
/// the pair was already idle.
pub proof fn lemma_release_forwarded_and_clears(g: NoteGate, e: NoteMessage, c: int, n: int)
    requires
        g.wf(),
        e.wf(),
        e.is_release(),
        e.targets(c, n),
    ensures
        g.spec_output(e) == Some(e.forwarded_form()),
        e.forwarded_form() is NoteOff,
        !g.spec_after(e, c, n),
{
}

/// Events on one (channel, note) pair leave the flag of every other pair
/// exactly as it was: the pairs gate independently.
pub proof fn lemma_other_pairs_unaffected(g: NoteGate, e: NoteMessage, c: int, n: int)
    requires
        g.wf(),
        e.wf(),
        valid_pair(c, n),
        !e.targets(c, n),
    ensures
        g.spec_after(e, c, n) == g.sounding(c, n),
{
}

} // verus!
