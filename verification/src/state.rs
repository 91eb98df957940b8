//! Shared performance state: the voice pool, the controller bank and the
//! envelope gate target, mutated by incoming performance events and read by
//! the render path once per output block.

use vstd::prelude::*;

verus! {

/// One currently sounding note.
///
/// The pitch is fixed when the voice is created and never changes while the
/// voice is active: `pitch_cents` is the note's offset from A4 (note 69) in
/// cents, one hundred cents per semitone.  The fundamental frequency of the
/// voice follows from it as `440 Hz` scaled by two to the power
/// `pitch_cents / 1200`, so note 69 sounds at `440 Hz` and note 81, twelve
/// semitones up, at exactly twice that.
#[derive(Clone, Copy)]
pub struct Voice {
    pub note: u8,
    pub pitch_cents: i32,
}

/// The pitch of a note as cents above A4: one hundred cents per semitone,
/// counted from note 69.
pub open spec fn spec_pitch_cents(note: u8) -> i32 {
    (((note as int) - 69) * 100) as i32
}

/// The voice that a note-on event for `note` creates.
pub open spec fn spec_voice(note: u8) -> Voice {
    Voice { note: note, pitch_cents: spec_pitch_cents(note) }
}

/// Cents above A4 of a note number, computed exactly.
pub fn pitch_cents(note: u8) -> (c: i32)
    ensures
        c == spec_pitch_cents(note),
{
    ((note as i32) - 69) * 100
}

impl Voice {
    /// A voice is well formed when its stored pitch is the one derived from
    /// its note number.
    pub open spec fn wf(self) -> bool {
        self.pitch_cents == spec_pitch_cents(self.note)
    }

    /// Create the voice for a note; the pitch is derived here, once.
    pub fn new(note: u8) -> (v: Voice)
        ensures
            v == spec_voice(note),
            v.wf(),
    {
        Voice { note: note, pitch_cents: pitch_cents(note) }
    }
}

/// The abstract value of the shared performance state.
#[verifier::ext_equal]
pub ghost struct StateModel {
    pub gate_on: bool,
    pub controller_1: u8,
    pub controller_2: u8,
    pub controller_3: u8,
    pub controller_4: u8,
    pub voices: Seq<Voice>,
}

/// The shared performance state.
///
/// The event-ingestion side mutates it through [`AppState::note_on`],
/// [`AppState::note_off`] and [`AppState::set_controller`]; the render side
/// reads the voice pool, the envelope gate target and the controller bank once per
/// output block.  The smoothed envelope value and the filter memory are not
/// part of this record: they are owned exclusively by the render path.
pub struct AppState {
    /// The envelope gate target: `true` stands for a target of one (sound
    /// bound), `false` for a target of zero (silence bound).
    pub gate_on: bool,
    /// Raw controller values, `0..=127`; the render path normalizes a value
    /// to the unit range by dividing by `127`.
    pub controller_1: u8,
    pub controller_2: u8,
    pub controller_3: u8,
    pub controller_4: u8,
    /// The voice pool, in insertion order, unbounded.
    pub voices: Vec<Voice>,
}

impl View for AppState {
    type V = StateModel;

    open spec fn view(&self) -> StateModel {
        StateModel {
            gate_on: self.gate_on,
            controller_1: self.controller_1,
            controller_2: self.controller_2,
            controller_3: self.controller_3,
            controller_4: self.controller_4,
            voices: self.voices@,
        }
    }
}

/// The voice pool after a note-off for `note`: every voice whose note equals
/// `note` is removed, duplicates included; the order of the others is kept.
pub open spec fn remove_note(s: Seq<Voice>, note: u8) -> Seq<Voice>
    decreases s.len(),
{
    if s.len() == 0 {
        Seq::empty()
    } else {
        let rest = remove_note(s.drop_last(), note);
        if s.last().note == note {
            rest
        } else {
            rest.push(s.last())
        }
    }
}

/// How many voices of the pool sound the given note.
pub open spec fn count_note(s: Seq<Voice>, note: u8) -> nat
    decreases s.len(),
{
    if s.len() == 0 {
        0
    } else {
        count_note(s.drop_last(), note) + if s.last().note == note {
            1nat
        } else {
            0nat
        }
    }
}

/// A note-off removes exactly the voices that sound the note.
pub proof fn lemma_remove_note_count(s: Seq<Voice>, note: u8)
    ensures
        remove_note(s, note).len() + count_note(s, note) == s.len(),
    decreases s.len(),
{
    if s.len() == 0 {
    } else {
        lemma_remove_note_count(s.drop_last(), note);
    }
}

/// A note-off keeps only well-formed voices if the pool held only
/// well-formed voices.
pub proof fn lemma_remove_note_wf(s: Seq<Voice>, note: u8)
    requires
        forall|i: int| 0 <= i < s.len() ==> (#[trigger] s[i]).wf(),
    ensures
        forall|i: int|
            0 <= i < remove_note(s, note).len() ==> (#[trigger] remove_note(s, note)[i]).wf(),
    decreases s.len(),
{
    if s.len() == 0 {
    } else {
        assert(forall|i: int| 0 <= i < s.drop_last().len() ==> (#[trigger] s.drop_last()[i]).wf());
        lemma_remove_note_wf(s.drop_last(), note);
        let rest = remove_note(s.drop_last(), note);
        if s.last().note == note {
            assert(remove_note(s, note) == rest);
        } else {
            assert(remove_note(s, note) == rest.push(s.last()));
            assert(s.last().wf());
            assert forall|i: int|
                0 <= i < remove_note(s, note).len() implies (#[trigger] remove_note(s, note)[i]).wf() by {
                if i < rest.len() {
                    assert(remove_note(s, note)[i] == rest[i]);
                } else {
                    assert(remove_note(s, note)[i] == s.last());
                }
            }
        }
    }
}

impl AppState {
    /// The state is well formed when every pooled voice carries the pitch
    /// derived from its note.
    pub open spec fn wf(self) -> bool {
        forall|i: int| 0 <= i < self@.voices.len() ==> (#[trigger] self@.voices[i]).wf()
    }

    /// The neutral startup state: no voices, gate at zero, all controllers
    /// at zero.
    pub fn new() -> (s: AppState)
        ensures
            s@.voices == Seq::<Voice>::empty(),
            !s@.gate_on,
            s@.controller_1 == 0,
            s@.controller_2 == 0,
            s@.controller_3 == 0,
            s@.controller_4 == 0,
            s.wf(),
    {
        AppState {
            gate_on: false,
            controller_1: 0,
            controller_2: 0,
            controller_3: 0,
            controller_4: 0,
            voices: Vec::new(),
        }
    }

    /// A note-on appends a fresh voice for the note, duplicates allowed, and
    /// unconditionally raises the envelope gate target to one.
    pub fn note_on(&mut self, note: u8)
        ensures
            final(self)@.voices == old(self)@.voices.push(spec_voice(note)),
            final(self)@.gate_on,
            final(self)@.controller_1 == old(self)@.controller_1,
            final(self)@.controller_2 == old(self)@.controller_2,
            final(self)@.controller_3 == old(self)@.controller_3,
            final(self)@.controller_4 == old(self)@.controller_4,
            old(self).wf() ==> final(self).wf(),
    {
        let voice = Voice::new(note);
        self.voices.push(voice);
        self.gate_on = true;
    }

    /// A note-off removes every voice sounding the note (all duplicates at
    /// once) and, like a note-on, raises the envelope gate target to one: the
    /// envelope is driven by any activity, not by the presence of voices.
    pub fn note_off(&mut self, note: u8)
        ensures
            final(self)@.voices == remove_note(old(self)@.voices, note),
            final(self)@.gate_on,
            final(self)@.controller_1 == old(self)@.controller_1,
            final(self)@.controller_2 == old(self)@.controller_2,
            final(self)@.controller_3 == old(self)@.controller_3,
            final(self)@.controller_4 == old(self)@.controller_4,
            old(self).wf() ==> final(self).wf(),
    {
        let n = self.voices.len();
        let mut kept: Vec<Voice> = Vec::new();
        let mut i: usize = 0;
        while i < n
            invariant
                i <= n,
                n == self.voices@.len(),
                kept@ == remove_note(self.voices@.take(i as int), note),
            decreases n - i,
        {
            proof {
                assert(self.voices@.take(i as int + 1).drop_last() =~= self.voices@.take(
                    i as int,
                ));
            }
            let v = self.voices[i];
            if v.note != note {
                kept.push(v);
            }
            i = i + 1;
        }
        proof {
            assert(self.voices@.take(n as int) =~= self.voices@);
        }
        self.voices = kept;
        self.gate_on = true;
        proof {
            if old(self).wf() {
                lemma_remove_note_wf(old(self)@.voices, note);
            }
        }
    }

    /// Store a raw controller value in one of the four controller slots.
    /// Indices one to four dispatch to their slot; any other index is
    /// silently ignored, since no other controller exists.
    pub fn set_controller(&mut self, index: u8, value: u8)
        ensures
            final(self)@.controller_1 == (if index == 1 {
                value
            } else {
                old(self)@.controller_1
            }),
            final(self)@.controller_2 == (if index == 2 {
                value
            } else {
                old(self)@.controller_2
            }),
            final(self)@.controller_3 == (if index == 3 {
                value
            } else {
                old(self)@.controller_3
            }),
            final(self)@.controller_4 == (if index == 4 {
                value
            } else {
                old(self)@.controller_4
            }),
            final(self)@.gate_on == old(self)@.gate_on,
            final(self)@.voices == old(self)@.voices,
            old(self).wf() ==> final(self).wf(),
    {
        if index == 1 {
            self.controller_1 = value;
        } else if index == 2 {
            self.controller_2 = value;
        } else if index == 3 {
            self.controller_3 = value;
        } else if index == 4 {
            self.controller_4 = value;
        }
    }
}

/// The state that ingesting one raw event triple leaves behind.
///
/// A message shorter than three bytes is malformed and ignored.  Status byte
/// `176` is a controller change on the first channel and stores the third
/// byte in the slot named by the second.  A status byte with high nibble
/// nine is a note-on for the second byte, one with high nibble eight a
/// note-off; the third byte (the velocity) is read but not used.  Every
/// other status is ignored.
pub open spec fn model_after_message(m: StateModel, data: Seq<u8>) -> StateModel {
    if data.len() < 3 {
        m
    } else if data[0] == 176 {
        StateModel {
            gate_on: m.gate_on,
            controller_1: if data[1] == 1 {
                data[2]
            } else {
                m.controller_1
            },
            controller_2: if data[1] == 2 {
                data[2]
            } else {
                m.controller_2
            },
            controller_3: if data[1] == 3 {
                data[2]
            } else {
                m.controller_3
            },
            controller_4: if data[1] == 4 {
                data[2]
            } else {
                m.controller_4
            },
            voices: m.voices,
        }
    } else if data[0] / 16 == 9 {
        StateModel {
            gate_on: true,
            controller_1: m.controller_1,
            controller_2: m.controller_2,
            controller_3: m.controller_3,
            controller_4: m.controller_4,
            voices: m.voices.push(spec_voice(data[1])),
        }
    } else if data[0] / 16 == 8 {
        StateModel {
            gate_on: true,
            controller_1: m.controller_1,
            controller_2: m.controller_2,
            controller_3: m.controller_3,
            controller_4: m.controller_4,
            voices: remove_note(m.voices, data[1]),
        }
    } else {
        m
    }
}

impl AppState {
    /// Ingest one raw event triple `(status, data1, data2)` as
    /// [`model_after_message`] says: controller changes, note-ons and
    /// note-offs mutate the state, everything else — malformed messages
    /// included — is ignored rather than signalled.
    pub fn handle_message(&mut self, data: &[u8])
        ensures
            final(self)@ == model_after_message(old(self)@, data@),
            old(self).wf() ==> final(self).wf(),
    {
        let ghost m0: StateModel = self@;
        if data.len() >= 3 {
            let status = data[0];
            if status == 176 {
                self.set_controller(data[1], data[2]);
            } else if status / 16 == 9 {
                self.note_on(data[1]);
            } else if status / 16 == 8 {
                self.note_off(data[1]);
            }
        }
        proof {
            assert(self@ =~= model_after_message(m0, data@));
        }
    }
}

/// A performance event that touches the voice pool.
pub enum NoteEvent {
    On(u8),
    Off(u8),
}

/// The voice pool that a sequence of note events leaves behind, starting
/// from the pool `init`: each on-event appends its voice, each off-event
/// removes all voices sounding its note.
pub open spec fn pool_after(init: Seq<Voice>, events: Seq<NoteEvent>) -> Seq<Voice>
    decreases events.len(),
{
    if events.len() == 0 {
        init
    } else {
        let prev = pool_after(init, events.drop_last());
        match events.last() {
            NoteEvent::On(n) => prev.push(spec_voice(n)),
            NoteEvent::Off(n) => remove_note(prev, n),
        }
    }
}

/// How many of the events are on-events.
pub open spec fn on_count(events: Seq<NoteEvent>) -> nat
    decreases events.len(),
{
    if events.len() == 0 {
        0
    } else {
        on_count(events.drop_last()) + match events.last() {
            NoteEvent::On(_) => 1nat,
            NoteEvent::Off(_) => 0nat,
        }
    }
}

/// How many voices the off-events of the sequence removed: each off-event
/// counts the voices of its note that were present when it arrived, so an
/// off-event for an absent note counts nothing and one for a doubled note
/// counts every duplicate.
pub open spec fn removed_count(init: Seq<Voice>, events: Seq<NoteEvent>) -> nat
    decreases events.len(),
{
    if events.len() == 0 {
        0
    } else {
        removed_count(init, events.drop_last()) + match events.last() {
            NoteEvent::On(_) => 0nat,
            NoteEvent::Off(n) => count_note(pool_after(init, events.drop_last()), n),
        }
    }
}

/// Law of the voice pool size: after any sequence of note-on and note-off
/// events the pool holds exactly the initial voices plus one voice per
/// on-event, less the voices that off-events found present and removed —
/// [`AppState::note_on`] and [`AppState::note_off`] ensure exactly the
/// per-event transformations that [`pool_after`] folds.
pub proof fn lemma_voice_pool_size(init: Seq<Voice>, events: Seq<NoteEvent>)
    ensures
        pool_after(init, events).len() + removed_count(init, events) == init.len() + on_count(
            events,
        ),
    decreases events.len(),
{
    if events.len() == 0 {
    } else {
        lemma_voice_pool_size(init, events.drop_last());
        match events.last() {
            NoteEvent::On(_) => {},
            NoteEvent::Off(n) => {
                lemma_remove_note_count(pool_after(init, events.drop_last()), n);
            },
        }
    }
}

} // verus!
