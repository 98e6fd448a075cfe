//! The shared synthesizer handle and the dispatch of note events to it.
use vstd::prelude::*;
use std::sync::Arc;
use std::sync::Mutex;
use rustysynth::Synthesizer;
use crate::midi::NoteEvent;
use crate::midi::decode;
use crate::midi::decode_spec;

verus! {

#[verifier::external_type_specification]
#[verifier::external_body]
pub struct ExSynthesizer(rustysynth::Synthesizer);

#[verifier::external_type_specification]
#[verifier::external_body]
#[verifier::reject_recursive_types(T)]
pub struct ExMutex<T: ?Sized>(std::sync::Mutex<T>);

/// A holder's handle on the shared synthesizer. Alongside the shared engine
/// it records, as ghost state, the note events this holder has applied to it,
/// in order: what the engine has received through this handle.
pub struct SynthHandle {
    shared: Arc<Mutex<Synthesizer>>,
    applied: Ghost<Seq<NoteEvent>>,
}

impl SynthHandle {
    /// The events applied through this handle so far, oldest first.
    pub closed spec fn applied(&self) -> Seq<NoteEvent> {
        self.applied@
    }

    /// A handle on `shared` through which nothing has been applied yet.
    pub fn new(shared: Arc<Mutex<Synthesizer>>) -> (h: SynthHandle)
        ensures
            h.applied() == Seq::<NoteEvent>::empty(),
    {
        SynthHandle { shared, applied: Ghost(Seq::empty()) }
    }
}

/// Relies on `Mutex::lock` and `Synthesizer::note_on`: takes the lock, hands
/// `note_on(channel, note, velocity)` to the engine, releases the lock. When
/// the lock was poisoned by a panic of an earlier holder, the engine is not
/// touched and `false` is returned.
#[verifier::external_body]
fn locked_note_on(h: &mut SynthHandle, channel: u8, note: u8, velocity: u8) -> (locked: bool)
    ensures
        locked ==> final(h).applied() == old(h).applied().push(
            NoteEvent::On { channel, note, velocity },
        ),
        !locked ==> final(h).applied() == old(h).applied(),
{
    match h.shared.lock() {
        Ok(mut synth) => {
            synth.note_on(channel as i32, note as i32, velocity as i32);
            true
        },
        Err(_) => false,
    }
}

/// Relies on `Mutex::lock` and `Synthesizer::note_off`: takes the lock, hands
/// `note_off(channel, note)` to the engine, releases the lock. When the lock
/// was poisoned by a panic of an earlier holder, the engine is not touched and
/// `false` is returned.
#[verifier::external_body]
fn locked_note_off(h: &mut SynthHandle, channel: u8, note: u8) -> (locked: bool)
    ensures
        locked ==> final(h).applied() == old(h).applied().push(NoteEvent::Off { channel, note }),
        !locked ==> final(h).applied() == old(h).applied(),
{
    match h.shared.lock() {
        Ok(mut synth) => {
            synth.note_off(channel as i32, note as i32);
            true
        },
        Err(_) => false,
    }
}

/// Applies one event to the shared synthesizer under its lock: `note_on` for
/// a press, `note_off` for a release, with the event's own channel, note and
/// velocity. A poisoned lock makes this a no-op, reported as `false`.
pub fn apply_event(event: NoteEvent, h: &mut SynthHandle) -> (locked: bool)
    ensures
        locked ==> final(h).applied() == old(h).applied().push(event),
        !locked ==> final(h).applied() == old(h).applied(),
{
    match event {
        NoteEvent::On { channel, note, velocity } => locked_note_on(h, channel, note, velocity),
        NoteEvent::Off { channel, note } => locked_note_off(h, channel, note),
    }
}

/// Decodes a raw message from an input driver and applies the event it stands
/// for, if any. Returns that event, and whether it reached the engine.
/// Malformed or unrelated messages are dropped silently: the lock is not
/// taken and nothing is applied. At most one event is applied.
pub fn handle_midi_message(message: &[u8], h: &mut SynthHandle) -> (r: (Option<NoteEvent>, bool))
    ensures
        dispatched(message@, *old(h), *final(h), r),
{
    let event = decode(message);
    match event {
        Some(e) => {
            let locked = apply_event(e, h);
            (event, locked)
        },
        None => (event, false),
    }
}

/// Dispatch acts on the decoded event alone: two messages that decode alike
/// have the same effect on the synthesizer. In particular a note-on with
/// velocity zero and a note-off for the same note both apply only the
/// release of that note, and a message shorter than three bytes applies
/// nothing.
pub proof fn lemma_dispatch_depends_on_event(
    m1: Seq<u8>,
    m2: Seq<u8>,
    before1: SynthHandle,
    after1: SynthHandle,
    r1: (Option<NoteEvent>, bool),
    before2: SynthHandle,
    after2: SynthHandle,
    r2: (Option<NoteEvent>, bool),
)
    requires
        decode_spec(m1) == decode_spec(m2),
        before1.applied() == before2.applied(),
        dispatched(m1, before1, after1, r1),
        dispatched(m2, before2, after2, r2),
        r1.1 == r2.1,
    ensures
        after1.applied() == after2.applied(),
        m1.len() < 3 ==> after1.applied() == before1.applied(),
{
}

/// `after` and `r` are what `handle_midi_message` makes of `message` on the
/// handle `before`.
pub open spec fn dispatched(
    message: Seq<u8>,
    before: SynthHandle,
    after: SynthHandle,
    r: (Option<NoteEvent>, bool),
) -> bool {
    &&& r.0 == decode_spec(message)
    &&& r.0 is None ==> !r.1
    &&& r.1 ==> after.applied() == before.applied().push(r.0.unwrap())
    &&& !r.1 ==> after.applied() == before.applied()
}

/// The startup phrase, as (note, velocity) pairs on channel 0: a leap up
/// G4-B4-D5-G5 growing louder, then a softer step down F5-E5-D5.
pub open spec fn startup_phrase_spec() -> Seq<(u8, u8)> {
    seq![(67u8, 70u8), (71u8, 80u8), (74u8, 90u8), (79u8, 100u8), (77u8, 85u8), (76u8, 75u8), (74u8, 65u8)]
}

/// The startup phrase.
pub fn startup_phrase() -> (r: Vec<(u8, u8)>)
    ensures
        r@ == startup_phrase_spec(),
{
    let r: Vec<(u8, u8)> = vec![(67, 70), (71, 80), (74, 90), (79, 100), (77, 85), (76, 75), (74, 65)];
    assert(r@ =~= startup_phrase_spec());
    r
}

/// The events that play `phrase` on channel 0, one note at a time: each
/// note's press followed by its release.
pub fn phrase_events(phrase: &Vec<(u8, u8)>) -> (r: Vec<NoteEvent>)
    requires
        phrase.len() * 2 <= usize::MAX,
    ensures
        r.len() == 2 * phrase.len(),
        forall|i: int|
            0 <= i < phrase.len() ==> r[2 * i] == (NoteEvent::On {
                channel: 0,
                note: phrase[i].0,
                velocity: phrase[i].1,
            }) && r[2 * i + 1] == (NoteEvent::Off { channel: 0, note: phrase[i].0 }),
{
    let mut r: Vec<NoteEvent> = Vec::new();
    let mut i: usize = 0;
    while i < phrase.len()
        invariant
            0 <= i <= phrase.len(),
            r.len() == 2 * i,
            forall|k: int|
                0 <= k < i ==> r[2 * k] == (NoteEvent::On {
                    channel: 0,
                    note: phrase[k].0,
                    velocity: phrase[k].1,
                }) && r[2 * k + 1] == (NoteEvent::Off { channel: 0, note: phrase[k].0 }),
        decreases phrase.len() - i,
    {
        let (note, velocity) = phrase[i];
        r.push(NoteEvent::On { channel: 0, note, velocity });
        r.push(NoteEvent::Off { channel: 0, note });
        i = i + 1;
    }
    r
}

} // verus!
