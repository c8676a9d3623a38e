//! The sequencer controller: a frame-accurate play cursor over a track.
//!
//! The controller is a state machine over `Stopped`, `Playing` and
//! `EndOfSequence`. Playback is driven by rendering: each render call
//! advances the cursor by the rendered frame count and yields exactly
//! the events whose time falls in the traversed span, so audio output
//! and event timing can never drift apart. End-of-sequence is entered
//! exactly when the cursor reaches the track's length and looping is
//! off; with looping on, a pass that reaches the end emits the rest of
//! the track's events and the next render call starts the next pass.
//!
//! Scrubbing moves the cursor by a signed offset, clamped to the track.
//! An uncommitted move is a cheap preview: only the cursor changes. A
//! committed move also resynchronises the event index to the first
//! event at or after the new cursor — intermediate events in the
//! skipped or rewound span are deliberately not replayed; the caller
//! silences sounding voices instead (see the bridge).
//!
//! This module is pure control state: it holds no synthesizer and emits
//! events by returning them, so every path through it is verified and
//! directly testable.

use vstd::prelude::*;
use crate::event::MidiEvent;
use crate::track::Track;

verus! {

/// The playback state of the sequencer controller.
#[derive(PartialEq, Eq, Structural, Clone, Copy, Debug)]
pub enum Phase {
    /// No file has been started.
    Stopped,
    /// A track is loaded and rendering advances the cursor.
    Playing,
    /// The cursor reached the track's length with looping off; render
    /// calls keep producing tail audio but no further events are due.
    EndOfSequence,
}

/// Where an advance by `frames` stops: the cursor moves by the rendered
/// frame count but never past the end of the track.
pub open spec fn advance_target(cursor: u64, frames: u64, length: u64) -> u64 {
    if cursor + frames <= length {
        (cursor + frames) as u64
    } else {
        length
    }
}

/// Where a committed or previewed scrub lands: the cursor offset by
/// `delta`, clamped to the track's range.
pub open spec fn clamp_frames(pos: int, length: u64) -> u64 {
    if pos < 0 {
        0u64
    } else if pos > length {
        length
    } else {
        pos as u64
    }
}

/// What one render-driven advance of `frames` frames does to a playing
/// sequencer `pre`, leaving it as `post` with the batch `due` emitted:
/// `due` is exactly the run of not-yet-emitted events whose time falls
/// before the advance target, the cursor moves to the target (or wraps
/// to the start when a looping pass completes), and end-of-sequence is
/// entered exactly when a non-looping pass reaches the track's length.
pub open spec fn advance_post(pre: Sequencer, post: Sequencer, frames: u64, due: Seq<MidiEvent>) -> bool {
    let t = pre.track_spec()->Some_0;
    let target = advance_target(pre.cursor_spec(), frames, t.length_spec());
    let wrapped = target == t.length_spec() && pre.looping_spec();
    let start = pre.next_event_spec() as int;
    let k = start + due.len();
    &&& k <= t.events_seq().len()
    &&& forall|j: int| 0 <= j < due.len()
            ==> due[j] == t.events_seq()[start + j].event
                && t.events_seq()[start + j].frame < target
    &&& k < t.events_seq().len() ==> t.events_seq()[k].frame >= target
    &&& post.cursor_spec() == (if wrapped { 0u64 } else { target })
    &&& post.next_event_spec() as int == (if wrapped { 0int } else { k })
    &&& post.phase_spec() == (if target == t.length_spec() && !pre.looping_spec() {
            Phase::EndOfSequence
        } else {
            Phase::Playing
        })
}

/// What a scrub by `delta` frames does to a sequencer `pre` with a
/// loaded track, leaving it as `post`: the cursor lands on the old
/// cursor offset by `delta` and clamped to the track. A preview
/// (`commit == false`) changes nothing else; a committed scrub also
/// resynchronises the event index to the first event at or after the
/// new cursor and settles the phase.
pub open spec fn scrub_post(pre: Sequencer, post: Sequencer, delta: i64, commit: bool) -> bool {
    let t = pre.track_spec()->Some_0;
    let k = post.next_event_spec() as int;
    &&& post.cursor_spec() == clamp_frames(pre.cursor_spec() + delta as int, t.length_spec())
    &&& !commit ==> post.next_event_spec() == pre.next_event_spec()
            && post.phase_spec() == pre.phase_spec()
    &&& commit ==> {
        &&& k <= t.events_seq().len()
        &&& forall|j: int| 0 <= j < k ==> t.events_seq()[j].frame < post.cursor_spec()
        &&& k < t.events_seq().len() ==> t.events_seq()[k].frame >= post.cursor_spec()
        &&& post.phase_spec() == (if pre.phase_spec() is Stopped {
                Phase::Stopped
            } else if post.cursor_spec() == t.length_spec() && !pre.looping_spec() {
                Phase::EndOfSequence
            } else {
                Phase::Playing
            })
    }
}

/// The sequencer controller's state: the loaded track (if any), the
/// loop flag, the play cursor in frames, the index of the next event
/// not yet emitted, and the playback phase.
pub struct Sequencer {
    track: Option<Track>,
    looping: bool,
    cursor: u64,
    next_event: usize,
    phase: Phase,
}

impl Sequencer {
    /// The loaded track, if a file has been loaded.
    pub closed spec fn track_spec(&self) -> Option<Track> {
        self.track
    }

    /// Whether playback restarts from the top when the end is reached.
    pub closed spec fn looping_spec(&self) -> bool {
        self.looping
    }

    /// The play cursor, in frames from the start of the track.
    pub closed spec fn cursor_spec(&self) -> u64 {
        self.cursor
    }

    /// The index of the first track event not yet emitted.
    pub closed spec fn next_event_spec(&self) -> usize {
        self.next_event
    }

    /// The playback phase.
    pub closed spec fn phase_spec(&self) -> Phase {
        self.phase
    }

    /// The internal invariant: the cursor stays inside the track, the
    /// event index stays inside the event list, a phase other than
    /// `Stopped` implies a loaded track, and end-of-sequence can only
    /// hold with looping off.
    pub open spec fn wf(&self) -> bool {
        &&& match self.track_spec() {
            Some(t) => {
                &&& t.wf()
                &&& self.cursor_spec() <= t.length_spec()
                &&& self.next_event_spec() <= t.events_seq().len()
            },
            None => {
                &&& self.cursor_spec() == 0
                &&& self.next_event_spec() == 0
                &&& self.phase_spec() is Stopped
            },
        }
        &&& self.phase_spec() is EndOfSequence ==> !self.looping_spec()
    }

    /// A fresh controller: nothing loaded, nothing playing. Rendering
    /// in this state produces engine output only (silence on a fresh
    /// engine) and no events.
    pub fn new() -> (s: Sequencer)
        ensures
            s.wf(),
            s.track_spec() is None,
            s.phase_spec() is Stopped,
            s.cursor_spec() == 0,
    {
        Sequencer {
            track: None,
            looping: false,
            cursor: 0,
            next_event: 0,
            phase: Phase::Stopped,
        }
    }

    /// Starts playback of a track from its beginning with the given
    /// loop flag.
    pub fn play(&mut self, track: Track, looping: bool)
        requires
            track.wf(),
        ensures
            final(self).wf(),
            final(self).track_spec() == Some(track),
            final(self).looping_spec() == looping,
            final(self).cursor_spec() == 0,
            final(self).next_event_spec() == 0,
            final(self).phase_spec() is Playing,
    {
        self.track = Some(track);
        self.looping = looping;
        self.cursor = 0;
        self.next_event = 0;
        self.phase = Phase::Playing;
    }

    /// The play cursor, in frames from the start of the track.
    pub fn position(&self) -> (r: u64)
        ensures
            r == self.cursor_spec(),
    {
        self.cursor
    }

    /// Whether non-looping playback has reached the end of the track.
    pub fn end_of_sequence(&self) -> (r: bool)
        ensures
            r == (self.phase_spec() is EndOfSequence),
    {
        match self.phase {
            Phase::EndOfSequence => true,
            _ => false,
        }
    }

    /// The playback phase.
    pub fn phase(&self) -> (r: Phase)
        ensures
            r == self.phase_spec(),
    {
        self.phase
    }

    /// Advances playback by one rendered buffer of `frames` frames and
    /// returns exactly the events due in the traversed span, in track
    /// order. Outside `Playing` nothing moves and nothing is due. While
    /// `Playing`, the cursor moves to [`advance_target`]; if it reaches
    /// the end of the track, playback either wraps to the start (loop
    /// on) or enters `EndOfSequence` (loop off).
    pub fn advance(&mut self, frames: u64) -> (due: Vec<MidiEvent>)
        requires
            old(self).wf(),
        ensures
            final(self).wf(),
            final(self).track_spec() == old(self).track_spec(),
            final(self).looping_spec() == old(self).looping_spec(),
            !(old(self).phase_spec() is Playing) ==> *final(self) == *old(self) && due@.len() == 0,
            old(self).phase_spec() is Playing ==> advance_post(*old(self), *final(self), frames, due@),
    {
        let mut due: Vec<MidiEvent> = Vec::new();
        match self.phase {
            Phase::Playing => {}
            _ => {
                return due;
            }
        }
        let track = match &self.track {
            Some(t) => t,
            None => {
                // Unreachable: `Playing` implies a loaded track.
                return due;
            },
        };
        let length = track.length_frames();
        let target: u64 = if frames >= length - self.cursor {
            length
        } else {
            self.cursor + frames
        };
        let n = track.event_count();
        let ghost start = self.next_event as int;
        let ghost pre = *self;
        while self.next_event < n && track.event_at(self.next_event).frame < target
            invariant
                self.track == pre.track,
                self.cursor == pre.cursor,
                self.phase == pre.phase,
                self.looping == pre.looping,
                pre.track == Some(*track),
                pre.next_event as int == start,
                track.wf(),
                n == track.events_seq().len(),
                start <= self.next_event as int <= n as int,
                due@.len() == self.next_event as int - start,
                forall|j: int| 0 <= j < due@.len()
                    ==> due@[j] == track.events_seq()[start + j].event
                        && track.events_seq()[start + j].frame < target,
            decreases n - self.next_event,
        {
            due.push(track.event_at(self.next_event).event);
            self.next_event = self.next_event + 1;
        }
        self.cursor = target;
        if target == length {
            if self.looping {
                self.cursor = 0;
                self.next_event = 0;
            } else {
                self.phase = Phase::EndOfSequence;
            }
        }
        assert(advance_post(pre, *self, frames, due@));
        due
    }

    /// Moves the play cursor by `delta` frames, clamped to the track
    /// (no track loaded: nothing changes). An uncommitted move is a
    /// preview and changes the cursor alone. A committed move also
    /// resynchronises the event index to the first event at or after
    /// the new cursor and settles the phase: at the very end of a
    /// non-looping track it is `EndOfSequence`, anywhere else a
    /// started track goes (back) to `Playing`.
    pub fn offset_position(&mut self, delta: i64, commit: bool)
        requires
            old(self).wf(),
        ensures
            final(self).wf(),
            final(self).track_spec() == old(self).track_spec(),
            final(self).looping_spec() == old(self).looping_spec(),
            old(self).track_spec() is None ==> *final(self) == *old(self),
            old(self).track_spec() is Some ==> scrub_post(*old(self), *final(self), delta, commit),
    {
        let track = match &self.track {
            Some(t) => t,
            None => {
                return;
            },
        };
        let length = track.length_frames();
        let new_cursor: u64 = if delta >= 0 {
            let d = delta as u64;
            if d >= length - self.cursor {
                length
            } else {
                self.cursor + d
            }
        } else {
            // The magnitude of `delta`; `i64::MIN` has none of its own.
            let d: u64 = if delta == i64::MIN {
                9223372036854775808u64
            } else {
                (-delta) as u64
            };
            if d >= self.cursor {
                0
            } else {
                self.cursor - d
            }
        };
        self.cursor = new_cursor;
        if commit {
            let n = track.event_count();
            let mut k: usize = 0;
            while k < n && track.event_at(k).frame < new_cursor
                invariant
                    track.wf(),
                    n == track.events_seq().len(),
                    k <= n,
                    forall|j: int| 0 <= j < k ==> track.events_seq()[j].frame < new_cursor,
                decreases n - k,
            {
                k = k + 1;
            }
            self.next_event = k;
            match self.phase {
                Phase::Stopped => {}
                _ => {
                    if new_cursor == length && !self.looping {
                        self.phase = Phase::EndOfSequence;
                    } else {
                        self.phase = Phase::Playing;
                    }
                },
            }
        }
    }
}

/// During uninterrupted non-looping playback the play cursor never
/// moves backwards, and an advance ends in `EndOfSequence` exactly when
/// the cursor has reached the track's full length. This holds of every
/// render-driven step [`Sequencer::advance`] can take from a playing
/// state, and so, step by step, of a whole uninterrupted run.
pub proof fn lemma_playing_position_monotonic(pre: Sequencer, post: Sequencer, frames: u64, due: Seq<MidiEvent>)
    requires
        pre.wf(),
        pre.phase_spec() is Playing,
        !pre.looping_spec(),
        advance_post(pre, post, frames, due),
    ensures
        post.cursor_spec() >= pre.cursor_spec(),
        (post.phase_spec() is EndOfSequence)
            <==> post.cursor_spec() == pre.track_spec()->Some_0.length_spec(),
{
}

} // verus!
