//! File data for the sequencer: a track of frame-stamped events.
//!
//! A track is the playable content of one MIDI file, reduced to plain
//! values: every event carries the sample frame at which it is due, and
//! the track carries its total length in frames. The data is immutable
//! after construction. Times are whole frames at the session sample
//! rate, so event emission and audio rendering can never drift apart.

use vstd::prelude::*;
use crate::event::MidiEvent;

verus! {

/// One event of a track, due when the play cursor passes `frame`.
#[derive(PartialEq, Eq, Structural, Clone, Copy, Debug)]
pub struct TimedEvent {
    /// Sample frame (from the start of the track) at which the event is due.
    pub frame: u64,
    /// The message to hand to the synthesizer at that time.
    pub event: MidiEvent,
}

/// What makes a list of timed events playable as a track of
/// `length_frames` frames: events are ordered by time, and each falls
/// strictly before the end of the track (an event stamped at or past
/// the very end could never sound).
pub open spec fn track_data_wf(events: Seq<TimedEvent>, length_frames: u64) -> bool {
    &&& forall|i: int, j: int| 0 <= i <= j < events.len() ==> events[i].frame <= events[j].frame
    &&& forall|i: int| 0 <= i < events.len() ==> events[i].frame < length_frames
}

/// A track that failed validation: its events are not ordered by time,
/// or an event lies at or beyond the end of the track.
#[derive(PartialEq, Eq, Structural, Clone, Copy, Debug)]
pub struct InvalidTrack;

/// The playable content of one file: an ordered list of frame-stamped
/// events and the track's total length in frames. Immutable after load.
pub struct Track {
    events: Vec<TimedEvent>,
    length_frames: u64,
}

impl Track {
    /// The track's events, in playing order.
    pub closed spec fn events_seq(&self) -> Seq<TimedEvent> {
        self.events@
    }

    /// The track's total length in frames.
    pub closed spec fn length_spec(&self) -> u64 {
        self.length_frames
    }

    /// Every track that can be constructed is well-formed.
    pub open spec fn wf(&self) -> bool {
        track_data_wf(self.events_seq(), self.length_spec())
    }

    /// Validates and assembles a track. Succeeds exactly when the given
    /// events are ordered by time and all fall before `length_frames`.
    pub fn new(events: Vec<TimedEvent>, length_frames: u64) -> (r: Result<Track, InvalidTrack>)
        ensures
            r is Ok <==> track_data_wf(events@, length_frames),
            r is Ok ==> r->Ok_0.events_seq() == events@ && r->Ok_0.length_spec() == length_frames,
    {
        let n = events.len();
        let mut i: usize = 0;
        while i < n
            invariant
                n == events@.len(),
                i <= n,
                forall|k: int, l: int| 0 <= k <= l < i ==> events@[k].frame <= events@[l].frame,
                forall|k: int| 0 <= k < i ==> events@[k].frame < length_frames,
            decreases n - i,
        {
            if events[i].frame >= length_frames {
                return Err(InvalidTrack);
            }
            if i > 0 && events[i - 1].frame > events[i].frame {
                return Err(InvalidTrack);
            }
            assert(forall|k: int| 0 <= k < i ==> events@[k].frame <= events@[i as int].frame);
            i = i + 1;
        }
        Ok(Track { events, length_frames })
    }

    /// The total length of the track in frames.
    pub fn length_frames(&self) -> (r: u64)
        ensures
            r == self.length_spec(),
    {
        self.length_frames
    }

    /// How many events the track holds.
    pub fn event_count(&self) -> (r: usize)
        ensures
            r == self.events_seq().len(),
    {
        self.events.len()
    }

    /// The event at a given position in playing order.
    pub fn event_at(&self, i: usize) -> (r: TimedEvent)
        requires
            i < self.events_seq().len(),
        ensures
            r == self.events_seq()[i as int],
    {
        self.events[i]
    }
}

} // verus!
