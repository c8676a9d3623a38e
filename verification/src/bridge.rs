//! The bridge: one engine and one sequencer controller, operated as a
//! unit by the three actors.
//!
//! The audio render loop calls [`Bridge::render_advance`] once per
//! buffer: the sequencer yields the events due in the rendered span and
//! they are fed straight into the engine, so event timing is driven by
//! rendering. The MIDI event ingestor calls [`Bridge::ingest`] once per
//! raw message. The control surface adapter scrubs, starts playback and
//! swaps soundfonts; a failed swap reports the error and leaves the
//! previous engine untouched, and a successful one preserves the play
//! cursor, the end-of-sequence state and the sample rate.

use vstd::prelude::*;
use std::sync::Arc;
use crate::engine::Engine;
use crate::engine::soundfont_accepted;
use crate::engine::soundfont_from_bytes;
use crate::event::MidiEvent;
use crate::event::decode_message;
use crate::event::decoded_event;
use crate::sequencer::Phase;
use crate::sequencer::Sequencer;
use crate::sequencer::advance_post;
use crate::sequencer::scrub_post;
use crate::sf2::payload_structure_ok;
use crate::sf2::sf2_structure_ok;
use crate::track::Track;

verus! {

/// Why a bridge operation could not produce a new engine. Constructing
/// one can only fail on its inputs; it never disturbs the bridge.
#[derive(Debug)]
pub enum BridgeError {
    /// The payload failed the library's structural soundness check
    /// (see [`crate::sf2`]) and was never handed to the parser.
    MalformedSoundFont,
    /// The payload is structurally sound but the parser rejected it.
    RejectedSoundFont(rustysynth::SoundFontError),
    /// No synthesizer can be built at the requested sample rate.
    UnsupportedSampleRate(rustysynth::SynthesizerError),
}

/// The shared state all actors operate on: the synthesis engine plus
/// the sequencer controller that drives it during file playback.
pub struct Bridge {
    engine: Engine,
    seq: Sequencer,
}

/// What one render call's bookkeeping does to a playing bridge: the
/// sequencer takes one advance step, and exactly the events due in the
/// traversed span are delivered to the engine, in track order, appended
/// to its delivery record.
pub open spec fn render_post(pre: Bridge, post: Bridge, frames: u64) -> bool {
    exists|due: Seq<MidiEvent>|
        advance_post(pre.sequencer_spec(), post.sequencer_spec(), frames, due)
            && post.events_delivered() == pre.events_delivered() + due
}

impl Bridge {
    /// The sequencer controller's state.
    pub closed spec fn sequencer_spec(&self) -> Sequencer {
        self.seq
    }

    /// The sample rate fixed when the session's first engine was built.
    pub closed spec fn sample_rate_spec(&self) -> i32 {
        self.engine.sample_rate_spec()
    }

    /// Every event handed to the current engine, in delivery order. A
    /// fresh engine (session start or soundfont swap) starts an empty
    /// record.
    pub closed spec fn events_delivered(&self) -> Seq<MidiEvent> {
        self.engine.delivered_spec()
    }

    /// Both halves are well-formed: the engine runs at a legal rate and
    /// the sequencer controller's invariant holds.
    pub open spec fn wf(&self) -> bool {
        &&& 16000 <= self.sample_rate_spec() <= 192000
        &&& self.sequencer_spec().wf()
    }

    /// Builds the bridge for a session: a fresh engine for the given
    /// soundfont at the given sample rate, and a stopped sequencer.
    /// Succeeds exactly when the synthesizer supports the rate.
    pub fn new(font: &Arc<rustysynth::SoundFont>, sample_rate: i32) -> (r: Result<Bridge, BridgeError>)
        ensures
            r is Ok <==> 16000 <= sample_rate <= 192000,
            r is Ok ==> {
                let b = r->Ok_0;
                &&& b.wf()
                &&& b.sample_rate_spec() == sample_rate
                &&& b.sequencer_spec().phase_spec() is Stopped
                &&& b.sequencer_spec().cursor_spec() == 0
                &&& b.sequencer_spec().track_spec() is None
                &&& b.events_delivered() == Seq::<MidiEvent>::empty()
            },
            r is Err ==> r->Err_0 is UnsupportedSampleRate,
    {
        match Engine::new(font, sample_rate) {
            Ok(engine) => Ok(Bridge { engine, seq: Sequencer::new() }),
            Err(e) => Err(BridgeError::UnsupportedSampleRate(e)),
        }
    }

    /// Starts file playback: the sequencer is rewound onto the track
    /// and the engine is reset, as a fresh start of a file should not
    /// inherit sounding voices or controller state.
    pub fn play(&mut self, track: Track, looping: bool)
        requires
            old(self).wf(),
            track.wf(),
        ensures
            final(self).wf(),
            final(self).sample_rate_spec() == old(self).sample_rate_spec(),
            final(self).sequencer_spec().track_spec() == Some(track),
            final(self).sequencer_spec().looping_spec() == looping,
            final(self).sequencer_spec().cursor_spec() == 0,
            final(self).sequencer_spec().next_event_spec() == 0,
            final(self).sequencer_spec().phase_spec() is Playing,
            final(self).events_delivered() == old(self).events_delivered(),
    {
        self.seq.play(track, looping);
        self.engine.reset();
    }

    /// One render call's bookkeeping: advances playback by the rendered
    /// `frames` and feeds every event due in the traversed span into
    /// the engine, in track order. The caller renders the audio itself
    /// through [`Bridge::synthesizer_mut`] right after. Outside
    /// `Playing` this changes nothing, so rendering before any playable
    /// content exists simply leaves the engine idle (silence).
    pub fn render_advance(&mut self, frames: u64)
        requires
            old(self).wf(),
        ensures
            final(self).wf(),
            final(self).sample_rate_spec() == old(self).sample_rate_spec(),
            final(self).sequencer_spec().track_spec() == old(self).sequencer_spec().track_spec(),
            final(self).sequencer_spec().looping_spec() == old(self).sequencer_spec().looping_spec(),
            !(old(self).sequencer_spec().phase_spec() is Playing)
                ==> final(self).sequencer_spec() == old(self).sequencer_spec()
                    && final(self).events_delivered() == old(self).events_delivered(),
            old(self).sequencer_spec().phase_spec() is Playing
                ==> render_post(*old(self), *final(self), frames),
    {
        let ghost pre_bridge = *self;
        let ghost pre_seq = self.seq;
        let ghost pre_delivered = self.engine.delivered_spec();
        let due = self.seq.advance(frames);
        proof {
            assert(pre_delivered + due@.subrange(0, 0) =~= pre_delivered);
        }
        assert(old(self).sequencer_spec().phase_spec() is Playing
            ==> advance_post(pre_seq, self.seq, frames, due@));
        let ghost mid_seq = self.seq;
        let n = due.len();
        let mut i: usize = 0;
        while i < n
            invariant
                i <= n,
                n == due@.len(),
                self.seq == mid_seq,
                self.engine.sample_rate_spec() == old(self).sample_rate_spec(),
                self.engine.delivered_spec() == pre_delivered + due@.subrange(0, i as int),
                old(self).engine.wf(),
            decreases n - i,
        {
            self.engine.process_event(due[i]);
            proof {
                assert(due@.subrange(0, i + 1) =~= due@.subrange(0, i as int).push(due@[i as int]));
            }
            i = i + 1;
        }
        proof {
            assert(due@.subrange(0, n as int) =~= due@);
            if pre_seq.phase_spec() is Playing {
                assert(render_post(pre_bridge, *self, frames)) by {
                    assert(advance_post(pre_bridge.sequencer_spec(), self.sequencer_spec(), frames, due@)
                        && self.events_delivered() == pre_bridge.events_delivered() + due@);
                }
            } else {
                assert(pre_delivered + due@ =~= pre_delivered);
            }
        }
    }

    /// The MIDI event ingestor's per-message path: decodes the first
    /// three bytes of one raw message (missing bytes default to zero)
    /// and applies the event to the engine. Playback state is not
    /// involved: live input goes straight to the synthesizer, and the
    /// decoded event is delivered — appended to the engine's record,
    /// never dropped or reordered.
    pub fn ingest(&mut self, bytes: &[u8])
        requires
            old(self).wf(),
        ensures
            final(self).wf(),
            final(self).sample_rate_spec() == old(self).sample_rate_spec(),
            final(self).sequencer_spec() == old(self).sequencer_spec(),
            final(self).events_delivered()
                == old(self).events_delivered().push(decoded_event(bytes@)),
    {
        let e = decode_message(bytes);
        self.engine.process_event(e);
    }

    /// The control surface's drag-scrub path. The cursor moves by
    /// `delta` frames, clamped to the track; a committed scrub also
    /// silences the sounding voices, since events skipped or rewound
    /// over are deliberately not replayed.
    pub fn scrub(&mut self, delta: i64, commit: bool)
        requires
            old(self).wf(),
        ensures
            final(self).wf(),
            final(self).sample_rate_spec() == old(self).sample_rate_spec(),
            final(self).sequencer_spec().track_spec() == old(self).sequencer_spec().track_spec(),
            final(self).sequencer_spec().looping_spec() == old(self).sequencer_spec().looping_spec(),
            old(self).sequencer_spec().track_spec() is None
                ==> final(self).sequencer_spec() == old(self).sequencer_spec(),
            old(self).sequencer_spec().track_spec() is Some
                ==> scrub_post(old(self).sequencer_spec(), final(self).sequencer_spec(), delta, commit),
            final(self).events_delivered() == old(self).events_delivered(),
    {
        self.seq.offset_position(delta, commit);
        if commit {
            self.engine.silence(false);
        }
    }

    /// The play cursor, in frames from the start of the track.
    pub fn position(&self) -> (r: u64)
        ensures
            r == self.sequencer_spec().cursor_spec(),
    {
        self.seq.position()
    }

    /// Whether non-looping playback has reached the end of the track.
    pub fn end_of_sequence(&self) -> (r: bool)
        ensures
            r == (self.sequencer_spec().phase_spec() is EndOfSequence),
    {
        self.seq.end_of_sequence()
    }

    /// The sample rate fixed at session start.
    pub fn sample_rate(&self) -> (r: i32)
        ensures
            r == self.sample_rate_spec(),
    {
        self.engine.sample_rate()
    }

    /// Replaces the engine mid-session, e.g. after an instrument
    /// change. The new engine must run at the session's sample rate;
    /// the play cursor, phase and loaded track are untouched. Volume is
    /// engine state, so the new engine starts at its own default.
    pub fn set_engine(&mut self, engine: Engine)
        requires
            old(self).wf(),
            engine.wf(),
            engine.sample_rate_spec() == old(self).sample_rate_spec(),
        ensures
            final(self).wf(),
            final(self).sample_rate_spec() == old(self).sample_rate_spec(),
            final(self).sequencer_spec() == old(self).sequencer_spec(),
            final(self).events_delivered() == engine.delivered_spec(),
    {
        self.engine = engine;
    }

    /// The control surface's dropped-payload path: checks the raw bytes
    /// structurally (see [`crate::sf2`]), parses a soundfont from them,
    /// and swaps in a fresh engine for it at the session's sample rate.
    /// Succeeds exactly when the payload is structurally sound and the
    /// parser accepts it; any failure leaves the bridge — in particular
    /// the previous engine — exactly as it was. Success preserves the
    /// play cursor, the end-of-sequence state and the sample rate.
    pub fn swap_soundfont(&mut self, data: &[u8]) -> (r: Result<(), BridgeError>)
        requires
            old(self).wf(),
        ensures
            final(self).wf(),
            r is Ok <==> sf2_structure_ok(data@) && soundfont_accepted(data@),
            r is Err ==> *final(self) == *old(self)
                && !(r->Err_0 is UnsupportedSampleRate),
            final(self).sample_rate_spec() == old(self).sample_rate_spec(),
            final(self).sequencer_spec() == old(self).sequencer_spec(),
            r is Ok ==> final(self).events_delivered() == Seq::<MidiEvent>::empty(),
    {
        if !payload_structure_ok(data) {
            return Err(BridgeError::MalformedSoundFont);
        }
        let font = match soundfont_from_bytes(data) {
            Ok(font) => font,
            Err(e) => {
                return Err(BridgeError::RejectedSoundFont(e));
            },
        };
        let rate = self.engine.sample_rate();
        match Engine::new(&font, rate) {
            Ok(engine) => {
                self.engine = engine;
                Ok(())
            },
            Err(_) => {
                // Unreachable: the current engine's rate is legal, so a
                // fresh engine at the same rate cannot be refused.
                unreached()
            },
        }
    }

    /// Borrows the raw synthesizer so the host can render sample
    /// buffers or adjust the master volume (both floating point, so
    /// outside this library). Playback state and sample rate are
    /// untouched.
    pub fn synthesizer_mut(&mut self) -> (s: &mut rustysynth::Synthesizer)
        ensures
            final(self).sample_rate_spec() == old(self).sample_rate_spec(),
            final(self).sequencer_spec() == old(self).sequencer_spec(),
            final(self).events_delivered() == old(self).events_delivered(),
            final(self).wf() == old(self).wf(),
    {
        self.engine.synthesizer_mut()
    }
}

} // verus!
