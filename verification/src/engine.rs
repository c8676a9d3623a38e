//! The synthesizer engine: the opaque synthesis capability.
//!
//! The engine accepts discrete MIDI-style events and produces audio on
//! demand; its numerical behaviour (voices, envelopes, interpolation)
//! is supplied by the `rustysynth` crate and is not modelled here. This
//! module is the crate's whole trusted boundary to it: a few declared
//! types and thin wrappers whose contracts state only what that crate's
//! source shows. Everything the rest of the crate proves about playback
//! state is independent of what the synthesizer computes.
//!
//! Rendering itself fills floating-point sample buffers and therefore
//! happens outside this library, through [`Engine::synthesizer_mut`].

use vstd::prelude::*;
use std::sync::Arc;
use crate::event::MidiEvent;
use crate::event::LOGICAL_CHANNEL;

verus! {

#[verifier::external_type_specification]
#[verifier::external_body]
pub struct ExSoundFont(rustysynth::SoundFont);

#[verifier::external_type_specification]
#[verifier::external_body]
pub struct ExSynthesizer(rustysynth::Synthesizer);

#[verifier::external_type_specification]
#[verifier::external_body]
pub struct ExSoundFontError(rustysynth::SoundFontError);

#[verifier::external_type_specification]
#[verifier::external_body]
pub struct ExSynthesizerError(rustysynth::SynthesizerError);

/// Whether `rustysynth::SoundFont::new` accepts the given bytes as a
/// complete, well-formed SF2 soundfont. The parser reads from the bytes
/// alone, so acceptance is a function of the payload and nothing else.
pub uninterp spec fn soundfont_accepted(data: Seq<u8>) -> bool;

/// Relies on `rustysynth::SoundFont::new`: parses an SF2 soundfont from
/// a byte slice and reports bad data as `Err`; whether it accepts the
/// payload depends on the bytes alone. The parser indexes its zone and
/// generator tables with file-supplied values, allocates declared chunk
/// sizes without checking them, and sums file-supplied sample addresses
/// and generator offsets in plain 32-bit arithmetic, so it can abort on
/// crafted payloads; it is therefore only called on payloads that pass
/// the verified structural check (see [`crate::sf2`]), on which every
/// such index and size is provably in bounds, every address sum fits,
/// and it returns normally.
#[verifier::external_body]
pub(crate) fn soundfont_from_bytes(data: &[u8]) -> (r: Result<Arc<rustysynth::SoundFont>, rustysynth::SoundFontError>)
    requires
        crate::sf2::sf2_structure_ok(data@),
    ensures
        r is Ok <==> soundfont_accepted(data@),
{
    let mut reader: &[u8] = data;
    match rustysynth::SoundFont::new(&mut reader) {
        Ok(font) => Ok(Arc::new(font)),
        Err(e) => Err(e),
    }
}

/// Relies on `rustysynth::Synthesizer::new`, called with the default
/// `rustysynth::SynthesizerSettings` for the given sample rate (block
/// size 64, maximum polyphony 64, both always in their legal ranges):
/// construction succeeds exactly when the sample rate lies in
/// 16_000..=192_000, and the new synthesizer renders at that rate.
#[verifier::external_body]
fn synthesizer_new(font: &Arc<rustysynth::SoundFont>, sample_rate: i32) -> (r: Result<rustysynth::Synthesizer, rustysynth::SynthesizerError>)
    ensures
        r is Ok <==> 16000 <= sample_rate <= 192000,
{
    rustysynth::Synthesizer::new(font, &rustysynth::SynthesizerSettings::new(sample_rate))
}

/// Relies on `rustysynth::Synthesizer::process_midi_message`: applies
/// one MIDI message to the synthesizer's state, accepting any byte
/// values and silently ignoring messages it does not understand.
#[verifier::external_body]
fn synthesizer_process(synth: &mut rustysynth::Synthesizer, channel: i32, command: i32, data1: i32, data2: i32)
{
    synth.process_midi_message(channel, command, data1, data2);
}

/// Relies on `rustysynth::Synthesizer::note_off_all`: releases every
/// sounding voice (immediately, or with its release envelope); used
/// when a committed seek must not leave stale notes ringing.
#[verifier::external_body]
fn synthesizer_note_off_all(synth: &mut rustysynth::Synthesizer, immediate: bool)
{
    synth.note_off_all(immediate);
}

/// Relies on `rustysynth::Synthesizer::reset`: returns the synthesizer
/// to its initial state (all voices cleared, controllers reset), as is
/// done when playback of a file starts from the beginning.
#[verifier::external_body]
fn synthesizer_reset(synth: &mut rustysynth::Synthesizer)
{
    synth.reset();
}

/// The engine state: the opaque synthesizer paired with the sample rate
/// it was constructed at. The rate is immutable after construction and
/// every legal engine carries one in the synthesizer's legal range.
/// Alongside the opaque synthesizer the engine keeps a ghost record of
/// every event handed to it, in order, so callers can state that an
/// event was delivered rather than dropped.
pub struct Engine {
    synth: rustysynth::Synthesizer,
    sample_rate: i32,
    delivered: Ghost<Seq<MidiEvent>>,
}

impl Engine {
    /// The sample rate the engine was constructed at.
    pub closed spec fn sample_rate_spec(&self) -> i32 {
        self.sample_rate
    }

    /// Every event handed to this engine since its construction, in
    /// delivery order.
    pub closed spec fn delivered_spec(&self) -> Seq<MidiEvent> {
        self.delivered@
    }

    /// Every engine that can be constructed renders at a legal rate.
    pub open spec fn wf(&self) -> bool {
        16000 <= self.sample_rate_spec() <= 192000
    }

    /// Builds a fresh engine for the given soundfont at the given
    /// sample rate. Succeeds exactly when the rate is one the
    /// synthesizer supports; the soundfont itself, already parsed, can
    /// no longer be rejected. A fresh engine starts at the
    /// synthesizer's own default master volume: volume is engine state
    /// and is never carried over from a previous engine.
    pub fn new(font: &Arc<rustysynth::SoundFont>, sample_rate: i32) -> (r: Result<Engine, rustysynth::SynthesizerError>)
        ensures
            r is Ok <==> 16000 <= sample_rate <= 192000,
            r is Ok ==> r->Ok_0.sample_rate_spec() == sample_rate && r->Ok_0.wf()
                && r->Ok_0.delivered_spec() == Seq::<MidiEvent>::empty(),
    {
        match synthesizer_new(font, sample_rate) {
            Ok(synth) => Ok(Engine { synth, sample_rate, delivered: Ghost(Seq::empty()) }),
            Err(e) => Err(e),
        }
    }

    /// The sample rate the engine was constructed at.
    pub fn sample_rate(&self) -> (r: i32)
        ensures
            r == self.sample_rate_spec(),
    {
        self.sample_rate
    }

    /// Feeds one decoded event to the synthesizer on the fixed logical
    /// channel. Never fails, never changes the sample rate, and the
    /// event is appended to the delivery record — exactly one event per
    /// call, in call order.
    pub fn process_event(&mut self, e: MidiEvent)
        ensures
            final(self).sample_rate_spec() == old(self).sample_rate_spec(),
            final(self).delivered_spec() == old(self).delivered_spec().push(e),
    {
        synthesizer_process(
            &mut self.synth,
            LOGICAL_CHANNEL,
            e.status as i32,
            e.data1 as i32,
            e.data2 as i32,
        );
        proof {
            self.delivered@ = self.delivered@.push(e);
        }
    }

    /// Silences every sounding voice; the engine's identity and sample
    /// rate are untouched.
    pub fn silence(&mut self, immediate: bool)
        ensures
            final(self).sample_rate_spec() == old(self).sample_rate_spec(),
            final(self).delivered_spec() == old(self).delivered_spec(),
    {
        synthesizer_note_off_all(&mut self.synth, immediate);
    }

    /// Returns the synthesizer to its initial state, as when playback
    /// starts over from the top of a file.
    pub fn reset(&mut self)
        ensures
            final(self).sample_rate_spec() == old(self).sample_rate_spec(),
            final(self).delivered_spec() == old(self).delivered_spec(),
    {
        synthesizer_reset(&mut self.synth);
    }

    /// Borrows the raw synthesizer so the host can render audio out of
    /// it (sample buffers are floating point and live outside this
    /// library). The engine's recorded sample rate is untouched.
    pub fn synthesizer_mut(&mut self) -> (s: &mut rustysynth::Synthesizer)
        ensures
            final(self).sample_rate_spec() == old(self).sample_rate_spec(),
            final(self).delivered_spec() == old(self).delivered_spec(),
    {
        &mut self.synth
    }
}

} // verus!
