//! Real-time synthesis bridge for a MIDI player.
//!
//! Three independent actors — a periodic audio render callback, an
//! asynchronous MIDI event source, and an interactive control surface —
//! share one synthesizer/sequencer. This crate provides the verified
//! coordination layer between them: decoding raw MIDI messages into
//! events, a file-playback sequencer with a frame-accurate play cursor
//! (scrubbing, loop handling, end-of-sequence detection), soundfont
//! replacement that preserves playback state, and an exclusive-access
//! handle that guards the shared state.
//!
//! The wavetable synthesis itself is an opaque capability supplied by
//! the `rustysynth` crate; this crate talks to it only through a small
//! trusted boundary in [`engine`]. Audio buffers carry floating-point
//! samples and are therefore handled by the host around this library;
//! every position and duration inside the library is measured in whole
//! sample frames at the fixed session sample rate.

pub mod console;
pub mod sf2;
pub mod buffer;
pub mod event;
pub mod track;
pub mod engine;
pub mod sequencer;
pub mod bridge;
pub mod handle;
pub mod registry;
