//! MIDI events and the decoding done by the MIDI event ingestor.
//!
//! The external MIDI source delivers raw byte messages on its own
//! thread. The ingestor reduces each message to the first three bytes
//! (status, data1, data2); real MIDI traffic routinely omits trailing
//! data bytes, so missing bytes default to zero rather than being an
//! error. All input ports are multiplexed onto one logical channel.

use vstd::prelude::*;

verus! {

/// The single logical channel every decoded message is delivered on.
pub const LOGICAL_CHANNEL: i32 = 1;

/// One MIDI-style message, already reduced to the three bytes the
/// synthesizer consumes. Transient: it is produced by decoding and
/// consumed synchronously by the engine call that processes it.
#[derive(PartialEq, Eq, Structural, Clone, Copy, Debug)]
pub struct MidiEvent {
    /// Status byte: command in the high nibble, wire channel in the low.
    pub status: u8,
    /// First data byte (key, controller number, patch, ...).
    pub data1: u8,
    /// Second data byte (velocity, controller value, ...).
    pub data2: u8,
}

/// The event a raw message decodes to: its first three bytes, with any
/// missing byte defaulting to zero.
pub open spec fn decoded_event(bytes: Seq<u8>) -> MidiEvent {
    MidiEvent {
        status: if bytes.len() > 0 { bytes[0] } else { 0u8 },
        data1: if bytes.len() > 1 { bytes[1] } else { 0u8 },
        data2: if bytes.len() > 2 { bytes[2] } else { 0u8 },
    }
}

/// Decodes a raw MIDI message into the event the engine will process.
pub fn decode_message(bytes: &[u8]) -> (e: MidiEvent)
    ensures
        e == decoded_event(bytes@),
{
    let status: u8 = if bytes.len() > 0 { bytes[0] } else { 0 };
    let data1: u8 = if bytes.len() > 1 { bytes[1] } else { 0 };
    let data2: u8 = if bytes.len() > 2 { bytes[2] } else { 0 };
    MidiEvent { status, data1, data2 }
}

} // verus!
