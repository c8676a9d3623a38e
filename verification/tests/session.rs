//! Tests for the bridge and the shared handle against the real
//! synthesizer, using a minimal but complete soundfont built in memory:
//! one preset, one instrument, one ten-sample wave.

use std::sync::Arc;

use midis_touch::bridge::Bridge;
use midis_touch::bridge::BridgeError;
use midis_touch::event::MidiEvent;
use midis_touch::handle::SharedHandle;
use midis_touch::registry::SoundFontRegistry;
use midis_touch::track::TimedEvent;
use midis_touch::track::Track;

fn push_u16(out: &mut Vec<u8>, v: u16) {
    out.extend_from_slice(&v.to_le_bytes());
}

fn push_u32(out: &mut Vec<u8>, v: u32) {
    out.extend_from_slice(&v.to_le_bytes());
}

fn push_i32(out: &mut Vec<u8>, v: i32) {
    out.extend_from_slice(&v.to_le_bytes());
}

fn push_name(out: &mut Vec<u8>, name: &str) {
    let mut bytes = name.as_bytes().to_vec();
    bytes.resize(20, 0);
    out.extend_from_slice(&bytes);
}

/// One preset ("Init") over one instrument over one short sample, with
/// every chunk the SF2 parser insists on.
fn minimal_soundfont() -> Vec<u8> {
    let mut pdta: Vec<u8> = Vec::new();
    pdta.extend_from_slice(b"pdta");

    // phdr: one preset record plus the terminal record.
    pdta.extend_from_slice(b"phdr");
    push_u32(&mut pdta, 76);
    push_name(&mut pdta, "Init");
    push_u16(&mut pdta, 0); // patch
    push_u16(&mut pdta, 0); // bank
    push_u16(&mut pdta, 0); // first zone
    push_u32(&mut pdta, 0); // library
    push_u32(&mut pdta, 0); // genre
    push_u32(&mut pdta, 0); // morphology
    push_name(&mut pdta, "EOP");
    push_u16(&mut pdta, 0);
    push_u16(&mut pdta, 0);
    push_u16(&mut pdta, 1); // terminal zone index
    push_u32(&mut pdta, 0);
    push_u32(&mut pdta, 0);
    push_u32(&mut pdta, 0);

    // pbag: one preset zone plus the terminal record.
    pdta.extend_from_slice(b"pbag");
    push_u32(&mut pdta, 8);
    push_u16(&mut pdta, 0); // first generator
    push_u16(&mut pdta, 0); // first modulator
    push_u16(&mut pdta, 1); // terminal generator index
    push_u16(&mut pdta, 0);

    // pgen: the zone selects instrument 0; plus the terminal record.
    pdta.extend_from_slice(b"pgen");
    push_u32(&mut pdta, 8);
    push_u16(&mut pdta, 41); // instrument selector
    push_u16(&mut pdta, 0);
    push_u16(&mut pdta, 0);
    push_u16(&mut pdta, 0);

    // inst: one instrument record plus the terminal record.
    pdta.extend_from_slice(b"inst");
    push_u32(&mut pdta, 44);
    push_name(&mut pdta, "Tone");
    push_u16(&mut pdta, 0);
    push_name(&mut pdta, "EOI");
    push_u16(&mut pdta, 1);

    // ibag: one instrument zone plus the terminal record.
    pdta.extend_from_slice(b"ibag");
    push_u32(&mut pdta, 8);
    push_u16(&mut pdta, 0);
    push_u16(&mut pdta, 0);
    push_u16(&mut pdta, 1);
    push_u16(&mut pdta, 0);

    // igen: the zone selects sample 0; plus the terminal record.
    pdta.extend_from_slice(b"igen");
    push_u32(&mut pdta, 8);
    push_u16(&mut pdta, 53); // sample selector
    push_u16(&mut pdta, 0);
    push_u16(&mut pdta, 0);
    push_u16(&mut pdta, 0);

    // shdr: one sample header plus the terminal record.
    pdta.extend_from_slice(b"shdr");
    push_u32(&mut pdta, 92);
    push_name(&mut pdta, "Blip");
    push_i32(&mut pdta, 0); // start
    push_i32(&mut pdta, 8); // end
    push_i32(&mut pdta, 0); // loop start
    push_i32(&mut pdta, 8); // loop end
    push_i32(&mut pdta, 44100);
    pdta.push(60); // original pitch
    pdta.push(0); // pitch correction
    push_u16(&mut pdta, 0); // link
    push_u16(&mut pdta, 1); // mono sample
    pdta.extend_from_slice(&[0u8; 46]);

    let mut out: Vec<u8> = Vec::new();
    out.extend_from_slice(b"RIFF");
    push_u32(&mut out, 4 + 12 + 40 + 8 + pdta.len() as u32);
    out.extend_from_slice(b"sfbk");

    // INFO list: empty, every field has a default.
    out.extend_from_slice(b"LIST");
    push_u32(&mut out, 4);
    out.extend_from_slice(b"INFO");

    // sdta list: ten silent 16-bit samples.
    out.extend_from_slice(b"LIST");
    push_u32(&mut out, 32);
    out.extend_from_slice(b"sdta");
    out.extend_from_slice(b"smpl");
    push_u32(&mut out, 20);
    out.extend_from_slice(&[0u8; 20]);

    out.extend_from_slice(b"LIST");
    push_u32(&mut out, pdta.len() as u32);
    out.extend_from_slice(&pdta);

    out
}

fn test_font() -> Arc<rustysynth::SoundFont> {
    let bytes = minimal_soundfont();
    let mut reader = bytes.as_slice();
    Arc::new(rustysynth::SoundFont::new(&mut reader).expect("the test soundfont should parse"))
}

fn test_bridge() -> Bridge {
    Bridge::new(&test_font(), 44100).expect("44100 Hz is a supported rate")
}

fn note_track() -> Track {
    let events = vec![
        TimedEvent { frame: 0, event: MidiEvent { status: 0x90, data1: 60, data2: 100 } },
        TimedEvent { frame: 4410, event: MidiEvent { status: 0x80, data1: 60, data2: 0 } },
    ];
    Track::new(events, 44100).expect("track data should be valid")
}

#[test]
fn minimal_soundfont_parses() {
    let font = test_font();
    assert_eq!(font.get_presets().len(), 1);
}

#[test]
fn bridge_rejects_unsupported_sample_rate() {
    let font = test_font();
    let r = Bridge::new(&font, 8000);
    assert!(matches!(r, Err(BridgeError::UnsupportedSampleRate(_))));
    assert!(Bridge::new(&font, 192000).is_ok());
}

#[test]
fn render_before_any_content_is_silence() {
    let mut bridge = test_bridge();
    bridge.render_advance(1024);
    let mut left = vec![0.125_f32; 1024];
    let mut right = vec![0.125_f32; 1024];
    bridge.synthesizer_mut().render(&mut left[..], &mut right[..]);
    assert!(left.iter().all(|&x| x == 0.0));
    assert!(right.iter().all(|&x| x == 0.0));
}

#[test]
fn file_playback_session_runs_to_end() {
    let mut bridge = test_bridge();
    bridge.play(note_track(), false);
    let mut left = vec![0.0_f32; 1024];
    let mut right = vec![0.0_f32; 1024];
    let mut calls = 0;
    while !bridge.end_of_sequence() {
        bridge.render_advance(1024);
        bridge.synthesizer_mut().render(&mut left[..], &mut right[..]);
        calls += 1;
        assert!(calls <= 44, "a one-second track must end within 44 buffers");
    }
    assert_eq!(bridge.position(), 44100);
    assert_eq!(calls, 44);
}

#[test]
fn live_messages_reach_the_engine() {
    let mut bridge = test_bridge();
    bridge.ingest(&[0x90, 60, 100]);
    bridge.ingest(&[0x80, 60]);
    let mut left = vec![0.0_f32; 256];
    let mut right = vec![0.0_f32; 256];
    bridge.synthesizer_mut().render(&mut left[..], &mut right[..]);
}

#[test]
fn soundfont_swap_preserves_playback_state() {
    let mut bridge = test_bridge();
    bridge.play(note_track(), false);
    bridge.render_advance(10000);
    let position = bridge.position();
    let eos = bridge.end_of_sequence();
    let rate = bridge.sample_rate();

    bridge.swap_soundfont(&minimal_soundfont()).expect("a valid payload must be accepted");

    assert_eq!(bridge.position(), position);
    assert_eq!(bridge.end_of_sequence(), eos);
    assert_eq!(bridge.sample_rate(), rate);

    // The swapped-in engine renders normally.
    bridge.render_advance(1024);
    let mut left = vec![0.0_f32; 1024];
    let mut right = vec![0.0_f32; 1024];
    bridge.synthesizer_mut().render(&mut left[..], &mut right[..]);
}

#[test]
fn instrument_swap_preserves_playback_state() {
    let mut bridge = test_bridge();
    bridge.play(note_track(), false);
    bridge.render_advance(8192);
    let position = bridge.position();

    // An instrument change builds a fresh engine at the session rate
    // and swaps it in under the same exclusive access.
    let engine = midis_touch::engine::Engine::new(&test_font(), bridge.sample_rate())
        .expect("the session rate is supported");
    bridge.set_engine(engine);

    assert_eq!(bridge.position(), position);
    assert!(!bridge.end_of_sequence());
    assert_eq!(bridge.sample_rate(), 44100);
    bridge.render_advance(1024);
    assert_eq!(bridge.position(), position + 1024);
}

#[test]
fn swap_preserves_end_of_sequence_state() {
    let mut bridge = test_bridge();
    bridge.play(note_track(), false);
    bridge.render_advance(50000);
    assert!(bridge.end_of_sequence());
    bridge.swap_soundfont(&minimal_soundfont()).expect("a valid payload must be accepted");
    assert!(bridge.end_of_sequence());
    assert_eq!(bridge.position(), 44100);
}

#[test]
fn malformed_soundfont_payload_is_rejected_and_state_kept() {
    let mut bridge = test_bridge();
    bridge.play(note_track(), false);
    bridge.render_advance(2048);
    let position = bridge.position();

    let r = bridge.swap_soundfont(b"this is not a soundfont at all");
    assert!(matches!(r, Err(BridgeError::MalformedSoundFont)));

    // The previous engine is still active: state unchanged, and a
    // subsequent render call succeeds.
    assert_eq!(bridge.position(), position);
    assert!(!bridge.end_of_sequence());
    bridge.render_advance(1024);
    let mut left = vec![0.0_f32; 1024];
    let mut right = vec![0.0_f32; 1024];
    bridge.synthesizer_mut().render(&mut left[..], &mut right[..]);
    assert_eq!(bridge.position(), position + 1024);
}

#[test]
fn truncated_soundfont_payload_is_rejected() {
    let mut bytes = minimal_soundfont();
    bytes.truncate(bytes.len() / 2);
    let mut bridge = test_bridge();
    assert!(bridge.swap_soundfont(&bytes).is_err());
}

#[test]
fn oversized_zone_index_is_rejected_not_fatal() {
    // A crafted payload: the terminal preset record names zone 10 where
    // the zone table has a single real zone. The parser would slice its
    // zone table with that index unchecked; the structural check must
    // reject the payload before the parser ever sees it.
    let mut bytes = minimal_soundfont();
    // The terminal phdr record starts at byte 122; its zone index is
    // the 16-bit field after the 20-byte name and two 16-bit fields.
    assert_eq!(&bytes[122..125], b"EOP");
    bytes[146] = 10;
    bytes[147] = 0;

    let mut bridge = test_bridge();
    bridge.play(note_track(), false);
    let position = bridge.position();
    let r = bridge.swap_soundfont(&bytes);
    assert!(matches!(r, Err(BridgeError::MalformedSoundFont)));
    assert_eq!(bridge.position(), position);

    // The session continues on the previous engine.
    bridge.render_advance(1024);
    let mut left = vec![0.0_f32; 1024];
    let mut right = vec![0.0_f32; 1024];
    bridge.synthesizer_mut().render(&mut left[..], &mut right[..]);
}

#[test]
fn oversized_sample_address_is_rejected_not_fatal() {
    // A crafted payload: the sample header claims a start address of
    // i32::MAX. The parser sums sample addresses with generator-
    // supplied offsets in plain 32-bit arithmetic, so such a payload
    // must be rejected before the parser ever sees it.
    let mut bytes = minimal_soundfont();
    // The first sample header starts at byte 284; its start address is
    // the 32-bit field after the 20-byte name.
    assert_eq!(&bytes[284..288], b"Blip");
    bytes[304..308].copy_from_slice(&i32::MAX.to_le_bytes());

    let mut bridge = test_bridge();
    let r = bridge.swap_soundfont(&bytes);
    assert!(matches!(r, Err(BridgeError::MalformedSoundFont)));

    // The session continues on the previous engine.
    bridge.render_advance(1024);
    let mut left = vec![0.0_f32; 1024];
    let mut right = vec![0.0_f32; 1024];
    bridge.synthesizer_mut().render(&mut left[..], &mut right[..]);
}

#[test]
fn structurally_sound_payload_can_still_be_rejected_by_the_parser() {
    // Keep the chunk structure intact but let the sample header claim
    // more wave data than the payload carries: the structural check
    // passes, the parser's own sanity check reports the error.
    let mut bytes = minimal_soundfont();
    // The first sample header starts at byte 284; its end offset is the
    // 32-bit field after the 20-byte name and the 32-bit start.
    assert_eq!(&bytes[284..288], b"Blip");
    bytes[308] = 100;

    let mut bridge = test_bridge();
    let r = bridge.swap_soundfont(&bytes);
    assert!(matches!(r, Err(BridgeError::RejectedSoundFont(_))));
}

#[test]
fn registry_retains_fonts_by_origin() {
    let mut registry = SoundFontRegistry::new();
    assert_eq!(registry.len(), 0);
    assert_eq!(registry.find(&"default".to_string()), None);

    registry.add("default".to_string(), test_font());
    registry.add("dropped:song.sf2".to_string(), test_font());
    assert_eq!(registry.len(), 2);
    assert_eq!(registry.find(&"default".to_string()), Some(0));
    assert_eq!(registry.find(&"dropped:song.sf2".to_string()), Some(1));
    assert_eq!(registry.find(&"elsewhere".to_string()), None);
    assert_eq!(registry.origin_at(1).as_str(), "dropped:song.sf2");

    // A retained entry powers a fresh engine at the session rate.
    let engine = midis_touch::engine::Engine::new(registry.font_at(0), 44100)
        .expect("the session rate is supported");
    let mut bridge = test_bridge();
    bridge.set_engine(engine);
    assert_eq!(bridge.sample_rate(), 44100);
}

#[test]
fn handle_serialises_all_actors() {
    let bridge = test_bridge();
    let handle = SharedHandle::new(bridge);

    // Control surface: start playback under the lock.
    let (mut b, w) = handle.acquire();
    b.play(note_track(), false);
    SharedHandle::release(w, b);

    // MIDI ingestor path.
    handle.ingest(&[0x90, 64, 90]);

    // Render loop path: advance and render under one acquisition.
    let mut left = vec![0.0_f32; 1024];
    let mut right = vec![0.0_f32; 1024];
    let (mut b, w) = handle.acquire();
    b.render_advance(1024);
    b.synthesizer_mut().render(&mut left[..], &mut right[..]);
    SharedHandle::release(w, b);

    // Control surface: scrub back to the start, committed.
    handle.scrub(-100_000, true);
    assert_eq!(handle.position(), 0);

    // A malformed drop is reported and the session keeps going.
    assert!(handle.swap_soundfont(b"garbage").is_err());
    assert!(!handle.end_of_sequence());
    assert_eq!(handle.position(), 0);

    // A valid drop swaps the engine under the same lock.
    assert!(handle.swap_soundfont(&minimal_soundfont()).is_ok());
    assert_eq!(handle.position(), 0);
}
