//! Tests for the pure control layer: message decoding, track
//! validation, and the sequencer controller state machine.

use midis_touch::buffer::interleave_stereo;
use midis_touch::console::font_display_name;
use midis_touch::console::parse_port_choice;
use midis_touch::event::MidiEvent;
use midis_touch::event::decode_message;
use midis_touch::sequencer::Phase;
use midis_touch::sequencer::Sequencer;
use midis_touch::track::TimedEvent;
use midis_touch::track::Track;

fn ev(status: u8, data1: u8, data2: u8) -> MidiEvent {
    MidiEvent { status, data1, data2 }
}

fn track(frames: &[u64], length: u64) -> Track {
    let events: Vec<TimedEvent> = frames
        .iter()
        .map(|&frame| TimedEvent { frame, event: ev(0x90, 60, 100) })
        .collect();
    Track::new(events, length).expect("track data should be valid")
}

#[test]
fn decode_full_message() {
    let e = decode_message(&[0x90, 60, 100]);
    assert_eq!(e, ev(0x90, 60, 100));
}

#[test]
fn decode_ignores_extra_bytes() {
    let e = decode_message(&[0x90, 60, 100, 0x55, 0x66]);
    assert_eq!(e, ev(0x90, 60, 100));
}

#[test]
fn decode_missing_bytes_default_to_zero() {
    assert_eq!(decode_message(&[0x80, 64]), ev(0x80, 64, 0));
    assert_eq!(decode_message(&[0xF8]), ev(0xF8, 0, 0));
    assert_eq!(decode_message(&[]), ev(0, 0, 0));
}

#[test]
fn track_rejects_unordered_events() {
    let events = vec![
        TimedEvent { frame: 5, event: ev(0x90, 60, 100) },
        TimedEvent { frame: 3, event: ev(0x80, 60, 0) },
    ];
    assert!(Track::new(events, 10).is_err());
}

#[test]
fn track_rejects_event_at_or_past_end() {
    let events = vec![TimedEvent { frame: 10, event: ev(0x90, 60, 100) }];
    assert!(Track::new(events, 10).is_err());
    let events = vec![TimedEvent { frame: 11, event: ev(0x90, 60, 100) }];
    assert!(Track::new(events, 10).is_err());
}

#[test]
fn track_accepts_ordered_events() {
    let t = track(&[0, 3, 3, 9], 10);
    assert_eq!(t.length_frames(), 10);
    assert_eq!(t.event_count(), 4);
    assert_eq!(t.event_at(1).frame, 3);
}

#[test]
fn fresh_sequencer_is_stopped() {
    let s = Sequencer::new();
    assert_eq!(s.position(), 0);
    assert!(!s.end_of_sequence());
    assert_eq!(s.phase(), Phase::Stopped);
}

#[test]
fn advance_before_play_changes_nothing() {
    let mut s = Sequencer::new();
    let due = s.advance(1024);
    assert!(due.is_empty());
    assert_eq!(s.position(), 0);
    assert_eq!(s.phase(), Phase::Stopped);
}

#[test]
fn advance_emits_events_in_traversed_span() {
    let mut s = Sequencer::new();
    s.play(track(&[0, 100, 1000], 2000), false);
    assert_eq!(s.phase(), Phase::Playing);

    // Span [0, 100): only the event at frame 0 is due.
    let due = s.advance(100);
    assert_eq!(due.len(), 1);
    assert_eq!(s.position(), 100);

    // Span [100, 200): the event at frame 100 is due.
    let due = s.advance(100);
    assert_eq!(due.len(), 1);
    assert_eq!(s.position(), 200);

    // Span [200, 1000): nothing is due; the event at 1000 is not yet.
    let due = s.advance(800);
    assert!(due.is_empty());
    assert_eq!(s.position(), 1000);

    // Span [1000, 2000): the last event; the track completes.
    let due = s.advance(1000);
    assert_eq!(due.len(), 1);
    assert_eq!(s.position(), 2000);
    assert!(s.end_of_sequence());
}

#[test]
fn position_is_monotonic_while_playing() {
    let mut s = Sequencer::new();
    s.play(track(&[10, 20, 30], 1000), false);
    let mut last = s.position();
    for _ in 0..50 {
        s.advance(37);
        assert!(s.position() >= last);
        last = s.position();
    }
    assert_eq!(s.position(), 1000);
}

#[test]
fn end_of_sequence_exactly_at_full_length() {
    let mut s = Sequencer::new();
    s.play(track(&[], 100), false);
    s.advance(99);
    assert!(!s.end_of_sequence());
    assert_eq!(s.position(), 99);
    s.advance(1);
    assert!(s.end_of_sequence());
    assert_eq!(s.position(), 100);
    // Tail rendering: nothing moves, nothing is due.
    let due = s.advance(1024);
    assert!(due.is_empty());
    assert_eq!(s.position(), 100);
    assert!(s.end_of_sequence());
}

#[test]
fn scrub_commit_clamps_to_track() {
    let mut s = Sequencer::new();
    s.play(track(&[], 1000), false);
    s.advance(500);
    assert_eq!(s.position(), 500);

    s.offset_position(-100, true);
    assert_eq!(s.position(), 400);

    s.offset_position(-100_000, true);
    assert_eq!(s.position(), 0);

    s.offset_position(i64::MIN, true);
    assert_eq!(s.position(), 0);

    s.offset_position(100_000, true);
    assert_eq!(s.position(), 1000);
    assert!(s.end_of_sequence());

    // Scrubbing back from the end resumes playback.
    s.offset_position(-1, true);
    assert_eq!(s.position(), 999);
    assert!(!s.end_of_sequence());
    assert_eq!(s.phase(), Phase::Playing);
}

#[test]
fn scrub_preview_moves_cursor_only() {
    let mut s = Sequencer::new();
    s.play(track(&[100], 1000), false);
    s.advance(50);
    s.offset_position(200, false);
    assert_eq!(s.position(), 250);
    assert_eq!(s.phase(), Phase::Playing);
    s.offset_position(-300, false);
    assert_eq!(s.position(), 0);
}

#[test]
fn scrub_commit_resynchronises_events() {
    let mut s = Sequencer::new();
    s.play(track(&[100, 200, 300], 1000), false);
    // Jump past the first two events and commit: they are skipped,
    // not replayed.
    s.offset_position(250, true);
    let due = s.advance(100);
    assert_eq!(due.len(), 1);
    // Rewind to the start and commit: the whole track plays again.
    s.offset_position(-1000, true);
    let due = s.advance(1000);
    assert_eq!(due.len(), 3);
}

#[test]
fn scrub_without_track_changes_nothing() {
    let mut s = Sequencer::new();
    s.offset_position(500, true);
    assert_eq!(s.position(), 0);
    assert_eq!(s.phase(), Phase::Stopped);
}

#[test]
fn looping_track_wraps_and_replays() {
    let mut s = Sequencer::new();
    s.play(track(&[50], 100), true);
    let due = s.advance(60);
    assert_eq!(due.len(), 1);
    // Completing the pass wraps to the start instead of ending.
    s.advance(40);
    assert_eq!(s.position(), 0);
    assert!(!s.end_of_sequence());
    assert_eq!(s.phase(), Phase::Playing);
    // The next pass emits the same event again.
    let due = s.advance(60);
    assert_eq!(due.len(), 1);
}

#[test]
fn interleaving_alternates_the_channels() {
    let left: Vec<u32> = vec![1, 3, 5, 7];
    let right: Vec<u32> = vec![2, 4, 6, 8];
    let mut out: Vec<u32> = vec![0; 8];
    interleave_stereo(&left, &right, &mut out);
    assert_eq!(out, vec![1, 2, 3, 4, 5, 6, 7, 8]);
}

#[test]
fn interleaving_carries_float_samples() {
    let left: Vec<f32> = vec![0.5, -0.25];
    let right: Vec<f32> = vec![-1.0, 0.125];
    let mut out: Vec<f32> = vec![0.0; 4];
    interleave_stereo(&left, &right, &mut out);
    assert_eq!(out, vec![0.5, -1.0, -0.25, 0.125]);
}

#[test]
fn font_display_name_prefers_the_first_nonempty() {
    let names = vec![String::new(), "Cute GM".to_string(), "Other".to_string()];
    assert_eq!(font_display_name(&names), "Cute GM");
    assert_eq!(font_display_name(&vec![String::new(), String::new()]), "Unknown");
    assert_eq!(font_display_name(&Vec::new()), "Unknown");
}

#[test]
fn port_choice_parses_digits_and_checks_bounds() {
    assert_eq!(parse_port_choice(b"0", 3), Some(0));
    assert_eq!(parse_port_choice(b"2", 3), Some(2));
    assert_eq!(parse_port_choice(b"007", 8), Some(7));
    // The usual number parsers take one leading plus sign; so does this.
    assert_eq!(parse_port_choice(b"+0", 3), Some(0));
    assert_eq!(parse_port_choice(b"+2", 3), Some(2));
    assert_eq!(parse_port_choice(b"+", 3), None);
    assert_eq!(parse_port_choice(b"++1", 3), None);
    assert_eq!(parse_port_choice(b"3", 3), None);
    assert_eq!(parse_port_choice(b"", 3), None);
    assert_eq!(parse_port_choice(b"1a", 3), None);
    assert_eq!(parse_port_choice(b"-1", 3), None);
    assert_eq!(parse_port_choice(b"99999999999999999999999999", usize::MAX), None);
}

#[test]
fn ten_second_file_ends_after_the_last_buffer() {
    // A 10-second track at 44100 Hz, rendered in 1024-frame buffers:
    // 430 buffers cover 440320 frames, the 431st reaches the end.
    let length: u64 = 10 * 44100;
    let mut s = Sequencer::new();
    s.play(track(&[0, 44100, 441000 - 1], length), false);
    for _ in 0..430 {
        s.advance(1024);
        assert!(!s.end_of_sequence());
    }
    assert_eq!(s.position(), 430 * 1024);
    s.advance(1024);
    assert!(s.end_of_sequence());
    assert_eq!(s.position(), length);
}
