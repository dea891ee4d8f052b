use music_generator::data::{Bar, Chord, NoteEvent, Tonality};
use music_generator::player::{bar_duration_ms, note_event_to_midi_message, BarPlayback, PlayerAction};

fn four_note_bar() -> Bar {
    Bar {
        beat: 4,
        tonality: Tonality::CM,
        chord: Chord::First,
        events: vec![
            (0, NoteEvent::NoteOn { note: 60, velocity: 80 }),
            (250, NoteEvent::NoteOff { note: 60 }),
            (500, NoteEvent::NoteOn { note: 64, velocity: 80 }),
            (750, NoteEvent::NoteOff { note: 64 }),
        ],
    }
}

/// Plays a bar against a simulated clock that advances exactly by each wait
/// plus `overshoot` milliseconds; returns the send times and the bar's end.
fn simulate(bar: &Bar, overshoot: u64) -> (Vec<(u64, [u8; 3])>, u64) {
    let mut clock = 0u64;
    let mut playback = BarPlayback::new();
    let mut sends = Vec::new();
    loop {
        match playback.step(bar, clock) {
            PlayerAction::Wait(ms) => clock += ms + overshoot,
            PlayerAction::Send(m) => sends.push((clock, m)),
            PlayerAction::EndBar => return (sends, clock),
        }
    }
}

#[test]
fn midi_messages() {
    assert_eq!(note_event_to_midi_message(NoteEvent::NoteOn { note: 60, velocity: 100 }), Some([0x90, 60, 100]));
    assert_eq!(note_event_to_midi_message(NoteEvent::NoteOff { note: 60 }), Some([0x80, 60, 0]));
}

#[test]
fn bar_duration_is_beats_times_quarter() {
    assert_eq!(bar_duration_ms(&four_note_bar()), 2000);
}

#[test]
fn sends_at_event_offsets() {
    let bar = four_note_bar();
    let (sends, end) = simulate(&bar, 0);
    let times: Vec<u64> = sends.iter().map(|(t, _)| *t).collect();
    assert_eq!(times, vec![0, 250, 500, 750]);
    assert_eq!(sends[0].1, [0x90, 60, 80]);
    assert_eq!(sends[1].1, [0x80, 60, 0]);
    assert_eq!(sends[3].1, [0x80, 64, 0]);
    assert_eq!(end, 2000);
}

#[test]
fn late_wakeups_stay_within_tolerance() {
    let bar = four_note_bar();
    let (sends, end) = simulate(&bar, 15);
    for ((t, _), expected) in sends.iter().zip([0u64, 250, 500, 750]) {
        assert!(*t >= expected && *t <= expected + 20, "send at {} for {}", t, expected);
    }
    assert!(end >= 2000);
}

#[test]
fn equal_offsets_keep_stored_order() {
    let mut bar = four_note_bar();
    bar.events = vec![
        (100, NoteEvent::NoteOn { note: 1, velocity: 1 }),
        (100, NoteEvent::NoteOn { note: 2, velocity: 1 }),
    ];
    let (sends, end) = simulate(&bar, 0);
    assert_eq!(sends, vec![(100, [0x90, 1, 1]), (100, [0x90, 2, 1])]);
    assert_eq!(end, 2000);
}

#[test]
fn behind_schedule_sends_at_once() {
    let bar = four_note_bar();
    let mut playback = BarPlayback::new();
    assert_eq!(playback.step(&bar, 600), PlayerAction::Send([0x90, 60, 80]));
    assert_eq!(playback.next_event, 1);
    assert_eq!(playback.step(&bar, 600), PlayerAction::Send([0x80, 60, 0]));
    assert_eq!(playback.step(&bar, 600), PlayerAction::Send([0x90, 64, 80]));
    assert_eq!(playback.step(&bar, 600), PlayerAction::Wait(150));
    assert_eq!(playback.step(&bar, 800), PlayerAction::Send([0x80, 64, 0]));
    assert_eq!(playback.step(&bar, 800), PlayerAction::Wait(1200));
    assert_eq!(playback.step(&bar, 2500), PlayerAction::EndBar);
}

#[test]
fn bounded_queue_holds_back_producer() {
    let (tx, mut rx) = tokio::sync::mpsc::channel::<Bar>(1);
    assert!(tx.try_send(four_note_bar()).is_ok());
    assert!(tx.try_send(four_note_bar()).is_err());
    assert_eq!(rx.len(), 1);
    assert!(rx.try_recv().is_ok());
    assert!(tx.try_send(four_note_bar()).is_ok());
}
