use vstd::prelude::*;

use crate::data::{Bar, NoteEvent};

verus! {

/// Length of one subdivision of a bar at the playing tempo, in milliseconds.
pub const QUARTER_NOTE_DURATION_MS: u64 = 500;

/// Wire form of a note event on channel 0: note-on `[0x90, note, velocity]`,
/// note-off `[0x80, note, 0]`.
pub open spec fn midi_message(event: NoteEvent) -> Seq<u8> {
    match event {
        NoteEvent::NoteOn { note, velocity } => seq![0x90u8, note, velocity],
        NoteEvent::NoteOff { note } => seq![0x80u8, note, 0u8],
    }
}

/// Encodes a note event for the output device; every event has an encoding.
pub fn note_event_to_midi_message(event: NoteEvent) -> (r: Option<[u8; 3]>)
    ensures
        r matches Some(m) && m@ == midi_message(event),
{
    let m: [u8; 3] = match event {
        NoteEvent::NoteOn { note, velocity } => [0x90, note, velocity],
        NoteEvent::NoteOff { note } => [0x80, note, 0],
    };
    assert(m@ =~= midi_message(event));
    Some(m)
}

/// Total duration of a bar, in milliseconds.
pub open spec fn bar_duration(bar: Bar) -> int {
    bar.beat * QUARTER_NOTE_DURATION_MS
}

pub fn bar_duration_ms(bar: &Bar) -> (r: u64)
    ensures
        r == bar_duration(*bar),
{
    bar.beat as u64 * QUARTER_NOTE_DURATION_MS
}

/// What the player does next.
#[derive(Debug, Clone, Copy, PartialEq, Eq)]
pub enum PlayerAction {
    /// Sleep this many milliseconds, then ask again.
    Wait(u64),
    /// Send this message to the output device.
    Send([u8; 3]),
    /// The bar, trailing silence included, is over: anchor the next bar now.
    EndBar,
}

/// Progress through the events of the bar being played.
pub struct BarPlayback {
    pub next_event: usize,
}

/// The action owed at `elapsed` milliseconds after the bar's anchor, with
/// `index` events already sent, when no event is due yet: wait for the next
/// event, or for the end of the bar.
pub open spec fn idle_action(bar: Bar, index: int, elapsed: int) -> PlayerAction {
    if index < bar.events@.len() {
        PlayerAction::Wait((bar.events@[index].0 - elapsed) as u64)
    } else if bar_duration(bar) > elapsed {
        PlayerAction::Wait((bar_duration(bar) - elapsed) as u64)
    } else {
        PlayerAction::EndBar
    }
}

/// A bar ends only once all its events are sent and its full duration has
/// elapsed since its anchor, so the next bar's anchor is at least one bar
/// duration after this one's.
pub proof fn lemma_bar_end_after_duration(bar: Bar, index: int, elapsed: int)
    requires
        idle_action(bar, index, elapsed) is EndBar,
    ensures
        index >= bar.events@.len(),
        elapsed >= bar_duration(bar),
{
}

impl BarPlayback {
    /// Playback at the start of a bar.
    pub fn new() -> (r: BarPlayback)
        ensures
            r.next_event == 0,
    {
        BarPlayback { next_event: 0 }
    }

    /// One decision of the player: wait until the next event's offset, send
    /// the event once its offset is reached (events in stored order), and after
    /// the last event wait out the rest of the bar's duration.
    pub fn step(&mut self, bar: &Bar, elapsed_ms: u64) -> (r: PlayerAction)
        requires
            old(self).next_event <= bar.events@.len(),
        ensures
            final(self).next_event <= bar.events@.len(),
            ({
                let i = old(self).next_event as int;
                if i < bar.events@.len() && bar.events@[i].0 as int <= elapsed_ms {
                    &&& r matches PlayerAction::Send(m)
                    &&& m@ == midi_message(bar.events@[i].1)
                    &&& final(self).next_event == i + 1
                } else {
                    &&& r == idle_action(*bar, i, elapsed_ms as int)
                    &&& final(self).next_event == i
                }
            }),
    {
        if self.next_event < bar.events.len() {
            let (offset, event) = bar.events[self.next_event];
            if offset as u64 > elapsed_ms {
                return PlayerAction::Wait(offset as u64 - elapsed_ms);
            }
            self.next_event = self.next_event + 1;
            match note_event_to_midi_message(event) {
                Some(m) => PlayerAction::Send(m),
                None => PlayerAction::EndBar,
            }
        } else {
            let duration = bar_duration_ms(bar);
            if duration > elapsed_ms {
                PlayerAction::Wait(duration - elapsed_ms)
            } else {
                PlayerAction::EndBar
            }
        }
    }
}

} // verus!
