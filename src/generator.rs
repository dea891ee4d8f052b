use vstd::prelude::*;

use crate::data::{
    chord_at, chord_index, tonality_at, tonality_index, Bar, Chord,
    NoteEvent, Tonality,
};
use crate::melody::{
    compose_note, lemma_candidates_bounded, lemma_pitch_ranges, melody_note, position_weights,
    root_pitch, tonic_pitch_of, weights_at, candidate_pitches, choose_category, BEATS_PER_BAR,
    NOTE_DURATION_MS, NOTE_INTERVAL_MS, NOTE_VELOCITY,
};
use crate::sampler::{total_of, total_weight};
use crate::table::{has_row, row_error, rows_view, successor, table_valid, TransitionTable};

verus! {

/// The random draws that one bar consumes: one for each Markov chain, then
/// for each position of the bar one for the note category and one for the
/// pitch among that category's candidates.
pub struct BarDraws {
    pub tonality: u64,
    pub chord: u64,
    pub categories: Vec<u64>,
    pub picks: Vec<u64>,
}

/// One draw of each kind for every position of the bar.
pub open spec fn draws_wf(d: BarDraws) -> bool {
    d.categories@.len() == BEATS_PER_BAR && d.picks@.len() == BEATS_PER_BAR
}

/// What a generator is: its cursor and its two transition tables, with states
/// numbered in the declaration order of `Tonality` and `Chord`.
pub struct GeneratorView {
    pub tonality: Tonality,
    pub chord: Chord,
    pub tonality_rows: Seq<Seq<(usize, u32)>>,
    pub chord_rows: Seq<Seq<(usize, u32)>>,
}

/// The tables cover every key and every chord, and the cursor's states have rows.
pub open spec fn generator_wf(v: GeneratorView) -> bool {
    &&& v.tonality_rows.len() == 12
    &&& v.chord_rows.len() == 7
    &&& has_row(v.tonality_rows, tonality_index(v.tonality))
    &&& has_row(v.chord_rows, chord_index(v.chord))
}

pub open spec fn next_tonality(v: GeneratorView, draw: int) -> Tonality {
    tonality_at(successor(v.tonality_rows, tonality_index(v.tonality), draw) as int)
}

pub open spec fn next_chord(v: GeneratorView, draw: int) -> Chord {
    chord_at(successor(v.chord_rows, chord_index(v.chord), draw) as int)
}

/// The generator after a bar: both chains advanced, tables unchanged.
pub open spec fn advanced(v: GeneratorView, d: BarDraws) -> GeneratorView {
    GeneratorView {
        tonality: next_tonality(v, d.tonality as int),
        chord: next_chord(v, d.chord as int),
        ..v
    }
}

/// The note-on at the start of position `i` and its note-off a note's duration later.
pub open spec fn note_pair(i: int, note: u8) -> Seq<(u16, NoteEvent)> {
    seq![
        ((i * NOTE_INTERVAL_MS) as u16, NoteEvent::NoteOn { note, velocity: NOTE_VELOCITY }),
        ((i * NOTE_INTERVAL_MS + NOTE_DURATION_MS) as u16, NoteEvent::NoteOff { note }),
    ]
}

/// The events of the first `n` positions of a bar.
pub open spec fn melody_events(t: Tonality, c: Chord, d: BarDraws, n: int) -> Seq<(u16, NoteEvent)>
    decreases n,
{
    if n <= 0 {
        seq![]
    } else {
        melody_events(t, c, d, n - 1) + note_pair(
            n - 1,
            melody_note(t, c, n - 1, d.categories@[n - 1] as int, d.picks@[n - 1] as int),
        )
    }
}

/// The bar that a generator in state `v` produces from the draws `d`.
pub open spec fn bar_matches(b: Bar, v: GeneratorView, d: BarDraws) -> bool {
    let t = next_tonality(v, d.tonality as int);
    let c = next_chord(v, d.chord as int);
    &&& b.beat == BEATS_PER_BAR
    &&& b.tonality == t
    &&& b.chord == c
    &&& b.events@ == melody_events(t, c, d, BEATS_PER_BAR as int)
}

/// Bar generator: two independent first-order Markov chains, over keys and
/// over chords, and a melody composed inside each chosen chord.
pub struct MusicGenerator {
    previous_tonality: Tonality,
    previous_chord: Chord,
    tonality_transition_model: TransitionTable,
    chord_transition_model: TransitionTable,
}

impl View for MusicGenerator {
    type V = GeneratorView;

    closed spec fn view(&self) -> GeneratorView {
        GeneratorView {
            tonality: self.previous_tonality,
            chord: self.previous_chord,
            tonality_rows: self.tonality_transition_model@,
            chord_rows: self.chord_transition_model@,
        }
    }
}

/// Relies on rand's `Rng::random_range` on the thread-local generator
/// `rand::rng()`: a value in `0..bound`. It panics on an empty range, so
/// `bound` must be positive.
#[verifier::external_body]
fn random_below(bound: u64) -> (r: u64)
    requires
        bound > 0,
    ensures
        r < bound,
{
    rand::Rng::random_range(&mut rand::rng(), 0..bound)
}

/// The key chain of `MusicGenerator::new`: C major mostly stays, sometimes
/// moves to G or F major; G and F major mostly return to C major.
pub open spec fn default_tonality_rows() -> Seq<Seq<(usize, u32)>> {
    seq![
        seq![(0usize, 80u32), (1usize, 10u32), (11usize, 5u32)],
        seq![(0usize, 90u32), (1usize, 10u32)],
        seq![],
        seq![],
        seq![],
        seq![],
        seq![],
        seq![],
        seq![],
        seq![],
        seq![],
        seq![(0usize, 70u32), (1usize, 20u32), (11usize, 10u32)],
    ]
}

/// The chord chain of `MusicGenerator::new`: I leans to IV, IV to V, V back to I.
pub open spec fn default_chord_rows() -> Seq<Seq<(usize, u32)>> {
    seq![
        seq![(3usize, 5u32), (4usize, 3u32), (5usize, 2u32), (0usize, 1u32)],
        seq![(4usize, 10u32)],
        seq![],
        seq![(4usize, 8u32), (0usize, 2u32)],
        seq![(0usize, 10u32)],
        seq![(3usize, 5u32), (0usize, 5u32)],
        seq![],
    ]
}

proof fn lemma_default_tables_valid()
    ensures
        table_valid(default_tonality_rows()),
        table_valid(default_chord_rows()),
{
    reveal_with_fuel(total_weight, 5);
    let t = default_tonality_rows();
    let c = default_chord_rows();
    assert forall|k: int| 0 <= k < t.len() implies row_error(t, k) is None by {
        assert(total_weight(t[k]) <= 200);
    }
    assert forall|k: int| 0 <= k < c.len() implies row_error(c, k) is None by {
        assert(total_weight(c[k]) <= 20);
    }
}

proof fn lemma_position_totals(i: int)
    ensures
        total_weight(position_weights(i)) == 100,
{
    reveal_with_fuel(total_weight, 5);
}

proof fn lemma_melody_events_shape(t: Tonality, c: Chord, d: BarDraws, n: int)
    requires
        0 <= n <= BEATS_PER_BAR,
        draws_wf(d),
    ensures
        melody_events(t, c, d, n).len() == 2 * n,
        forall|k: int|
            0 <= k < n ==> {
                let note = melody_note(t, c, k, d.categories@[k] as int, d.picks@[k] as int);
                &&& #[trigger] melody_events(t, c, d, n)[2 * k] == note_pair(k, note)[0]
                &&& melody_events(t, c, d, n)[2 * k + 1] == note_pair(k, note)[1]
            },
    decreases n,
{
    if n > 0 {
        lemma_melody_events_shape(t, c, d, n - 1);
    }
}

/// In every generated bar each note-on is followed at once by the note-off of
/// the same pitch, a note's duration later, and every pitch and velocity is a
/// MIDI data value.
pub proof fn lemma_bar_notes_paired(b: Bar, v: GeneratorView, d: BarDraws)
    requires
        draws_wf(d),
        bar_matches(b, v, d),
    ensures
        forall|e: int|
            0 <= e < b.events@.len() ==> ((#[trigger] b.events@[e]).1 matches NoteEvent::NoteOn {
                note,
                velocity,
            } ==> {
                &&& e + 1 < b.events@.len()
                &&& b.events@[e + 1].1 == NoteEvent::NoteOff { note }
                &&& b.events@[e + 1].0 == b.events@[e].0 + NOTE_DURATION_MS
                &&& note <= 127
                &&& velocity <= 127
            }),
        forall|e: int|
            0 <= e < b.events@.len() ==> ((#[trigger] b.events@[e]).1 matches NoteEvent::NoteOff {
                note,
            } ==> note <= 127),
{
    let t = b.tonality;
    let c = b.chord;
    lemma_melody_events_shape(t, c, d, BEATS_PER_BAR as int);
    assert forall|e: int| 0 <= e < b.events@.len() implies {
        let k = e / 2;
        let note = melody_note(t, c, k, d.categories@[k] as int, d.picks@[k] as int);
        &&& 0 <= k < BEATS_PER_BAR
        &&& (e % 2 == 0 ==> #[trigger] b.events@[e] == note_pair(k, note)[0] && b.events@[e + 1] == note_pair(k, note)[1])
        &&& (e % 2 == 1 ==> b.events@[e] == note_pair(k, note)[1])
        &&& note <= 94
    } by {
        let k = e / 2;
        let cat = crate::melody::category_at(k, d.categories@[k] as int);
        lemma_candidates_bounded(t, c, cat);
        assert(melody_events(t, c, d, BEATS_PER_BAR as int)[2 * k] == note_pair(k, melody_note(t, c, k, d.categories@[k] as int, d.picks@[k] as int))[0]);
    }
}

/// The events of every generated bar are in non-decreasing order of offset,
/// and every offset lies within the bar's duration.
pub proof fn lemma_bar_offsets_ordered(b: Bar, v: GeneratorView, d: BarDraws)
    requires
        draws_wf(d),
        bar_matches(b, v, d),
    ensures
        forall|e: int|
            0 <= e < b.events@.len() ==> (#[trigger] b.events@[e]).0 < BEATS_PER_BAR * NOTE_INTERVAL_MS,
        forall|e1: int, e2: int|
            0 <= e1 <= e2 < b.events@.len() ==> (#[trigger] b.events@[e1]).0 <= (#[trigger] b.events@[e2]).0,
{
    let t = b.tonality;
    let c = b.chord;
    lemma_melody_events_shape(t, c, d, BEATS_PER_BAR as int);
    assert forall|e: int| 0 <= e < b.events@.len() implies (#[trigger] b.events@[e]).0 == 500 * (e / 2) + 250 * (e % 2) by {
        let k = e / 2;
        let note = melody_note(t, c, k, d.categories@[k] as int, d.picks@[k] as int);
        assert(melody_events(t, c, d, BEATS_PER_BAR as int)[2 * k] == note_pair(k, note)[0]);
    }
    assert forall|e1: int, e2: int| 0 <= e1 <= e2 < b.events@.len() implies (#[trigger] b.events@[e1]).0 <= (#[trigger] b.events@[e2]).0 by {
        assert(500 * (e1 / 2) + 250 * (e1 % 2) <= 500 * (e2 / 2) + 250 * (e2 % 2)) by (nonlinear_arith)
            requires 0 <= e1 <= e2;
    }
}

/// Generation is a function of the generator's state and the draws: the
/// same state and the same draws give the same bar and the same next state.
pub proof fn lemma_generation_deterministic(v: GeneratorView, d: BarDraws, b1: Bar, b2: Bar)
    requires
        bar_matches(b1, v, d),
        bar_matches(b2, v, d),
    ensures
        b1.beat == b2.beat,
        b1.tonality == b2.tonality,
        b1.chord == b2.chord,
        b1.events@ == b2.events@,
{
}

/// Each chain moves only to a state listed in the row of its current state.
pub proof fn lemma_next_states_listed(v: GeneratorView, d: BarDraws)
    requires
        generator_wf(v),
    ensures
        exists|j: int|
            0 <= j < v.tonality_rows[tonality_index(v.tonality)].len() && tonality_at(
                #[trigger] v.tonality_rows[tonality_index(v.tonality)][j].0 as int,
            ) == next_tonality(v, d.tonality as int),
        exists|j: int|
            0 <= j < v.chord_rows[chord_index(v.chord)].len() && chord_at(
                #[trigger] v.chord_rows[chord_index(v.chord)][j].0 as int,
            ) == next_chord(v, d.chord as int),
{
    crate::table::lemma_successor_listed(v.tonality_rows, tonality_index(v.tonality), d.tonality as int);
    crate::table::lemma_successor_listed(v.chord_rows, chord_index(v.chord), d.chord as int);
}

impl MusicGenerator {
    /// The generator in C major on chord I, over the default key and chord chains.
    pub fn new() -> (r: MusicGenerator)
        ensures
            generator_wf(r@),
            r@ == (GeneratorView {
                tonality: Tonality::CM,
                chord: Chord::First,
                tonality_rows: default_tonality_rows(),
                chord_rows: default_chord_rows(),
            }),
    {
        let tonality_rows: Vec<Vec<(usize, u32)>> = vec![
            vec![(0, 80), (1, 10), (11, 5)],
            vec![(0, 90), (1, 10)],
            Vec::new(),
            Vec::new(),
            Vec::new(),
            Vec::new(),
            Vec::new(),
            Vec::new(),
            Vec::new(),
            Vec::new(),
            Vec::new(),
            vec![(0, 70), (1, 20), (11, 10)],
        ];
        let chord_rows: Vec<Vec<(usize, u32)>> = vec![
            vec![(3, 5), (4, 3), (5, 2), (0, 1)],
            vec![(4, 10)],
            Vec::new(),
            vec![(4, 8), (0, 2)],
            vec![(0, 10)],
            vec![(3, 5), (0, 5)],
            Vec::new(),
        ];
        assert(rows_view(tonality_rows@) =~~= default_tonality_rows());
        assert(rows_view(chord_rows@) =~~= default_chord_rows());
        proof {
            lemma_default_tables_valid();
        }
        MusicGenerator {
            previous_tonality: Tonality::CM,
            previous_chord: Chord::First,
            tonality_transition_model: TransitionTable::from_valid_rows(tonality_rows),
            chord_transition_model: TransitionTable::from_valid_rows(chord_rows),
        }
    }

    /// A generator over the given tables, starting from `(tonality, chord)`.
    /// Fails with `IncompleteTransitionTable` exactly when a table does not
    /// cover every key (or every chord) or a starting state has no row.
    pub fn with_tables(
        tonality_model: TransitionTable,
        chord_model: TransitionTable,
        tonality: Tonality,
        chord: Chord,
    ) -> (r: Result<MusicGenerator, crate::table::TableError>)
        ensures
            r is Ok <==> generator_wf(
                GeneratorView {
                    tonality,
                    chord,
                    tonality_rows: tonality_model@,
                    chord_rows: chord_model@,
                },
            ),
            r matches Ok(g) ==> g@ == (GeneratorView {
                tonality,
                chord,
                tonality_rows: tonality_model@,
                chord_rows: chord_model@,
            }),
            r matches Err(e) ==> e == crate::table::TableError::IncompleteTransitionTable,
    {
        if tonality_model.len() != 12 || chord_model.len() != 7 || !tonality_model.has_row(
            tonality.index(),
        ) || !chord_model.has_row(chord.index()) {
            return Err(crate::table::TableError::IncompleteTransitionTable);
        }
        Ok(
            MusicGenerator {
                previous_tonality: tonality,
                previous_chord: chord,
                tonality_transition_model: tonality_model,
                chord_transition_model: chord_model,
            },
        )
    }

    /// Produces the next bar from fresh random draws, each uniform below the
    /// total weight (or candidate count) it selects from.
    pub fn generate_next_bar(&mut self) -> (r: Bar)
        requires
            generator_wf(old(self)@),
        ensures
            generator_wf(final(self)@),
            exists|d: BarDraws|
                draws_wf(d) && bar_matches(r, old(self)@, d) && final(self)@ == advanced(
                    old(self)@,
                    d,
                ),
    {
        let ghost before = self@;
        let t_index = self.previous_tonality.index();
        let c_index = self.previous_chord.index();
        let t_draw = random_below(self.tonality_transition_model.row_total(t_index));
        let c_draw = random_below(self.chord_transition_model.row_total(c_index));
        let tonality = self.choose_next_tonality(t_draw);
        let chord = self.choose_next_chord(c_draw);
        let mut categories: Vec<u64> = Vec::new();
        let mut picks: Vec<u64> = Vec::new();
        let mut i: usize = 0;
        while i < BEATS_PER_BAR as usize
            invariant
                i <= BEATS_PER_BAR,
                categories.len() == i,
                picks.len() == i,
            decreases BEATS_PER_BAR - i,
        {
            proof {
                lemma_position_totals(i as int);
            }
            let weights = weights_at(i);
            let category_draw = random_below(total_of(&weights) as u64);
            let category = choose_category(i, category_draw);
            let pick_draw = random_below(candidate_pitches(tonality, chord, category).len() as u64);
            categories.push(category_draw);
            picks.push(pick_draw);
            i = i + 1;
        }
        let draws = BarDraws { tonality: t_draw, chord: c_draw, categories, picks };
        let bar = self.generate_bar_with_draws(&draws);
        assert(draws_wf(draws) && bar_matches(bar, before, draws) && self@ == advanced(before, draws));
        bar
    }

    /// Produces the next bar from explicit draws: advances both chains, then
    /// composes the melody of the new chord in the new key.
    pub fn generate_bar_with_draws(&mut self, draws: &BarDraws) -> (r: Bar)
        requires
            generator_wf(old(self)@),
            draws_wf(*draws),
        ensures
            generator_wf(final(self)@),
            final(self)@ == advanced(old(self)@, *draws),
            bar_matches(r, old(self)@, *draws),
    {
        let tonality = self.choose_next_tonality(draws.tonality);
        let chord = self.choose_next_chord(draws.chord);
        let bar = Self::generate_events_for_chord(tonality, chord, draws);
        self.previous_tonality = tonality;
        self.previous_chord = chord;
        bar
    }

    /// The key that `draw` selects from the row of the current key.
    fn choose_next_tonality(&self, draw: u64) -> (r: Tonality)
        requires
            generator_wf(self@),
        ensures
            r == next_tonality(self@, draw as int),
            has_row(self@.tonality_rows, tonality_index(r)),
    {
        Tonality::from_index(self.tonality_transition_model.next(self.previous_tonality.index(), draw))
    }

    /// The chord that `draw` selects from the row of the current chord.
    fn choose_next_chord(&self, draw: u64) -> (r: Chord)
        requires
            generator_wf(self@),
        ensures
            r == next_chord(self@, draw as int),
            has_row(self@.chord_rows, chord_index(r)),
    {
        Chord::from_index(self.chord_transition_model.next(self.previous_chord.index(), draw))
    }

    /// The bar of `chord` in `tonality`: at each position a note chosen by
    /// that position's draws, sounding from the position's start for a
    /// note's duration.
    pub fn generate_events_for_chord(tonality: Tonality, chord: Chord, draws: &BarDraws) -> (r: Bar)
        requires
            draws_wf(*draws),
        ensures
            r.beat == BEATS_PER_BAR,
            r.tonality == tonality,
            r.chord == chord,
            r.events@ == melody_events(tonality, chord, *draws, BEATS_PER_BAR as int),
    {
        let mut events: Vec<(u16, NoteEvent)> = Vec::new();
        let mut i: usize = 0;
        while i < BEATS_PER_BAR as usize
            invariant
                draws_wf(*draws),
                i <= BEATS_PER_BAR,
                events@ == melody_events(tonality, chord, *draws, i as int),
            decreases BEATS_PER_BAR - i,
        {
            let note = compose_note(tonality, chord, i, draws.categories[i], draws.picks[i]);
            let start: u16 = i as u16 * NOTE_INTERVAL_MS;
            events.push((start, NoteEvent::NoteOn { note, velocity: NOTE_VELOCITY }));
            events.push((start + NOTE_DURATION_MS, NoteEvent::NoteOff { note }));
            assert(events@ =~= melody_events(tonality, chord, *draws, i + 1));
            i = i + 1;
        }
        Bar { beat: BEATS_PER_BAR, tonality, chord, events }
    }

    /// MIDI pitch of the root of `chord` in `tonality`.
    pub fn get_root_midi_note(tonality: Tonality, chord: Chord) -> (r: u8)
        ensures
            r == root_pitch(tonality, chord),
            60 <= r <= 82,
    {
        proof {
            lemma_pitch_ranges(tonality, chord);
        }
        let interval: u8 = match chord {
            Chord::First => 0,
            Chord::Second => 2,
            Chord::Third => 4,
            Chord::Fourth => 5,
            Chord::Fifth => 7,
            Chord::Sixth => 9,
            Chord::Seventh => 11,
        };
        tonic_pitch_of(tonality) + interval
    }
}

} // verus!
