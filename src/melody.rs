use vstd::prelude::*;

use crate::data::{Chord, Tonality};
use crate::generator::MusicGenerator;
use crate::sampler::{pick_index, select};

verus! {

/// Number of subdivisions of a bar; each carries one note.
pub const BEATS_PER_BAR: u16 = 4;

/// Time between the starts of two consecutive notes, in milliseconds.
pub const NOTE_INTERVAL_MS: u16 = 500;

/// How long each note sounds, in milliseconds; shorter than the interval.
pub const NOTE_DURATION_MS: u16 = 250;

/// Velocity of every generated note.
pub const NOTE_VELOCITY: u8 = 80;

/// The melodic note categories sampled at each position of a bar.
#[derive(Debug, Clone, Copy, PartialEq, Eq, Structural, Hash)]
pub enum Category {
    Root,
    ChordTone,
    ScaleTone,
    OutOfScale,
}

/// MIDI pitch of the tonic of a key, in the octave from middle C.
pub open spec fn tonic_pitch(t: Tonality) -> u8 {
    match t {
        Tonality::CM => 60,
        Tonality::GM => 67,
        Tonality::DM => 62,
        Tonality::AM => 69,
        Tonality::EM => 64,
        Tonality::BM => 71,
        Tonality::GFM => 66,
        Tonality::DFM => 61,
        Tonality::AFM => 68,
        Tonality::EFM => 63,
        Tonality::BFM => 70,
        Tonality::FM => 65,
    }
}

/// Semitones from the tonic to the root of a scale degree.
pub open spec fn degree_interval(c: Chord) -> u8 {
    match c {
        Chord::First => 0,
        Chord::Second => 2,
        Chord::Third => 4,
        Chord::Fourth => 5,
        Chord::Fifth => 7,
        Chord::Sixth => 9,
        Chord::Seventh => 11,
    }
}

pub open spec fn root_pitch(t: Tonality, c: Chord) -> u8 {
    (tonic_pitch(t) + degree_interval(c)) as u8
}

/// Third of the triad: major on I, IV and V; minor otherwise.
pub open spec fn third_interval(c: Chord) -> u8 {
    match c {
        Chord::First | Chord::Fourth | Chord::Fifth => 4,
        _ => 3,
    }
}

/// Fifth of the triad: diminished on vii, perfect otherwise.
pub open spec fn fifth_interval(c: Chord) -> u8 {
    match c {
        Chord::Seventh => 6,
        _ => 7,
    }
}

/// Root, third, fifth and octave of the chord.
pub open spec fn chord_tones(t: Tonality, c: Chord) -> Seq<u8> {
    let r = root_pitch(t, c);
    seq![r, (r + third_interval(c)) as u8, (r + fifth_interval(c)) as u8, (r + 12) as u8]
}

/// The seven pitches of the key's major scale.
pub open spec fn scale_tones(t: Tonality) -> Seq<u8> {
    let k = tonic_pitch(t);
    seq![
        k,
        (k + 2) as u8,
        (k + 4) as u8,
        (k + 5) as u8,
        (k + 7) as u8,
        (k + 9) as u8,
        (k + 11) as u8,
    ]
}

/// The elements of `s` not in `excluded`, in order.
pub open spec fn without(s: Seq<u8>, excluded: Seq<u8>) -> Seq<u8>
    decreases s.len(),
{
    if s.len() == 0 {
        s
    } else {
        let rest = without(s.drop_last(), excluded);
        if excluded.contains(s.last()) {
            rest
        } else {
            rest.push(s.last())
        }
    }
}

/// Scale tones that are not chord tones.
pub open spec fn non_chord_tones(t: Tonality, c: Chord) -> Seq<u8> {
    without(scale_tones(t), chord_tones(t, c))
}

/// The chromatic neighbours of the root.
pub open spec fn neighbour_tones(t: Tonality, c: Chord) -> Seq<u8> {
    let r = root_pitch(t, c);
    seq![(r + 1) as u8, (r - 1) as u8]
}

/// The pitches among which a note of a category is chosen uniformly.
pub open spec fn candidates(t: Tonality, c: Chord, cat: Category) -> Seq<u8> {
    let r = root_pitch(t, c);
    match cat {
        Category::Root => seq![r, (r - 12) as u8],
        Category::ChordTone => chord_tones(t, c).drop_first(),
        Category::ScaleTone => if non_chord_tones(t, c).len() > 0 {
            non_chord_tones(t, c)
        } else {
            neighbour_tones(t, c)
        },
        Category::OutOfScale => neighbour_tones(t, c),
    }
}

/// Category weights at a position of the bar.
pub open spec fn position_weights(i: int) -> Seq<(Category, u32)> {
    if i == 0 {
        seq![(Category::Root, 15), (Category::ChordTone, 45), (Category::ScaleTone, 25), (Category::OutOfScale, 15)]
    } else if i == 1 || i == 2 {
        seq![(Category::Root, 20), (Category::ChordTone, 50), (Category::ScaleTone, 20), (Category::OutOfScale, 10)]
    } else {
        seq![(Category::Root, 65), (Category::ChordTone, 20), (Category::ScaleTone, 10), (Category::OutOfScale, 5)]
    }
}

/// Index of a uniform choice among `len` items; a draw past the end takes the last.
pub open spec fn clamp_index(len: int, draw: int) -> int {
    if draw < len {
        draw
    } else {
        len - 1
    }
}

/// The category that a draw selects at position `i`.
pub open spec fn category_at(i: int, draw: int) -> Category {
    position_weights(i)[select(position_weights(i), draw)].0
}

/// The pitch at position `i` given its category draw and its pitch draw.
pub open spec fn melody_note(t: Tonality, c: Chord, i: int, category_draw: int, pick_draw: int) -> u8 {
    let cands = candidates(t, c, category_at(i, category_draw));
    cands[clamp_index(cands.len() as int, pick_draw)]
}

proof fn lemma_without_subset(s: Seq<u8>, excluded: Seq<u8>)
    ensures
        forall|k: int| 0 <= k < without(s, excluded).len() ==> s.contains(#[trigger] without(s, excluded)[k]),
    decreases s.len(),
{
    if s.len() > 0 {
        lemma_without_subset(s.drop_last(), excluded);
        let rest = without(s.drop_last(), excluded);
        assert forall|k: int| 0 <= k < without(s, excluded).len() implies s.contains(#[trigger] without(s, excluded)[k]) by {
            if k < rest.len() {
                let x = rest[k];
                assert(s.drop_last().contains(x));
                let j = choose|j: int| 0 <= j < s.drop_last().len() && s.drop_last()[j] == x;
                assert(s[j] == x);
            } else {
                assert(s[s.len() - 1] == s.last());
            }
        }
    }
}

/// Every candidate pitch lies within an octave and a half of middle C, well
/// inside the MIDI range.
pub proof fn lemma_candidates_bounded(t: Tonality, c: Chord, cat: Category)
    ensures
        candidates(t, c, cat).len() > 0,
        forall|k: int| 0 <= k < candidates(t, c, cat).len() ==> 47 <= #[trigger] candidates(t, c, cat)[k] <= 94,
{
    lemma_pitch_ranges(t, c);
    lemma_without_subset(scale_tones(t), chord_tones(t, c));
    let n = non_chord_tones(t, c);
    assert forall|k: int| 0 <= k < n.len() implies 60 <= #[trigger] n[k] <= 82 by {
        assert(scale_tones(t).contains(n[k]));
    }
}

pub proof fn lemma_pitch_ranges(t: Tonality, c: Chord)
    ensures
        60 <= tonic_pitch(t) <= 71,
        60 <= root_pitch(t, c) <= 82,
        root_pitch(t, c) == tonic_pitch(t) + degree_interval(c),
        3 <= third_interval(c) <= 4,
        6 <= fifth_interval(c) <= 7,
{
}

pub(crate) fn tonic_pitch_of(t: Tonality) -> (r: u8)
    ensures
        r == tonic_pitch(t),
{
    match t {
        Tonality::CM => 60,
        Tonality::GM => 67,
        Tonality::DM => 62,
        Tonality::AM => 69,
        Tonality::EM => 64,
        Tonality::BM => 71,
        Tonality::GFM => 66,
        Tonality::DFM => 61,
        Tonality::AFM => 68,
        Tonality::EFM => 63,
        Tonality::BFM => 70,
        Tonality::FM => 65,
    }
}

fn chord_tones_of(t: Tonality, c: Chord) -> (r: Vec<u8>)
    ensures
        r@ == chord_tones(t, c),
{
    proof {
        lemma_pitch_ranges(t, c);
    }
    let root = MusicGenerator::get_root_midi_note(t, c);
    let (third, fifth): (u8, u8) = match c {
        Chord::First | Chord::Fourth | Chord::Fifth => (4, 7),
        Chord::Second | Chord::Third | Chord::Sixth => (3, 7),
        Chord::Seventh => (3, 6),
    };
    let r = vec![root, root + third, root + fifth, root + 12];
    assert(r@ =~= chord_tones(t, c));
    r
}

fn scale_tones_of(t: Tonality) -> (r: Vec<u8>)
    ensures
        r@ == scale_tones(t),
{
    proof {
        lemma_pitch_ranges(t, Chord::First);
    }
    let k = tonic_pitch_of(t);
    let r = vec![k, k + 2, k + 4, k + 5, k + 7, k + 9, k + 11];
    assert(r@ =~= scale_tones(t));
    r
}

fn contains_tone(tones: &Vec<u8>, x: u8) -> (r: bool)
    ensures
        r == tones@.contains(x),
{
    let mut i: usize = 0;
    while i < tones.len()
        invariant
            i <= tones.len(),
            forall|j: int| 0 <= j < i ==> tones@[j] != x,
        decreases tones.len() - i,
    {
        if tones[i] == x {
            return true;
        }
        i = i + 1;
    }
    false
}

fn non_chord_tones_of(t: Tonality, c: Chord, chord: &Vec<u8>) -> (r: Vec<u8>)
    requires
        chord@ == chord_tones(t, c),
    ensures
        r@ == non_chord_tones(t, c),
{
    let scale = scale_tones_of(t);
    let mut out: Vec<u8> = Vec::new();
    let mut i: usize = 0;
    while i < scale.len()
        invariant
            i <= scale.len(),
            chord@ == chord_tones(t, c),
            out@ == without(scale@.take(i as int), chord@),
        decreases scale.len() - i,
    {
        assert(scale@.take(i + 1).drop_last() =~= scale@.take(i as int));
        let x = scale[i];
        if !contains_tone(chord, x) {
            out.push(x);
        }
        i = i + 1;
    }
    assert(scale@.take(i as int) =~= scale@);
    out
}

/// The pitches among which a note of category `cat` is chosen.
pub fn candidate_pitches(t: Tonality, c: Chord, cat: Category) -> (r: Vec<u8>)
    ensures
        r@ == candidates(t, c, cat),
        r.len() > 0,
{
    proof {
        lemma_pitch_ranges(t, c);
    }
    let root = MusicGenerator::get_root_midi_note(t, c);
    match cat {
        Category::Root => {
            let r = vec![root, root - 12];
            assert(r@ =~= candidates(t, c, cat));
            r
        },
        Category::ChordTone => {
            let tones = chord_tones_of(t, c);
            let r = vec![tones[1], tones[2], tones[3]];
            assert(r@ =~= candidates(t, c, cat));
            r
        },
        Category::ScaleTone => {
            let tones = chord_tones_of(t, c);
            let others = non_chord_tones_of(t, c, &tones);
            if others.len() > 0 {
                others
            } else {
                let r = vec![root + 1, root - 1];
                assert(r@ =~= candidates(t, c, cat));
                r
            }
        },
        Category::OutOfScale => {
            let r = vec![root + 1, root - 1];
            assert(r@ =~= candidates(t, c, cat));
            r
        },
    }
}

/// The category weights at position `i` of the bar.
pub fn weights_at(i: usize) -> (r: Vec<(Category, u32)>)
    ensures
        r@ == position_weights(i as int),
{
    let r = if i == 0 {
        vec![(Category::Root, 15), (Category::ChordTone, 45), (Category::ScaleTone, 25), (Category::OutOfScale, 15)]
    } else if i == 1 || i == 2 {
        vec![(Category::Root, 20), (Category::ChordTone, 50), (Category::ScaleTone, 20), (Category::OutOfScale, 10)]
    } else {
        vec![(Category::Root, 65), (Category::ChordTone, 20), (Category::ScaleTone, 10), (Category::OutOfScale, 5)]
    };
    assert(r@ =~= position_weights(i as int));
    r
}

/// The category that `draw` selects at position `i`.
pub fn choose_category(i: usize, draw: u64) -> (r: Category)
    ensures
        r == category_at(i as int, draw as int),
{
    let w = weights_at(i);
    let k = pick_index(&w, draw);
    w[k].0
}

/// The pitch at position `i`: a category chosen by `category_draw`, then one
/// of its candidate pitches chosen by `pick_draw`.
pub fn compose_note(t: Tonality, c: Chord, i: usize, category_draw: u64, pick_draw: u64) -> (r: u8)
    ensures
        r == melody_note(t, c, i as int, category_draw as int, pick_draw as int),
{
    let cat = choose_category(i, category_draw);
    let cands = candidate_pitches(t, c, cat);
    let n = cands.len();
    let k = if (pick_draw as u128) < (n as u128) {
        pick_draw as usize
    } else {
        n - 1
    };
    cands[k]
}

} // verus!
