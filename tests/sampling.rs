use music_generator::sampler::{pick_index, total_of};
use music_generator::table::{TableError, TransitionTable};
use rand::rngs::StdRng;
use rand::{Rng, SeedableRng};

fn abc() -> Vec<(char, u32)> {
    vec![('A', 5), ('B', 3), ('C', 2)]
}

#[test]
fn pick_follows_cumulative_spans() {
    let options = abc();
    assert_eq!(options[pick_index(&options, 0)].0, 'A');
    assert_eq!(options[pick_index(&options, 4)].0, 'A');
    assert_eq!(options[pick_index(&options, 5)].0, 'B');
    assert_eq!(options[pick_index(&options, 7)].0, 'B');
    assert_eq!(options[pick_index(&options, 8)].0, 'C');
    assert_eq!(options[pick_index(&options, 9)].0, 'C');
}

#[test]
fn pick_past_total_takes_last_option() {
    let options = abc();
    assert_eq!(pick_index(&options, 10), 2);
    assert_eq!(pick_index(&options, u64::MAX), 2);
}

#[test]
fn pick_single_option() {
    let options = vec![(7u8, 1u32)];
    assert_eq!(pick_index(&options, 0), 0);
}

#[test]
fn pick_skips_zero_weight_options() {
    let options = vec![(0u8, 0u32), (1, 4), (2, 0), (3, 1)];
    assert_eq!(pick_index(&options, 0), 1);
    assert_eq!(pick_index(&options, 3), 1);
    assert_eq!(pick_index(&options, 4), 3);
}

#[test]
fn total_sums_weights() {
    assert_eq!(total_of(&abc()), 10);
    let empty: Vec<(char, u32)> = Vec::new();
    assert_eq!(total_of(&empty), 0);
    let big = vec![((), u32::MAX), ((), u32::MAX)];
    assert_eq!(total_of(&big), 2 * u32::MAX as u128);
}

#[test]
fn pick_frequencies_match_weights() {
    let options = abc();
    let total = total_of(&options) as u64;
    let mut rng = StdRng::seed_from_u64(7);
    let mut counts = [0u32; 3];
    let draws = 100_000u32;
    for _ in 0..draws {
        let d: u64 = rng.random_range(0..total);
        counts[pick_index(&options, d)] += 1;
    }
    for (i, (_, w)) in options.iter().enumerate() {
        let freq = counts[i] as f64 / draws as f64;
        let expected = *w as f64 / total as f64;
        assert!((freq - expected).abs() < 0.02, "option {} freq {}", i, freq);
    }
}

fn chord_like_rows() -> Vec<Vec<(usize, u32)>> {
    vec![
        vec![(3, 5), (4, 3), (5, 2), (0, 1)],
        vec![(4, 10)],
        Vec::new(),
        vec![(4, 8), (0, 2)],
        vec![(0, 10)],
        vec![(3, 5), (0, 5)],
        Vec::new(),
    ]
}

#[test]
fn table_accepts_complete_rows() {
    let t = TransitionTable::new(chord_like_rows()).unwrap();
    assert_eq!(t.len(), 7);
    assert!(t.has_row(0));
    assert!(!t.has_row(2));
    assert!(!t.has_row(9));
    assert_eq!(t.row_total(0), 11);
}

#[test]
fn table_rejects_missing_successor_row() {
    let mut rows = chord_like_rows();
    rows[4] = Vec::new();
    assert_eq!(TransitionTable::new(rows).err(), Some(TableError::IncompleteTransitionTable));
}

#[test]
fn table_rejects_successor_out_of_range() {
    let rows = vec![vec![(1, 3)]];
    assert_eq!(TransitionTable::new(rows).err(), Some(TableError::IncompleteTransitionTable));
}

#[test]
fn table_rejects_zero_weight_row() {
    let rows = vec![vec![(0, 0), (1, 0)], vec![(0, 1)]];
    assert_eq!(TransitionTable::new(rows).err(), Some(TableError::EmptyDistribution));
}

#[test]
fn table_reports_first_faulty_row() {
    let rows = vec![vec![(0, 1), (5, 1)], vec![(0, 0)]];
    assert_eq!(TransitionTable::new(rows).err(), Some(TableError::IncompleteTransitionTable));
    let rows = vec![vec![(0, 1)], vec![(0, 0)], vec![(9, 1)]];
    assert_eq!(TransitionTable::new(rows).err(), Some(TableError::EmptyDistribution));
}

#[test]
fn table_next_stays_within_row() {
    let t = TransitionTable::new(chord_like_rows()).unwrap();
    let rows = chord_like_rows();
    for state in [0usize, 1, 3, 4, 5] {
        for draw in 0..30u64 {
            let n = t.next(state, draw);
            assert!(rows[state].iter().any(|(s, _)| *s == n));
        }
    }
    assert_eq!(t.next(0, 0), 3);
    assert_eq!(t.next(0, 5), 4);
    assert_eq!(t.next(0, 8), 5);
    assert_eq!(t.next(0, 10), 0);
    assert_eq!(t.next(3, 8), 0);
}
