use vstd::prelude::*;

use crate::sampler::{lemma_select_in_range, pick_index, select, total_of, total_weight};

verus! {

/// Configuration defects found when a transition table is built.
#[derive(Debug, Clone, Copy, PartialEq, Eq, Structural)]
pub enum TableError {
    /// A state that can be reached has no row of successors.
    IncompleteTransitionTable,
    /// A row of successors has weights that sum to zero.
    EmptyDistribution,
    /// A row's total weight does not fit in 64 bits.
    WeightOverflow,
}

/// A first-order Markov model over states numbered `0..rows.len()`. Row `k`
/// lists the weighted successors of state `k`; an empty row means that state
/// `k` has no row.
pub struct TransitionTable {
    rows: Vec<Vec<(usize, u32)>>,
}

impl TransitionTable {
    #[verifier::type_invariant]
    spec fn inv(&self) -> bool {
        table_valid(rows_view(self.rows@))
    }
}


pub open spec fn rows_view(rows: Seq<Vec<(usize, u32)>>) -> Seq<Seq<(usize, u32)>> {
    rows.map_values(|r: Vec<(usize, u32)>| r@)
}

/// State `k` is a state of the table and has a row.
pub open spec fn has_row(rows: Seq<Seq<(usize, u32)>>, k: int) -> bool {
    0 <= k < rows.len() && rows[k].len() > 0
}

/// The defect of row `k`, if any.
pub open spec fn row_error(rows: Seq<Seq<(usize, u32)>>, k: int) -> Option<TableError> {
    if rows[k].len() == 0 {
        None
    } else if total_weight(rows[k]) > u64::MAX {
        Some(TableError::WeightOverflow)
    } else if total_weight(rows[k]) == 0 {
        Some(TableError::EmptyDistribution)
    } else if exists|j: int| 0 <= j < rows[k].len() && !has_row(rows, rows[k][j].0 as int) {
        Some(TableError::IncompleteTransitionTable)
    } else {
        None
    }
}

/// Every row is a usable distribution and every successor has a row.
pub open spec fn table_valid(rows: Seq<Seq<(usize, u32)>>) -> bool {
    forall|k: int| 0 <= k < rows.len() ==> row_error(rows, k) is None
}

/// The state that a draw selects from the row of `current`.
pub open spec fn successor(rows: Seq<Seq<(usize, u32)>>, current: int, draw: int) -> usize {
    rows[current][select(rows[current], draw)].0
}

/// A chain moves only to a state listed among the options of the current
/// state's row, whatever the draw.
pub proof fn lemma_successor_listed(rows: Seq<Seq<(usize, u32)>>, current: int, draw: int)
    requires
        has_row(rows, current),
    ensures
        exists|j: int|
            0 <= j < rows[current].len() && #[trigger] rows[current][j].0 == successor(
                rows,
                current,
                draw,
            ),
{
    lemma_select_in_range(rows[current], draw);
    let j = select(rows[current], draw);
    assert(rows[current][j].0 == successor(rows, current, draw));
}

impl View for TransitionTable {
    type V = Seq<Seq<(usize, u32)>>;

    closed spec fn view(&self) -> Seq<Seq<(usize, u32)>> {
        rows_view(self.rows@)
    }
}

fn check_row(rows: &Vec<Vec<(usize, u32)>>, k: usize) -> (r: Option<TableError>)
    requires
        k < rows.len(),
    ensures
        r == row_error(rows_view(rows@), k as int),
{
    let ghost v = rows_view(rows@);
    let row = &rows[k];
    assert(v[k as int] == row@);
    if row.len() == 0 {
        return None;
    }
    let total = total_of(row);
    if total > u64::MAX as u128 {
        return Some(TableError::WeightOverflow);
    }
    if total == 0 {
        return Some(TableError::EmptyDistribution);
    }
    let mut j: usize = 0;
    while j < row.len()
        invariant
            v == rows_view(rows@),
            v.len() == rows.len(),
            k < rows.len(),
            v[k as int] == row@,
            row@.len() > 0,
            0 < total_weight(row@) <= u64::MAX,
            j <= row.len(),
            forall|jj: int| 0 <= jj < j ==> has_row(v, row@[jj].0 as int),
        decreases row.len() - j,
    {
        let s = row[j].0;
        assert(v[k as int][j as int].0 == s);
        proof {
            if s < rows.len() {
                assert(v[s as int] == rows@[s as int]@);
            }
        }
        if s >= rows.len() || rows[s].len() == 0 {
            assert(!has_row(v, v[k as int][j as int].0 as int));
            return Some(TableError::IncompleteTransitionTable);
        }
        assert(v[s as int] == rows@[s as int]@);
        j = j + 1;
    }
    None
}

impl TransitionTable {
    /// Validates the rows: `Ok` exactly when every row is a usable
    /// distribution and every successor has a row; otherwise the defect of
    /// the first faulty row.
    pub fn new(rows: Vec<Vec<(usize, u32)>>) -> (r: Result<TransitionTable, TableError>)
        ensures
            r is Ok <==> table_valid(rows_view(rows@)),
            r matches Ok(t) ==> t@ == rows_view(rows@),
            r matches Err(e) ==> exists|k: int|
                0 <= k < rows@.len() && row_error(rows_view(rows@), k) == Some(e) && forall|j: int|
                    0 <= j < k ==> row_error(rows_view(rows@), j) is None,
    {
        let mut k: usize = 0;
        while k < rows.len()
            invariant
                k <= rows.len(),
                forall|j: int| 0 <= j < k ==> row_error(rows_view(rows@), j) is None,
            decreases rows.len() - k,
        {
            match check_row(&rows, k) {
                Some(e) => {
                    return Err(e);
                },
                None => {},
            }
            k = k + 1;
        }
        Ok(TransitionTable { rows })
    }

    /// A table from rows already known to be valid.
    pub fn from_valid_rows(rows: Vec<Vec<(usize, u32)>>) -> (r: TransitionTable)
        requires
            table_valid(rows_view(rows@)),
        ensures
            r@ == rows_view(rows@),
    {
        TransitionTable { rows }
    }

    /// Number of states.
    pub fn len(&self) -> (r: usize)
        ensures
            r == self@.len(),
    {
        self.rows.len()
    }

    /// Whether `state` is a state of the table with a row of successors.
    pub fn has_row(&self, state: usize) -> (r: bool)
        ensures
            r == has_row(self@, state as int),
    {
        state < self.rows.len() && self.rows[state].len() > 0
    }

    /// Total weight of the row of `state`: the bound of the draw that `next` takes.
    pub fn row_total(&self, state: usize) -> (r: u64)
        requires
            has_row(self@, state as int),
        ensures
            r as nat == total_weight(self@[state as int]),
            r > 0,
    {
        proof {
            use_type_invariant(self);
        }
        assert(self@[state as int] == self.rows@[state as int]@);
        assert(row_error(self@, state as int) is None);
        total_of(&self.rows[state]) as u64
    }

    /// The successor of `current` that `draw` selects from its row.
    pub fn next(&self, current: usize, draw: u64) -> (r: usize)
        requires
            has_row(self@, current as int),
        ensures
            r == successor(self@, current as int, draw as int),
            has_row(self@, r as int),
    {
        proof {
            use_type_invariant(self);
        }
        let row = &self.rows[current];
        assert(self@[current as int] == row@);
        let i = pick_index(row, draw);
        assert(row_error(self@, current as int) is None);
        row[i].0
    }
}

} // verus!
