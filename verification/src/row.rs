//! A data row in a table: two parallel ordered sequences of column names and
//! optional cells, where an absent cell means SQL NULL for that column.

use vstd::prelude::*;
use crate::value::Cell;

verus! {

/// A data row in a table.
///
/// The row contains a column name list and a cell list with the same number
/// of elements; `well_formed` states that invariant, and every operation
/// preserves it.
#[derive(Debug, PartialEq)]
pub struct Row {
    /// Column names.
    pub cols: Vec<String>,
    /// Column cells, parallel to `cols`; an absent cell is SQL NULL.
    pub cells: Vec<Option<Cell>>,
}

/// The subsequence of `s` at the positions where `keep` holds, in original
/// relative order: the i-th element of the result is the i-th element of `s`
/// whose mask entry is true.
pub open spec fn mask_filter<T>(s: Seq<T>, keep: Seq<bool>) -> Seq<T>
    recommends
        s.len() == keep.len(),
    decreases s.len(),
{
    if s.len() == 0 {
        Seq::empty()
    } else if keep.len() >= s.len() && keep[s.len() - 1] {
        mask_filter(s.drop_last(), keep).push(s.last())
    } else {
        mask_filter(s.drop_last(), keep)
    }
}

impl View for Row {
    type V = Seq<(Seq<char>, Option<Cell>)>;

    /// A row abstracts to its sequence of (column name, cell) pairs, in
    /// insertion order.
    open spec fn view(&self) -> Self::V {
        Seq::new(self.cols@.len(), |i: int| (self.cols@[i]@, self.cells@[i]))
    }
}

fn clone_opt_cell(v: &Option<Cell>) -> (r: Option<Cell>)
    ensures
        r == *v,
{
    match v {
        Option::None => Option::None,
        Option::Some(c) => Option::Some(c.clone()),
    }
}

impl Default for Row {
    /// The default row is empty.
    fn default() -> (r: Self)
        ensures
            r.well_formed(),
            r@ == Seq::<(Seq<char>, Option<Cell>)>::empty(),
    {
        Row::new()
    }
}

impl Clone for Row {
    /// Deep copy: the clone carries the same (column name, cell) pairs.
    fn clone(&self) -> (r: Self)
        ensures
            r@ == self@,
            self.well_formed() ==> r.well_formed(),
    {
        let mut cols: Vec<String> = Vec::new();
        let mut i: usize = 0;
        while i < self.cols.len()
            invariant
                i <= self.cols@.len(),
                cols@ == self.cols@.subrange(0, i as int),
            decreases self.cols@.len() - i,
        {
            cols.push(self.cols[i].clone());
            proof {
                assert(cols@ =~= self.cols@.subrange(0, i + 1));
            }
            i += 1;
        }
        let mut cells: Vec<Option<Cell>> = Vec::new();
        let mut j: usize = 0;
        while j < self.cells.len()
            invariant
                j <= self.cells@.len(),
                cells@ == self.cells@.subrange(0, j as int),
            decreases self.cells@.len() - j,
        {
            cells.push(clone_opt_cell(&self.cells[j]));
            proof {
                assert(cells@ =~= self.cells@.subrange(0, j + 1));
            }
            j += 1;
        }
        proof {
            assert(cols@ =~= self.cols@);
            assert(cells@ =~= self.cells@);
        }
        let r = Row { cols, cells };
        proof {
            assert(r@ =~= self@);
        }
        r
    }
}

impl Row {
    /// The column list and the cell list have the same number of elements.
    pub open spec fn well_formed(&self) -> bool {
        self.cols@.len() == self.cells@.len()
    }

    /// Create an empty row.
    pub fn new() -> (r: Self)
        ensures
            r.well_formed(),
            r@ == Seq::<(Seq<char>, Option<Cell>)>::empty(),
    {
        let r = Row { cols: Vec::new(), cells: Vec::new() };
        proof {
            assert(r@ =~= Seq::<(Seq<char>, Option<Cell>)>::empty());
        }
        r
    }

    /// Push a cell with its column name onto this row, appending the pair at
    /// the end and keeping the two lists parallel.
    pub fn push(&mut self, col: &str, cell: Option<Cell>)
        requires
            old(self).well_formed(),
        ensures
            final(self).well_formed(),
            final(self)@ == old(self)@.push((col@, cell)),
    {
        self.cols.push(col.to_owned());
        self.cells.push(cell);
        proof {
            assert(final(self)@ =~= old(self)@.push((col@, cell)));
        }
    }

    /// Return the (column name, cell) pairs of this row, in insertion order.
    pub fn iter(&self) -> (r: Vec<(String, Option<Cell>)>)
        requires
            self.well_formed(),
        ensures
            r@.len() == self@.len(),
            forall|i: int|
                0 <= i < r@.len() ==> (#[trigger] r@[i]).0@ == self@[i].0 && r@[i].1 == self@[i].1,
    {
        let mut r: Vec<(String, Option<Cell>)> = Vec::new();
        let mut i: usize = 0;
        while i < self.cols.len()
            invariant
                self.well_formed(),
                i <= self.cols@.len(),
                r@.len() == i,
                forall|j: int|
                    0 <= j < i ==> (#[trigger] r@[j]).0@ == self@[j].0 && r@[j].1 == self@[j].1,
            decreases self.cols@.len() - i,
        {
            r.push((self.cols[i].clone(), clone_opt_cell(&self.cells[i])));
            i += 1;
        }
        r
    }

    /// Keep only the (column name, cell) pairs the predicate accepts.
    ///
    /// The predicate is evaluated once per pair, building a keep/drop mask
    /// over the whole row; the identical mask is then applied to both
    /// parallel lists, so positions never desynchronize: the result is the
    /// masked subsequence of the original pairs, in original relative order.
    pub fn retain<F: Fn(&String, &Option<Cell>) -> bool>(&mut self, f: F)
        requires
            old(self).well_formed(),
            forall|c: String, v: Option<Cell>| #[trigger] call_requires(f, (&c, &v)),
        ensures
            final(self).well_formed(),
            exists|keep: Seq<bool>|
                {
                    &&& keep.len() == old(self)@.len()
                    &&& (forall|i: int|
                        0 <= i < keep.len() ==> call_ensures(
                            f,
                            (&old(self).cols@[i], &old(self).cells@[i]),
                            #[trigger] keep[i],
                        ))
                    &&& final(self)@ == mask_filter(old(self)@, keep)
                },
    {
        let mut keep: Vec<bool> = Vec::new();
        let mut i: usize = 0;
        while i < self.cols.len()
            invariant
                forall|c: String, v: Option<Cell>| #[trigger] call_requires(f, (&c, &v)),
                *self == *old(self),
                self.well_formed(),
                i <= self.cols@.len(),
                keep@.len() == i,
                forall|j: int|
                    0 <= j < i ==> call_ensures(
                        f,
                        (&old(self).cols@[j], &old(self).cells@[j]),
                        #[trigger] keep@[j],
                    ),
            decreases self.cols@.len() - i,
        {
            let k = f(&self.cols[i], &self.cells[i]);
            keep.push(k);
            i += 1;
        }
        let mut new_cols: Vec<String> = Vec::new();
        let mut new_cells: Vec<Option<Cell>> = Vec::new();
        let mut j: usize = 0;
        while j < keep.len()
            invariant
                *self == *old(self),
                self.well_formed(),
                keep@.len() == self.cols@.len(),
                j <= keep@.len(),
                new_cols@.len() == new_cells@.len(),
                Seq::new(new_cols@.len(), |q: int| (new_cols@[q]@, new_cells@[q]))
                    == mask_filter(self@.take(j as int), keep@),
            decreases keep@.len() - j,
        {
            proof {
                assert(self@.take(j + 1).drop_last() =~= self@.take(j as int));
                assert(self@.take(j + 1).last() == self@[j as int]);
            }
            if keep[j] {
                new_cols.push(self.cols[j].clone());
                new_cells.push(clone_opt_cell(&self.cells[j]));
                proof {
                    assert(Seq::new(new_cols@.len(), |q: int| (new_cols@[q]@, new_cells@[q]))
                        =~= mask_filter(self@.take(j + 1), keep@));
                }
            } else {
                proof {
                    assert(Seq::new(new_cols@.len(), |q: int| (new_cols@[q]@, new_cells@[q]))
                        =~= mask_filter(self@.take(j + 1), keep@));
                }
            }
            j += 1;
        }
        proof {
            assert(self@.take(self@.len() as int) =~= self@);
        }
        self.cols = new_cols;
        self.cells = new_cells;
        proof {
            assert(final(self)@ =~= Seq::new(
                final(self).cols@.len(),
                |q: int| (final(self).cols@[q]@, final(self).cells@[q]),
            ));
            assert(forall|q: int|
                0 <= q < keep@.len() ==> old(self)@[q].0 == old(self).cols@[q]@ && old(self)@[q].1
                    == old(self).cells@[q]);
        }
    }
}

} // verus!
