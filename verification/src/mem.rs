//! A minimal in-memory connector: the reference implementation of the
//! connector contract. It serves rows loaded before the first scan, honors a
//! pushed-down sort on an eight-byte integer column, and records every write
//! operation in call order, so the lifecycle contracts can be exercised
//! against a store whose behaviour is itself verified.

use vstd::prelude::*;
use vstd::seq_lib::*;
use std::collections::HashMap;
use crate::value::Cell;
use crate::row::Row;
use crate::query::{Qual, Sort, Limit};
use crate::fdw::{ForeignDataWrapper, ScanState, ModifyState};

verus! {

/// One write operation as the in-memory store observed it.
#[derive(Debug, PartialEq)]
pub enum ModifyOp {
    /// A row handed to `insert`.
    Insert(Row),
    /// A row-identifier cell and new row handed to `update`.
    Update(Cell, Row),
    /// A row-identifier cell handed to `delete`.
    Delete(Cell),
}

/// The sort key a row carries under a field name: the cell of the first
/// column whose name matches, when that column holds an eight-byte integer;
/// absent (SQL NULL, missing column, or a non-integer cell) otherwise.
pub open spec fn view_key(rv: Seq<(Seq<char>, Option<Cell>)>, field: Seq<char>) -> Option<i64>
    decreases rv.len(),
{
    if rv.len() == 0 {
        None
    } else if rv[0].0 == field {
        match rv[0].1 {
            Option::Some(Cell::I64(v)) => Option::Some(v),
            _ => Option::None,
        }
    } else {
        view_key(rv.skip(1), field)
    }
}

/// Key order under one sort term: absent keys gather at the front when
/// `nulls_first` (at the back otherwise), and present keys are non-increasing
/// when `reversed`, non-decreasing otherwise.
pub open spec fn key_le(a: Option<i64>, b: Option<i64>, reversed: bool, nulls_first: bool) -> bool {
    match a {
        Option::None => match b {
            Option::None => true,
            Option::Some(_) => nulls_first,
        },
        Option::Some(x) => match b {
            Option::None => !nulls_first,
            Option::Some(y) => if reversed {
                x >= y
            } else {
                x <= y
            },
        },
    }
}

proof fn lemma_key_total(a: Option<i64>, b: Option<i64>, reversed: bool, nulls_first: bool)
    ensures
        key_le(a, b, reversed, nulls_first) || key_le(b, a, reversed, nulls_first),
{
}

proof fn lemma_key_trans(
    a: Option<i64>,
    b: Option<i64>,
    c: Option<i64>,
    reversed: bool,
    nulls_first: bool,
)
    requires
        key_le(a, b, reversed, nulls_first),
        key_le(b, c, reversed, nulls_first),
    ensures
        key_le(a, c, reversed, nulls_first),
{
}

/// `order` enumerates every position of a sequence of length `n` exactly
/// once.
pub open spec fn is_enumeration(order: Seq<usize>, n: nat) -> bool {
    &&& order.len() == n
    &&& (forall|q: int| 0 <= q < order.len() ==> (#[trigger] order[q]) < n)
    &&& (forall|a: int, b: int|
        #![trigger order[a], order[b]]
        0 <= a < b < order.len() ==> order[a] != order[b])
    &&& (forall|v: usize| v < n ==> #[trigger] order.contains(v))
}

/// The rows of `data`, visited in `order`, carry non-descending sort keys
/// under the given sort term.
pub open spec fn sorted_order(order: Seq<usize>, data: Seq<Row>, s: Sort) -> bool {
    forall|a: int, b: int|
        #![trigger order[a], order[b]]
        0 <= a < b < order.len() ==> key_le(
            view_key(data[order[a] as int]@, s.field@),
            view_key(data[order[b] as int]@, s.field@),
            s.reversed,
            s.nulls_first,
        )
}

/// The sort key of a row under a field name.
pub fn row_key(r: &Row, field: &String) -> (k: Option<i64>)
    requires
        r.well_formed(),
    ensures
        k == view_key(r@, field@),
{
    let mut i: usize = 0;
    proof {
        assert(r@.skip(0) =~= r@);
    }
    while i < r.cols.len()
        invariant
            r.well_formed(),
            i <= r.cols@.len(),
            view_key(r@, field@) == view_key(r@.skip(i as int), field@),
        decreases r.cols@.len() - i,
    {
        proof {
            assert(r@.skip(i as int)[0] == r@[i as int]);
            assert(r@.skip(i as int).skip(1) =~= r@.skip(i + 1));
        }
        if r.cols[i] == *field {
            match &r.cells[i] {
                Option::Some(c) => match c {
                    Cell::I64(v) => {
                        return Option::Some(*v);
                    },
                    _ => {
                        return Option::None;
                    },
                },
                Option::None => {
                    return Option::None;
                },
            }
        }
        i += 1;
    }
    proof {
        assert(view_key(r@.skip(r@.len() as int), field@) is None);
    }
    Option::None
}

fn le_key(a: &Option<i64>, b: &Option<i64>, reversed: bool, nulls_first: bool) -> (r: bool)
    ensures
        r == key_le(*a, *b, reversed, nulls_first),
{
    match a {
        Option::None => match b {
            Option::None => true,
            Option::Some(_) => nulls_first,
        },
        Option::Some(x) => match b {
            Option::None => !nulls_first,
            Option::Some(y) => if reversed {
                *x >= *y
            } else {
                *x <= *y
            },
        },
    }
}

/// Builds the visiting order for a scan over `data`: the identity order when
/// no sort was pushed down, and an order sorted under the first sort term
/// otherwise; either way, every position appears exactly once.
#[verifier::loop_isolation(false)]
fn build_order(data: &Vec<Row>, sorts: &[Sort]) -> (order: Vec<usize>)
    requires
        forall|i: int| 0 <= i < data@.len() ==> (#[trigger] data@[i]).well_formed(),
    ensures
        is_enumeration(order@, data@.len()),
        sorts@.len() > 0 ==> sorted_order(order@, data@, sorts@[0]),
        sorts@.len() == 0 ==> forall|q: int| 0 <= q < order@.len() ==> (#[trigger] order@[q]) == q,
{
    let n = data.len();
    if sorts.len() == 0 {
        let mut order: Vec<usize> = Vec::new();
        let mut i: usize = 0;
        while i < n
            invariant
                i <= n,
                order@.len() == i,
                forall|q: int| 0 <= q < i ==> (#[trigger] order@[q]) == q,
            decreases n - i,
        {
            order.push(i);
            i += 1;
        }
        proof {
            assert forall|v: usize| v < n implies #[trigger] order@.contains(v) by {
                assert(order@[v as int] == v);
            }
        }
        return order;
    }
    let srt = &sorts[0];
    let mut keys: Vec<Option<i64>> = Vec::new();
    let mut i: usize = 0;
    while i < n
        invariant
            i <= n,
            keys@.len() == i,
            forall|j: int| 0 <= j < i ==> keys@[j] == view_key(data@[j]@, srt.field@),
        decreases n - i,
    {
        keys.push(row_key(&data[i], &srt.field));
        i += 1;
    }
    let mut order: Vec<usize> = Vec::new();
    let mut idx: usize = 0;
    while idx < n
        invariant
            idx <= n,
            order@.len() == idx,
            forall|q: int| 0 <= q < order@.len() ==> (#[trigger] order@[q]) < idx,
            forall|a: int, b: int|
                #![trigger order@[a], order@[b]]
                0 <= a < b < order@.len() ==> order@[a] != order@[b],
            forall|v: usize| v < idx ==> #[trigger] order@.contains(v),
            forall|a: int, b: int|
                #![trigger order@[a], order@[b]]
                0 <= a < b < order@.len() ==> key_le(
                    keys@[order@[a] as int],
                    keys@[order@[b] as int],
                    srt.reversed,
                    srt.nulls_first,
                ),
        decreases n - idx,
    {
        let mut p: usize = 0;
        while p < order.len() && !le_key(&keys[idx], &keys[order[p]], srt.reversed, srt.nulls_first)
            invariant
                p <= order@.len(),
                forall|q: int|
                    0 <= q < p ==> key_le(
                        keys@[(#[trigger] order@[q]) as int],
                        keys@[idx as int],
                        srt.reversed,
                        srt.nulls_first,
                    ),
            decreases order@.len() - p,
        {
            proof {
                lemma_key_total(
                    keys@[idx as int],
                    keys@[order@[p as int] as int],
                    srt.reversed,
                    srt.nulls_first,
                );
            }
            p += 1;
        }
        let ghost prev = order@;
        order.insert(p, idx);
        proof {
            prev.insert_ensures(p as int, idx);
            let now = order@;
            assert(now == prev.insert(p as int, idx));
            // every slot of the new order maps back to the old order or to idx
            assert forall|a: int, b: int|
                #![trigger now[a], now[b]]
                0 <= a < b < now.len() implies key_le(
                keys@[now[a] as int],
                keys@[now[b] as int],
                srt.reversed,
                srt.nulls_first,
            ) by {
                let ka = keys@[now[a] as int];
                let kb = keys@[now[b] as int];
                let ki = keys@[idx as int];
                if a < p && b < p {
                } else if b == p {
                    assert(now[b] == idx);
                    assert(key_le(keys@[prev[a] as int], ki, srt.reversed, srt.nulls_first));
                } else if a == p {
                    assert(now[a] == idx);
                    assert((p as int) < prev.len());
                    assert(key_le(ki, keys@[prev[p as int] as int], srt.reversed, srt.nulls_first));
                    if b - 1 > p {
                        lemma_key_trans(
                            ki,
                            keys@[prev[p as int] as int],
                            keys@[prev[b - 1] as int],
                            srt.reversed,
                            srt.nulls_first,
                        );
                    }
                } else if a < p && b > p {
                    assert(now[a] == prev[a]);
                    assert(now[b] == prev[b - 1]);
                    assert(a < b - 1);
                } else {
                    // both past the insertion point
                    assert(now[a] == prev[a - 1]);
                    assert(now[b] == prev[b - 1]);
                }
            }
            assert forall|v: usize| v < idx + 1 implies #[trigger] now.contains(v) by {
                if v < idx {
                    assert(prev.contains(v));
                    let q = choose|q: int| 0 <= q < prev.len() && prev[q] == v;
                    if q < p {
                        assert(now[q] == v);
                    } else {
                        assert(now[q + 1] == v);
                    }
                } else {
                    assert(now[p as int] == idx);
                }
            }
            assert forall|a: int, b: int|
                #![trigger now[a], now[b]]
                0 <= a < b < now.len() implies now[a] != now[b] by {
                if a == p {
                    assert(now[b] == prev[b - 1] && prev[b - 1] < idx);
                } else if b == p {
                    assert(now[a] == prev[a] && prev[a] < idx);
                }
            }
        }
        idx += 1;
    }
    proof {
        assert(is_enumeration(order@, data@.len()));
        assert(sorted_order(order@, data@, sorts@[0]));
    }
    order
}

/// The reference in-memory connector.
///
/// Rows are loaded while the connector is still uninitialized; a scan serves
/// them in the pushed-down order; a modification session records each write
/// operation as received, in call order.
pub struct MemFdw {
    data: Vec<Row>,
    order: Vec<usize>,
    pos: usize,
    sstate: ScanState,
    mstate: ModifyState,
    ops: Vec<ModifyOp>,
}

impl MemFdw {
    #[verifier::type_invariant]
    spec fn wf(&self) -> bool {
        &&& self.pos <= self.order@.len()
        &&& (forall|q: int|
            0 <= q < self.order@.len() ==> (#[trigger] self.order@[q]) < self.data@.len())
        &&& (forall|i: int| 0 <= i < self.data@.len() ==> (#[trigger] self.data@[i]).well_formed())
    }

    /// The connector's declared data, in load order.
    pub closed spec fn rows(&self) -> Seq<Row> {
        self.data@
    }

    /// The visiting order of the current scan: positions into the declared
    /// data.
    pub closed spec fn scan_order(&self) -> Seq<usize> {
        self.order@
    }

    /// How many rows of the current scan were already served.
    pub closed spec fn cursor(&self) -> int {
        self.pos as int
    }

    /// The write operations observed so far, in call order.
    pub closed spec fn recorded(&self) -> Seq<ModifyOp> {
        self.ops@
    }

    /// Load one row of declared data; legal only before the first scan.
    pub fn load(&mut self, row: Row)
        requires
            old(self).scan_state() is Uninitialized,
            row.well_formed(),
        ensures
            final(self).rows() == old(self).rows().push(row),
            final(self).scan_state() == old(self).scan_state(),
            final(self).modify_state() == old(self).modify_state(),
            final(self).recorded() == old(self).recorded(),
    {
        proof {
            use_type_invariant(&*self);
        }
        self.pos = 0;
        self.order = Vec::new();
        let mut data: Vec<Row> = Vec::new();
        core::mem::swap(&mut data, &mut self.data);
        data.push(row);
        core::mem::swap(&mut data, &mut self.data);
    }

    /// The write operations observed, for inspection by a host or a test.
    pub fn recorded_ops(&self) -> (r: &Vec<ModifyOp>)
        ensures
            r@ == self.recorded(),
    {
        &self.ops
    }
}

impl ForeignDataWrapper for MemFdw {
    closed spec fn scan_state(&self) -> ScanState {
        self.sstate
    }

    closed spec fn modify_state(&self) -> ModifyState {
        self.mstate
    }

    fn new(options: &HashMap<String, String>) -> (r: Self)
        ensures
            r.rows() == Seq::<Row>::empty(),
            r.recorded() == Seq::<ModifyOp>::empty(),
    {
        MemFdw {
            data: Vec::new(),
            order: Vec::new(),
            pos: 0,
            sstate: ScanState::Uninitialized,
            mstate: ModifyState::Uninitialized,
            ops: Vec::new(),
        }
    }

    fn begin_scan(
        &mut self,
        quals: &[Qual],
        columns: &[String],
        sorts: &[Sort],
        limit: &Option<Limit>,
        options: &HashMap<String, String>,
    )
        ensures
            final(self).rows() == old(self).rows(),
            final(self).recorded() == old(self).recorded(),
            final(self).cursor() == 0,
            is_enumeration(final(self).scan_order(), old(self).rows().len()),
            sorts@.len() > 0 ==> sorted_order(
                final(self).scan_order(),
                final(self).rows(),
                sorts@[0],
            ),
            sorts@.len() == 0 ==> forall|q: int|
                0 <= q < final(self).scan_order().len() ==> (#[trigger] final(self).scan_order()[q])
                    == q,
    {
        proof {
            use_type_invariant(&*self);
        }
        self.pos = 0;
        let order = build_order(&self.data, sorts);
        self.order = order;
        self.sstate = ScanState::Scanning;
    }

    fn iter_scan(&mut self) -> (r: Option<Row>)
        ensures
            final(self).rows() == old(self).rows(),
            final(self).scan_order() == old(self).scan_order(),
            final(self).recorded() == old(self).recorded(),
            old(self).scan_state() is Scanning && old(self).cursor() < old(
                self,
            ).scan_order().len() ==> {
                &&& r matches Some(row) && row@ == old(self).rows()[old(self).scan_order()[old(
                    self,
                ).cursor()] as int]@
                &&& final(self).cursor() == old(self).cursor() + 1
                &&& final(self).scan_state() is Scanning
            },
            old(self).scan_state() is Scanning && old(self).cursor() >= old(
                self,
            ).scan_order().len() ==> r is None && final(self).scan_state() is Exhausted,
            old(self).scan_state() is Exhausted ==> final(self).cursor() == old(self).cursor()
                && final(self).scan_state() is Exhausted,
    {
        proof {
            use_type_invariant(&*self);
        }
        match self.sstate {
            ScanState::Scanning => {
                if self.pos < self.order.len() {
                    let idx = self.order[self.pos];
                    let row = self.data[idx].clone();
                    self.pos = self.pos + 1;
                    Option::Some(row)
                } else {
                    self.sstate = ScanState::Exhausted;
                    Option::None
                }
            },
            _ => Option::None,
        }
    }

    fn re_scan(&mut self)
        ensures
            final(self).rows() == old(self).rows(),
            final(self).scan_order() == old(self).scan_order(),
            final(self).recorded() == old(self).recorded(),
            final(self).cursor() == 0,
            final(self).scan_state() is Scanning,
    {
        proof {
            use_type_invariant(&*self);
        }
        self.pos = 0;
        self.sstate = ScanState::Scanning;
    }

    fn end_scan(&mut self)
        ensures
            final(self).rows() == old(self).rows(),
            final(self).recorded() == old(self).recorded(),
    {
        proof {
            use_type_invariant(&*self);
        }
        self.sstate = ScanState::Closed;
    }

    fn begin_modify(&mut self, options: &HashMap<String, String>)
        ensures
            final(self).rows() == old(self).rows(),
            final(self).recorded() == old(self).recorded(),
    {
        proof {
            use_type_invariant(&*self);
        }
        self.mstate = ModifyState::Modifying;
    }

    fn insert(&mut self, row: &Row)
        ensures
            final(self).rows() == old(self).rows(),
            final(self).recorded().len() == old(self).recorded().len() + 1,
            final(self).recorded().drop_last() == old(self).recorded(),
            final(self).recorded().last() matches ModifyOp::Insert(r2) && r2@ == row@,
    {
        proof {
            use_type_invariant(&*self);
        }
        let op = ModifyOp::Insert(row.clone());
        let mut ops: Vec<ModifyOp> = Vec::new();
        core::mem::swap(&mut ops, &mut self.ops);
        ops.push(op);
        core::mem::swap(&mut ops, &mut self.ops);
        proof {
            assert(final(self).recorded().drop_last() =~= old(self).recorded());
        }
    }

    fn update(&mut self, rowid: &Cell, new_row: &Row)
        ensures
            final(self).rows() == old(self).rows(),
            final(self).recorded().len() == old(self).recorded().len() + 1,
            final(self).recorded().drop_last() == old(self).recorded(),
            final(self).recorded().last() matches ModifyOp::Update(c, r2) && c == *rowid && r2@
                == new_row@,
    {
        proof {
            use_type_invariant(&*self);
        }
        let op = ModifyOp::Update(rowid.clone(), new_row.clone());
        let mut ops: Vec<ModifyOp> = Vec::new();
        core::mem::swap(&mut ops, &mut self.ops);
        ops.push(op);
        core::mem::swap(&mut ops, &mut self.ops);
        proof {
            assert(final(self).recorded().drop_last() =~= old(self).recorded());
        }
    }

    fn delete(&mut self, rowid: &Cell)
        ensures
            final(self).rows() == old(self).rows(),
            final(self).recorded().len() == old(self).recorded().len() + 1,
            final(self).recorded().drop_last() == old(self).recorded(),
            final(self).recorded().last() matches ModifyOp::Delete(c) && c == *rowid,
    {
        proof {
            use_type_invariant(&*self);
        }
        let op = ModifyOp::Delete(rowid.clone());
        let mut ops: Vec<ModifyOp> = Vec::new();
        core::mem::swap(&mut ops, &mut self.ops);
        ops.push(op);
        core::mem::swap(&mut ops, &mut self.ops);
        proof {
            assert(final(self).recorded().drop_last() =~= old(self).recorded());
        }
    }

    fn end_modify(&mut self)
        ensures
            final(self).rows() == old(self).rows(),
            final(self).recorded() == old(self).recorded(),
    {
        proof {
            use_type_invariant(&*self);
        }
        self.mstate = ModifyState::Closed;
    }
}

} // verus!
