//! The declarative query-pushdown model: predicates (`WHERE` restrictions),
//! sort specifications (`ORDER BY` terms) and the limit/offset clause.

use vstd::prelude::*;
use vstd::string::*;
use crate::value::{Cell, cell_text};

verus! {

/// A restriction value used in a [`Qual`]: either a single [`Cell`] or an
/// ordered array of them (used for set-membership predicates).
#[derive(Debug, Clone, PartialEq)]
pub enum Value {
    Cell(Cell),
    Array(Vec<Cell>),
}

/// A query restriction, one condition of a `WHERE` clause, pushed down from
/// the query engine: a field name, an operator, a right-hand value and a
/// disjunction flag. When `use_or` is true the predicate is part of a
/// disjunction the connector must evaluate itself.
#[derive(Debug, Clone, PartialEq)]
pub struct Qual {
    pub field: String,
    pub operator: String,
    pub value: Value,
    pub use_or: bool,
}

/// The textual condition a predicate deparses to: empty for a disjunctive
/// predicate, and `<field> <operator> <cell-literal>` for a conjunctive
/// scalar one. Deparsing a conjunctive array-valued predicate is a contract
/// violation, so this form is left unconstrained there.
pub open spec fn deparsed(q: Qual) -> Seq<char> {
    if q.use_or {
        Seq::empty()
    } else {
        q.field@ + seq![' '] + q.operator@ + seq![' '] + cell_text(q.value->Cell_0)
    }
}

impl Qual {
    /// Renders this predicate as a textual condition: the empty string when
    /// it is part of a disjunction, and `<field> <operator> <cell-literal>`
    /// otherwise. Only conjunctive scalar predicates may be rendered; a
    /// conjunctive array-valued predicate is a programming error with no
    /// defined rendering, so it is excluded here.
    pub fn deparse(&self) -> (r: String)
        requires
            self.use_or || self.value is Cell,
        ensures
            r@ == deparsed(*self),
    {
        if self.use_or {
            let r = String::new();
            proof {
                assert(r@ =~= deparsed(*self));
            }
            r
        } else {
            match &self.value {
                Value::Cell(cell) => {
                    let mut r = self.field.clone();
                    r.append(" ");
                    r.append(self.operator.as_str());
                    r.append(" ");
                    let lit = cell.literal_text();
                    r.append(lit.as_str());
                    proof {
                        reveal_strlit(" ");
                        assert(r@ =~= deparsed(*self));
                    }
                    r
                },
                Value::Array(_) => {
                    proof {
                        assert(false);
                    }
                    String::new()
                },
            }
        }
    }
}

/// A predicate that is part of a disjunction deparses to the empty string,
/// regardless of its field, operator or value.
pub proof fn lemma_deparse_disjunction(q: Qual)
    requires
        q.use_or,
    ensures
        deparsed(q) == Seq::<char>::empty(),
{
}

/// One `ORDER BY` term pushed down from the query engine: the field, its
/// 1-based position within the `ORDER BY` list (used for deterministic
/// multi-key tie-breaking), a descending flag, a nulls-first flag and an
/// optional collation.
#[derive(Debug, Clone, Default)]
pub struct Sort {
    pub field: String,
    pub field_no: usize,
    pub reversed: bool,
    pub nulls_first: bool,
    pub collate: Option<String>,
}

/// A `LIMIT count OFFSET offset` clause pushed down from the query engine.
/// Both numbers are advisory: the connector may ignore either, in which case
/// the host applies its own enforcement afterward.
#[derive(Debug, Clone, Default)]
pub struct Limit {
    pub count: i64,
    pub offset: i64,
}

} // verus!
