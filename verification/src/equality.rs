//! Structural equality: a comparison of the two children of a cell whose
//! answer is itself a noun.

use crate::value::{pair, size, Value};
use vstd::prelude::*;

verus! {

/// A yes or no as a noun: `Atom(1)` for yes, `Atom(0)` for no.
pub open spec fn verdict(yes: bool) -> Value {
    if yes {
        Value::Atom(1)
    } else {
        Value::Atom(0)
    }
}

/// The pairwise rule on the two children of a cell.
///
/// Two atoms are compared by their integers. Two cells are compared child by
/// child, and the two verdicts so obtained are then compared with each other:
/// the answer is yes when they agree, also when both are no. Every other pair
/// of shapes (an atom against a cell, an `Error` on either side) gives no.
pub open spec fn eq_cell_result(a: Value, b: Value) -> Value
    decreases a, b,
{
    match (a, b) {
        (Value::Atom(x), Value::Atom(y)) => verdict(x == y),
        (Value::Cell(a1, a2), Value::Cell(b1, b2)) => verdict(
            eq_cell_result(*a1, *b1) == eq_cell_result(*a2, *b2),
        ),
        _ => Value::Atom(0),
    }
}

/// What `eq` returns: `Error` for `Error` and for a bare atom, which hold no
/// pair to compare, and for a cell the pairwise rule on its children.
pub open spec fn eq_result(v: Value) -> Value {
    match v {
        Value::Error => Value::Error,
        Value::Atom(_) => Value::Error,
        Value::Cell(a, b) => eq_cell_result(*a, *b),
    }
}

/// The pairwise rule always answers `Atom(0)` or `Atom(1)`.
pub proof fn lemma_eq_cell_is_verdict(a: Value, b: Value)
    ensures
        eq_cell_result(a, b) == Value::Atom(0) || eq_cell_result(a, b) == Value::Atom(1),
{
}

/// Equality answers `Atom(0)` or `Atom(1)` for every cell, and `Error` for
/// every other noun.
pub proof fn lemma_eq_is_verdict_or_error(v: Value)
    ensures
        v is Cell ==> eq_result(v) == Value::Atom(0) || eq_result(v) == Value::Atom(1),
        !(v is Cell) ==> eq_result(v) == Value::Error,
{
    if v is Cell {
        lemma_eq_cell_is_verdict(v.left(), v.right());
    }
}

/// For two cells the pairwise rule is its own combinator: the verdicts on the
/// left children and on the right children are compared by the rule itself.
pub proof fn lemma_eq_cell_nested(a1: Value, a2: Value, b1: Value, b2: Value)
    ensures
        eq_cell_result(pair(a1, a2), pair(b1, b2)) == eq_cell_result(
            eq_cell_result(a1, b1),
            eq_cell_result(a2, b2),
        ),
{
    lemma_eq_cell_is_verdict(a1, b1);
    lemma_eq_cell_is_verdict(a2, b2);
}

/// Compares `a` with `b` by the pairwise rule.
pub fn eq_cell(a: &Value, b: &Value) -> (r: Value)
    ensures
        r == eq_cell_result(*a, *b),
    decreases size(*a) + size(*b),
{
    match (a, b) {
        (Value::Atom(x), Value::Atom(y)) => Value::Atom(if *x == *y { 1 } else { 0 }),
        (Value::Cell(a1, a2), Value::Cell(b1, b2)) => {
            let left = eq_cell(a1, b1);
            let right = eq_cell(a2, b2);
            eq_cell(&left, &right)
        },
        _ => Value::Atom(0),
    }
}

/// Structural equality of the two children of a cell; `Error` where there is
/// no cell.
pub fn eq(v: &Value) -> (r: Value)
    ensures
        r == eq_result(*v),
{
    match v {
        Value::Error => Value::Error,
        Value::Atom(_) => Value::Error,
        Value::Cell(a, b) => eq_cell(a, b),
    }
}

} // verus!
