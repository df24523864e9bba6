//! Structural swap: the exchange of the two children of a cell.

use crate::value::Value;
use std::rc::Rc;
use vstd::prelude::*;

verus! {

/// What `swap` returns: a cell with its children exchanged; `Error` and atoms
/// unchanged.
pub open spec fn swap_result(v: Value) -> Value {
    match v {
        Value::Error => Value::Error,
        Value::Atom(a) => Value::Atom(a),
        Value::Cell(a, b) => Value::Cell(b, a),
    }
}

/// Swapping twice gives the noun back, and a noun that is no cell is its own
/// swap.
pub proof fn lemma_swap_involution(v: Value)
    ensures
        swap_result(swap_result(v)) == v,
        !(v is Cell) ==> swap_result(v) == v,
{
}

/// Exchanges the children of a cell. The new cell shares both children with
/// the old one; nothing below the top is copied.
pub fn swap(v: &Value) -> (r: Value)
    ensures
        r == swap_result(*v),
{
    match v {
        Value::Error => Value::Error,
        Value::Atom(a) => Value::Atom(*a),
        Value::Cell(a, b) => Value::Cell(Rc::clone(b), Rc::clone(a)),
    }
}

} // verus!
