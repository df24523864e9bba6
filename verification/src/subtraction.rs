//! Structural subtraction: element-wise subtraction over pair trees, with an
//! atom on one side spread over every leaf of the other.

use crate::value::{pair, size, Value};
use std::rc::Rc;
use vstd::prelude::*;

verus! {

/// `a - b` reduced to the 32-bit signed range: a difference outside the range
/// wraps around by `2^32`.
pub open spec fn wrapped_difference(a: i32, b: i32) -> i32 {
    if a - b > i32::MAX {
        (a - b - 0x1_0000_0000) as i32
    } else if a - b < i32::MIN {
        (a - b + 0x1_0000_0000) as i32
    } else {
        (a - b) as i32
    }
}

/// `-a` reduced to the 32-bit signed range: the negation of `i32::MIN` is
/// `i32::MIN`, every other atom gets its true negation.
pub open spec fn wrapped_negation(a: i32) -> i32 {
    if a == i32::MIN {
        i32::MIN
    } else {
        (-a) as i32
    }
}

/// The pairwise rule on the two children of a cell.
///
/// Two atoms give their difference. A cell minus an atom has the atom taken
/// from each child of the cell; an atom minus a cell has each child of the
/// cell taken from the atom. Two cells are subtracted child by child, each
/// pair of children by this rule again, whatever their shapes. An `Error` on
/// either side gives `Error` in that place.
pub open spec fn sub_cell_result(a: Value, b: Value) -> Value
    decreases a, b,
{
    match (a, b) {
        (Value::Atom(x), Value::Atom(y)) => Value::Atom(wrapped_difference(x, y)),
        (Value::Cell(a1, a2), Value::Atom(_)) => pair(
            sub_cell_result(*a1, b),
            sub_cell_result(*a2, b),
        ),
        (Value::Atom(_), Value::Cell(b1, b2)) => pair(
            sub_cell_result(a, *b1),
            sub_cell_result(a, *b2),
        ),
        (Value::Cell(a1, a2), Value::Cell(b1, b2)) => pair(
            sub_cell_result(*a1, *b1),
            sub_cell_result(*a2, *b2),
        ),
        _ => Value::Error,
    }
}

/// What `sub` returns: `Error` for `Error`, the negation of an atom, and for a
/// cell the pairwise rule on its children.
pub open spec fn sub_result(v: Value) -> Value {
    match v {
        Value::Error => Value::Error,
        Value::Atom(a) => Value::Atom(wrapped_negation(a)),
        Value::Cell(a, b) => sub_cell_result(*a, *b),
    }
}

/// An atom other than `i32::MIN` is negated exactly.
pub proof fn lemma_sub_negates_atom(a: i32)
    requires
        a != i32::MIN,
    ensures
        sub_result(Value::Atom(a)) matches Value::Atom(n) && n == -a,
{
}

/// Two atoms whose difference fits in 32 bits are subtracted exactly.
pub proof fn lemma_sub_cell_subtracts_atoms(a: i32, b: i32)
    requires
        i32::MIN <= a - b <= i32::MAX,
    ensures
        sub_cell_result(Value::Atom(a), Value::Atom(b)) matches Value::Atom(n) && n == a - b,
{
}

/// The pairwise difference of two nouns has fewer nodes than the cell that
/// would hold them.
pub proof fn lemma_sub_cell_size(a: Value, b: Value)
    ensures
        size(sub_cell_result(a, b)) < size(a) + size(b),
    decreases a, b,
{
    if a is Cell && b is Atom {
        lemma_sub_cell_size(a.left(), b);
        lemma_sub_cell_size(a.right(), b);
    } else if a is Atom && b is Cell {
        lemma_sub_cell_size(a, b.left());
        lemma_sub_cell_size(a, b.right());
    } else if a is Cell && b is Cell {
        lemma_sub_cell_size(a.left(), b.left());
        lemma_sub_cell_size(a.right(), b.right());
    }
}

/// Subtracts `b` from `a` by the pairwise rule.
pub fn sub_cell(a: &Value, b: &Value) -> (r: Value)
    ensures
        r == sub_cell_result(*a, *b),
    decreases *a, *b,
{
    match (a, b) {
        (Value::Atom(x), Value::Atom(y)) => Value::Atom(x.wrapping_sub(*y)),
        (Value::Cell(a1, a2), Value::Atom(_)) => Value::Cell(
            Rc::new(sub_cell(a1, b)),
            Rc::new(sub_cell(a2, b)),
        ),
        (Value::Atom(_), Value::Cell(b1, b2)) => Value::Cell(
            Rc::new(sub_cell(a, b1)),
            Rc::new(sub_cell(a, b2)),
        ),
        (Value::Cell(a1, a2), Value::Cell(b1, b2)) => Value::Cell(
            Rc::new(sub_cell(a1, b1)),
            Rc::new(sub_cell(a2, b2)),
        ),
        _ => Value::Error,
    }
}

/// Structural subtraction of one noun: negates an atom, subtracts the right
/// child of a cell from its left child, and hands `Error` back.
pub fn sub(v: &Value) -> (r: Value)
    ensures
        r == sub_result(*v),
{
    match v {
        Value::Error => Value::Error,
        Value::Atom(a) => Value::Atom(0i32.wrapping_sub(*a)),
        Value::Cell(a, b) => sub_cell(a, b),
    }
}

} // verus!
