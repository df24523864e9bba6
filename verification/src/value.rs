//! The value model: nouns, their size, and the accessors that look one level
//! into a noun.

use std::rc::Rc;
use vstd::prelude::*;

verus! {

/// A noun: the failure sentinel, an integer leaf, or an ordered pair of nouns.
///
/// Children are held by shared ownership, so one noun may sit under many
/// cells at once. A noun is never changed after it is built, which makes it a
/// finite tree; in contracts a `Value` stands for that tree.
#[derive(Debug, PartialEq, Eq)]
pub enum Value {
    /// The one failure value. It is ordinary data and is returned, not raised.
    Error,
    /// A signed 32-bit integer leaf.
    Atom(i32),
    /// An ordered pair `(left, right)`.
    Cell(Rc<Value>, Rc<Value>),
}

impl Clone for Value {
    /// A copy of the top node. The children of a cell are shared with
    /// `self`, not copied.
    fn clone(&self) -> (r: Self)
        ensures
            r == *self,
    {
        match self {
            Value::Error => Value::Error,
            Value::Atom(i) => Value::Atom(*i),
            Value::Cell(left, right) => Value::Cell(Rc::clone(left), Rc::clone(right)),
        }
    }
}

/// The number of nodes of a noun: every `Error`, `Atom` and `Cell` counts one.
pub open spec fn size(v: Value) -> nat
    decreases v,
{
    match v {
        Value::Error => 1,
        Value::Atom(_) => 1,
        Value::Cell(left, right) => 1 + size(*left) + size(*right),
    }
}

/// The cell `(left, right)`.
pub open spec fn pair(left: Value, right: Value) -> Value {
    Value::Cell(Rc::new(left), Rc::new(right))
}

/// The classification of a noun, itself a noun: `Error` stays `Error`, every
/// atom gives `Atom(0)`, every cell gives `Atom(1)`.
pub open spec fn kind_result(v: Value) -> Value {
    match v {
        Value::Error => Value::Error,
        Value::Atom(_) => Value::Atom(0),
        Value::Cell(_, _) => Value::Atom(1),
    }
}

/// The kind of a noun depends on its shape alone: the integer of an atom and
/// the children of a cell play no part.
pub proof fn lemma_kind_by_shape(x: i32, a: Value, b: Value)
    ensures
        kind_result(Value::Error) == Value::Error,
        kind_result(Value::Atom(x)) == Value::Atom(0),
        kind_result(pair(a, b)) == Value::Atom(1),
{
}

impl Value {
    /// The left child of a cell, as a noun of its own.
    pub open spec fn left(self) -> Value
        recommends
            self is Cell,
    {
        match self {
            Value::Cell(left, _) => *left,
            _ => Value::Error,
        }
    }

    /// The right child of a cell, as a noun of its own.
    pub open spec fn right(self) -> Value
        recommends
            self is Cell,
    {
        match self {
            Value::Cell(_, right) => *right,
            _ => Value::Error,
        }
    }

    /// The integer of an atom; `None` for `Error` and for a cell.
    pub fn atom_value(&self) -> (r: Option<i32>)
        ensures
            r == (match *self {
                Value::Atom(i) => Some(i),
                _ => None,
            }),
    {
        match self {
            Value::Atom(i) => Some(*i),
            _ => None,
        }
    }

    /// The two children of a cell, shared with it; `None` for `Error` and for
    /// an atom.
    pub fn cell_content(&self) -> (r: Option<(Rc<Value>, Rc<Value>)>)
        ensures
            r == (match *self {
                Value::Cell(left, right) => Some((left, right)),
                _ => None,
            }),
    {
        match self {
            Value::Cell(left, right) => Some((Rc::clone(left), Rc::clone(right))),
            _ => None,
        }
    }
}

/// Classifies a noun by its shape.
pub fn kind(v: &Value) -> (r: Value)
    ensures
        r == kind_result(*v),
{
    match v {
        Value::Error => Value::Error,
        Value::Atom(_) => Value::Atom(0),
        Value::Cell(_, _) => Value::Atom(1),
    }
}

} // verus!
