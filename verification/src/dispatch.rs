//! The opcode dispatcher: evaluation of a cell whose left child names an
//! operation and whose right child is its operand.

use crate::equality::{eq, eq_result};
use crate::subtraction::{lemma_sub_cell_size, sub_result};
use crate::swap::{swap, swap_result};
use crate::value::{kind, kind_result, pair, size, Value};
use std::rc::Rc;
use vstd::prelude::*;

verus! {

/// The operand of a selection, `(selector, (b, c))`, reduced: selector
/// `Atom(0)` picks `b`, selector `Atom(1)` picks `c`. The selector is read as
/// it stands, not evaluated. Any other selector or shape gives `Error`.
pub open spec fn select_result(operand: Value) -> Value {
    match operand {
        Value::Cell(selector, choices) => match (*selector, *choices) {
            (Value::Atom(s), Value::Cell(b, c)) => if s == 0 {
                *b
            } else if s == 1 {
                *c
            } else {
                Value::Error
            },
            _ => Value::Error,
        },
        _ => Value::Error,
    }
}

/// What evaluation gives for the opcode noun `a` and the operand `b`.
///
/// An opcode that is no atom gives `Error`. Opcodes 0 to 3 hand the operand to
/// `kind`, `sub`, `eq` and `swap`. Opcode 4 takes an operand `(f, (x, y))`,
/// evaluates `(f, x)` and `(f, y)`, and evaluates the pair of the two results
/// as an invocation of its own. Opcode 5 selects. Every other opcode, and
/// every operand of the wrong shape, gives `Error`.
///
/// The comparison of sizes under opcode 4 is there to make the definition
/// well founded, and for nothing else: it always holds, since no result has
/// more nodes than its operand (`lemma_eval_cell_size`), so that opcode 4 is
/// the plain equation of `lemma_compose_unfolds`.
pub open spec fn eval_cell_result(a: Value, b: Value) -> Value
    decreases size(a) + size(b),
    via eval_cell_result_descends
{
    match a {
        Value::Atom(op) => if op == 0 {
            kind_result(b)
        } else if op == 1 {
            sub_result(b)
        } else if op == 2 {
            eq_result(b)
        } else if op == 3 {
            swap_result(b)
        } else if op == 4 {
            match b {
                Value::Cell(f, xy) => match *xy {
                    Value::Cell(x, y) => {
                        let p = eval_cell_result(*f, *x);
                        let q = eval_cell_result(*f, *y);
                        if size(p) + size(q) < size(a) + size(b) {
                            eval_cell_result(p, q)
                        } else {
                            Value::Error
                        }
                    },
                    _ => Value::Error,
                },
                _ => Value::Error,
            }
        } else if op == 5 {
            select_result(b)
        } else {
            Value::Error
        },
        _ => Value::Error,
    }
}

/// Both inner evaluations under opcode 4 are on children of the operand.
#[via_fn]
proof fn eval_cell_result_descends(a: Value, b: Value) {
    reveal_with_fuel(size, 3);
}

/// What `eval` returns: a cell is read as `(opcode, operand)`; `Error` and a
/// bare atom give `Error`.
pub open spec fn eval_result(v: Value) -> Value {
    match v {
        Value::Cell(a, b) => eval_cell_result(*a, *b),
        _ => Value::Error,
    }
}

/// Evaluation never returns more nodes than its operand holds.
pub proof fn lemma_eval_cell_size(a: Value, b: Value)
    ensures
        size(eval_cell_result(a, b)) <= size(b),
    decreases size(a) + size(b),
{
    reveal_with_fuel(size, 3);
    if a == Value::Atom(1) && b is Cell {
        lemma_sub_cell_size(b.left(), b.right());
    } else if a == Value::Atom(4) && b is Cell && b.right() is Cell {
        let f = b.left();
        let x = b.right().left();
        let y = b.right().right();
        lemma_eval_cell_size(f, x);
        lemma_eval_cell_size(f, y);
        lemma_eval_cell_size(eval_cell_result(f, x), eval_cell_result(f, y));
    }
}

/// Opcode 4 on `(f, (x, y))` is evaluation of the pair of the two results of
/// `f`, on `x` and on `y`.
pub proof fn lemma_compose_unfolds(f: Value, x: Value, y: Value)
    ensures
        eval_result(pair(Value::Atom(4), pair(f, pair(x, y)))) == eval_result(
            pair(eval_result(pair(f, x)), eval_result(pair(f, y))),
        ),
{
    reveal_with_fuel(size, 3);
    lemma_eval_cell_size(f, x);
    lemma_eval_cell_size(f, y);
}

/// Opcodes 0 to 3 hand the operand to `kind`, `sub`, `eq` and `swap`.
pub proof fn lemma_eval_delegates(x: Value)
    ensures
        eval_result(pair(Value::Atom(0), x)) == kind_result(x),
        eval_result(pair(Value::Atom(1), x)) == sub_result(x),
        eval_result(pair(Value::Atom(2), x)) == eq_result(x),
        eval_result(pair(Value::Atom(3), x)) == swap_result(x),
{
}

/// Opcode 5 with selector 0 gives the first of the two choices, with selector
/// 1 the second, whatever the choices are.
pub proof fn lemma_eval_selects(b: Value, c: Value)
    ensures
        eval_result(pair(Value::Atom(5), pair(Value::Atom(0), pair(b, c)))) == b,
        eval_result(pair(Value::Atom(5), pair(Value::Atom(1), pair(b, c)))) == c,
{
}

/// Opcode 5 with a selector other than `Atom(0)` and `Atom(1)` gives `Error`.
pub proof fn lemma_eval_rejects_selector(selector: Value, b: Value, c: Value)
    requires
        selector != Value::Atom(0),
        selector != Value::Atom(1),
    ensures
        eval_result(pair(Value::Atom(5), pair(selector, pair(b, c)))) == Value::Error,
{
}

/// A noun that is no cell evaluates to `Error`.
pub proof fn lemma_eval_rejects_non_cell(v: Value)
    requires
        !(v is Cell),
    ensures
        eval_result(v) == Value::Error,
{
}

/// A cell whose opcode is no atom, or an atom outside 0 to 5, evaluates to
/// `Error`, whatever the operand.
pub proof fn lemma_eval_rejects_opcode(opcode: Value, x: Value)
    requires
        opcode matches Value::Atom(op) ==> op < 0 || op > 5,
    ensures
        eval_result(pair(opcode, x)) == Value::Error,
{
}

/// Opcodes 4 and 5 give `Error` for an operand that is not of the shape
/// `(_, (_, _))`.
pub proof fn lemma_eval_rejects_operand(x: Value)
    requires
        !(x is Cell && x.right() is Cell),
    ensures
        eval_result(pair(Value::Atom(4), x)) == Value::Error,
        eval_result(pair(Value::Atom(5), x)) == Value::Error,
{
}

/// Evaluation never returns more nodes than it was given, and returns fewer
/// for every cell.
pub proof fn lemma_eval_size(v: Value)
    ensures
        size(eval_result(v)) <= size(v),
        v is Cell ==> size(eval_result(v)) < size(v),
{
    if v is Cell {
        lemma_eval_cell_size(v.left(), v.right());
    }
}

/// Evaluates the operand `b` under the opcode noun `a`.
pub fn eval_cell(a: &Value, b: &Value) -> (r: Rc<Value>)
    ensures
        *r == eval_cell_result(*a, *b),
    decreases size(*a) + size(*b),
{
    match a.atom_value() {
        None => Rc::new(Value::Error),
        Some(op) => {
            if op == 0 {
                Rc::new(kind(b))
            } else if op == 1 {
                Rc::new(crate::subtraction::sub(b))
            } else if op == 2 {
                Rc::new(eq(b))
            } else if op == 3 {
                Rc::new(swap(b))
            } else if op == 4 {
                match b {
                    Value::Cell(f, xy) => match &**xy {
                        Value::Cell(x, y) => {
                            proof {
                                reveal_with_fuel(size, 3);
                            }
                            let p = eval_cell(f, x);
                            let q = eval_cell(f, y);
                            proof {
                                lemma_eval_cell_size(b.left(), b.right().left());
                                lemma_eval_cell_size(b.left(), b.right().right());
                            }
                            eval_cell(&p, &q)
                        },
                        _ => Rc::new(Value::Error),
                    },
                    _ => Rc::new(Value::Error),
                }
            } else if op == 5 {
                match b {
                    Value::Cell(selector, choices) => match (selector.atom_value(), &**choices) {
                        (Some(s), Value::Cell(first, second)) => {
                            if s == 0 {
                                Rc::clone(first)
                            } else if s == 1 {
                                Rc::clone(second)
                            } else {
                                Rc::new(Value::Error)
                            }
                        },
                        _ => Rc::new(Value::Error),
                    },
                    _ => Rc::new(Value::Error),
                }
            } else {
                Rc::new(Value::Error)
            }
        },
    }
}

/// Evaluates a noun: the one entry point of the evaluator. It always returns,
/// and what it returns depends on the noun alone.
pub fn eval(v: &Value) -> (r: Rc<Value>)
    ensures
        *r == eval_result(*v),
{
    match v {
        Value::Cell(a, b) => eval_cell(a, b),
        _ => Rc::new(Value::Error),
    }
}

} // verus!
