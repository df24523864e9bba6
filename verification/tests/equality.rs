use noun_eval::equality::{eq, eq_cell};
use noun_eval::value::Value;
use std::rc::Rc;

fn atom(i: i32) -> Rc<Value> {
    Rc::new(Value::Atom(i))
}

fn cell(a: Rc<Value>, b: Rc<Value>) -> Rc<Value> {
    Rc::new(Value::Cell(a, b))
}

#[test]
fn eq_error_is_error() {
    match eq(&Value::Error) {
        Value::Error => assert!(true),
        _ => assert!(false),
    }
}

#[test]
fn eq_atom_is_error() {
    match eq(&Value::Atom(1)) {
        Value::Error => assert!(true),
        _ => assert!(false),
    }
}

#[test]
fn eq_cell_is_equal_with_equal_atoms() {
    match eq(&Value::Cell(Rc::new(Value::Atom(1)), Rc::new(Value::Atom(1)))) {
        Value::Atom(1) => assert!(true),
        _ => assert!(false),
    }
}

#[test]
fn eq_cell_is_unequal_with_unequal_atoms() {
    match eq(&Value::Cell(Rc::new(Value::Atom(1)), Rc::new(Value::Atom(2)))) {
        Value::Atom(0) => assert!(true),
        _ => assert!(false),
    }
}

#[test]
fn eq_cell_is_equal_with_equal_subtrees() {
    match eq(&Value::Cell(
        Rc::new(Value::Cell(Rc::new(Value::Atom(1)), Rc::new(Value::Atom(2)))),
        Rc::new(Value::Cell(Rc::new(Value::Atom(1)), Rc::new(Value::Atom(2)))),
    )) {
        Value::Atom(1) => assert!(true),
        _ => assert!(false),
    }
}

#[test]
fn eq_cell_compares_atoms_by_value() {
    assert_eq!(eq_cell(&Value::Atom(0), &Value::Atom(0)), Value::Atom(1));
    assert_eq!(eq_cell(&Value::Atom(-4), &Value::Atom(-4)), Value::Atom(1));
    assert_eq!(eq_cell(&Value::Atom(i32::MIN), &Value::Atom(i32::MAX)), Value::Atom(0));
    assert_eq!(eq_cell(&Value::Atom(1), &Value::Atom(-1)), Value::Atom(0));
}

#[test]
fn eq_cell_of_unlike_shapes_is_zero() {
    let tree = cell(atom(1), atom(1));
    assert_eq!(eq_cell(&Value::Atom(1), &tree), Value::Atom(0));
    assert_eq!(eq_cell(&tree, &Value::Atom(1)), Value::Atom(0));
    assert_eq!(eq_cell(&Value::Error, &Value::Error), Value::Atom(0));
    assert_eq!(eq_cell(&Value::Error, &Value::Atom(1)), Value::Atom(0));
    assert_eq!(eq_cell(&Value::Atom(1), &Value::Error), Value::Atom(0));
    assert_eq!(eq_cell(&Value::Error, &tree), Value::Atom(0));
    assert_eq!(eq_cell(&tree, &Value::Error), Value::Atom(0));
    assert_eq!(eq(&Value::Cell(Rc::new(Value::Error), Rc::new(Value::Error))), Value::Atom(0));
}

#[test]
fn eq_cell_compares_the_two_verdicts_with_each_other() {
    // both pairs of children differ: the verdicts 0 and 0 agree
    let a = cell(atom(1), atom(2));
    let b = cell(atom(3), atom(4));
    assert_eq!(eq_cell(&a, &b), Value::Atom(1));
    // one pair agrees and one differs: the verdicts 1 and 0 disagree
    let c = cell(atom(1), atom(3));
    assert_eq!(eq_cell(&a, &c), Value::Atom(0));
    let d = cell(atom(9), atom(2));
    assert_eq!(eq_cell(&a, &d), Value::Atom(0));
}

#[test]
fn eq_cell_on_two_cells_is_eq_cell_on_the_verdicts() {
    let nouns = [
        atom(1),
        atom(2),
        Rc::new(Value::Error),
        cell(atom(1), atom(2)),
        cell(atom(1), atom(1)),
        cell(cell(atom(1), atom(2)), atom(1)),
    ];
    for a1 in nouns.iter() {
        for a2 in nouns.iter() {
            for b1 in nouns.iter() {
                for b2 in nouns.iter() {
                    let whole = eq_cell(
                        &Value::Cell(Rc::clone(a1), Rc::clone(a2)),
                        &Value::Cell(Rc::clone(b1), Rc::clone(b2)),
                    );
                    let left = eq_cell(a1, b1);
                    let right = eq_cell(a2, b2);
                    assert_eq!(whole, eq_cell(&left, &right));
                    assert!(whole == Value::Atom(0) || whole == Value::Atom(1));
                }
            }
        }
    }
}

#[test]
fn eq_cell_three_levels_deep() {
    // [[1 2] [3 4]] against [[1 2] [3 5]]:
    // left children: [1 2] ~ [1 2] gives 1; right children: [3 4] ~ [3 5] gives
    // the verdicts 1 and 0, which disagree: 0. Then 1 against 0: 0.
    let a = cell(cell(atom(1), atom(2)), cell(atom(3), atom(4)));
    let b = cell(cell(atom(1), atom(2)), cell(atom(3), atom(5)));
    assert_eq!(eq_cell(&a, &b), Value::Atom(0));
    // a cell against an atom below the top gives 0, and 0 against 0 gives 1
    let c = cell(atom(1), cell(atom(2), atom(3)));
    let d = cell(cell(atom(1), atom(1)), atom(2));
    assert_eq!(eq_cell(&c, &d), Value::Atom(1));
}
