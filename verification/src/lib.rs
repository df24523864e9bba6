//! A tree-rewriting evaluator for nouns: binary trees with integer leaves.
//!
//! A noun is built by the caller and handed to [`dispatch::eval`], which reads
//! it as an opcode and an operand and reduces it to another noun. Failure is
//! the noun `Error`, returned like any other value.

pub mod dispatch;
pub mod equality;
pub mod subtraction;
pub mod swap;
pub mod value;
