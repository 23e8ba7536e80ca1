//! A tree-walking evaluator for a small expression language with integers,
//! booleans, prefix and infix operators, conditionals and early return.
//!
//! The syntax tree lives in [`ast`]; [`eval`] reduces a tree to an
//! [`eval::Object`] or to the [`eval::EvalError`] that stopped it.  The
//! language has no type checker, so operand types are checked as each
//! operator is applied.  Integers are signed and 32 bits wide.
//!
//! The evaluator takes trees; turning source text into a tree is not part
//! of this crate.

pub mod ast;
pub mod eval;
