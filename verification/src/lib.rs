//! Lowering of architecture-semantics pseudocode into a small straight-line
//! instruction representation over indexed local slots and bit-vector values.
//!
//! The crate has three parts:
//! - [`ir`]: the target representation — typed local slots, bit-vector
//!   literals, the closed instruction vocabulary, and the `Function`
//!   container that owns the emitted program.
//! - [`ast`]: the source shapes the lowering consumes — a statement block of
//!   constant declarations and assignments over variable, array-index,
//!   field-access, slice, operator-application and literal expressions.
//! - [`translate`]: the lowering engine — a single pre-order walk that
//!   resolves readable and assignable locations to local slots through a
//!   flat symbol table and emits instructions in encounter order, rejecting
//!   every construct outside the supported subset with a typed error.
//!
//! Beside them, [`lit`] parses the decimal and binary literal text the
//! engine validates, and [`laws`] states and proves the engine's laws:
//! what expression lowering may touch, its net effect on the implicit
//! evaluation stack, and how undefined locations, constant declarations,
//! rotations and slices behave.

pub mod ast;
pub mod ir;
pub mod laws;
pub mod lit;
pub mod translate;

