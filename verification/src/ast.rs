//! The source shapes the lowering consumes: a parsed statement block over a
//! small expression language. The pseudocode parser that produces these
//! values is an external collaborator; the lowering engine only reads them.
//!
//! Literal integers and literal bit patterns carry their source text: a
//! literal integer as decimal digits, a literal bit pattern as binary
//! digits. The lowering engine parses and validates that text where a
//! literal is structurally required.

use vstd::prelude::*;

verus! {

/// A declared type: at minimum a fixed-width bit-vector type whose width
/// is an expression (a literal integer in the supported subset). The other
/// shapes are recognized but rejected by the lowering engine.
#[derive(Debug)]
pub enum Type {
    /// `bits(w)`: a bit-vector of width `w`.
    Bits(Expr),
    /// An unbounded integer type.
    Integer,
    /// A boolean type.
    Boolean,
}

/// An expression of the source language.
#[derive(Debug)]
pub enum Expr {
    /// A bare variable reference.
    Var(String),
    /// An array element read, `array[index]`.
    ArrayIndex { array: Box<Expr>, index: Box<Expr> },
    /// A field read, `x.name`.
    Field { x: Box<Expr>, name: String },
    /// A slice read, `x[lo +: w, ...]` (one clause in the supported subset).
    Slices { x: Box<Expr>, slices: Vec<Slice> },
    /// An operator application, `func.{types}(args)`.
    Apply { func: String, types: Vec<Expr>, args: Vec<Expr> },
    /// A literal integer, as its decimal source text.
    LitInt(String),
    /// A literal bit pattern, as its binary source text.
    LitBits(String),
}

impl Expr {
    /// The decimal text of a literal integer expression, if it is one.
    pub fn as_lit_int(&self) -> (r: Option<&String>)
        ensures
            match r {
                Some(s) => self matches Expr::LitInt(t) && t == s,
                None => !(self matches Expr::LitInt(_)),
            },
    {
        match self {
            Expr::LitInt(s) => Some(s),
            _ => None,
        }
    }

    /// The binary text of a literal bit-pattern expression, if it is one.
    pub fn as_lit_bits(&self) -> (r: Option<&String>)
        ensures
            match r {
                Some(s) => self matches Expr::LitBits(t) && t == s,
                None => !(self matches Expr::LitBits(_)),
            },
    {
        match self {
            Expr::LitBits(s) => Some(s),
            _ => None,
        }
    }
}

/// One slice clause: `LowWidth(lo, w)` reads the `w`-bit slice starting at
/// bit `lo`; both bounds must be literal integers in the supported subset.
#[derive(Debug)]
pub enum Slice {
    LowWidth(Expr, Expr),
}

/// An assignable location of the source language.
#[derive(Debug)]
pub enum LExpr {
    /// A bare variable.
    Var(String),
    /// An array element, `array[index]`.
    ArrayIndex { array: Box<LExpr>, index: Box<Expr> },
    /// A field, `x.name`.
    Field { x: Box<LExpr>, name: String },
}

/// A statement of the source language. Only constant declarations and
/// assignments are lowered; the remaining shapes are recognized but
/// rejected.
#[derive(Debug)]
pub enum Stmt {
    /// `constant ty name = rhs;`
    ConstDecl { ty: Type, name: String, rhs: Expr },
    /// `lhs = rhs;`
    Assign { lhs: LExpr, rhs: Expr },
    /// `ty name = rhs;` — recognized, not lowered.
    VarDecl { ty: Type, name: String, rhs: Expr },
    /// `ty name0, name1, ...;` — recognized, not lowered.
    VarDeclsNoInit { ty: Type, names: Vec<String> },
    /// `assert cond;` — recognized, not lowered.
    Assert { cond: Expr },
    /// `if cond then ... else ...` — recognized, not lowered.
    If { cond: Expr, then_block: Block, else_block: Block },
    /// A procedure call — recognized, not lowered.
    Call { func: String, types: Vec<Expr>, args: Vec<Expr> },
}

/// A parsed statement block: the unit the lowering engine consumes.
#[derive(Debug)]
pub struct Block {
    pub stmts: Vec<Stmt>,
}

} // verus!
