//! The lowering engine: a single pre-order walk over a parsed statement
//! block that resolves readable and assignable locations to local slots
//! through a flat symbol table and emits instructions in encounter order.
//!
//! The walk is specified by a family of spec-level lowering functions
//! (`spec_block`, `spec_stmt`, `spec_expr`, ...) over a mathematical state
//! of the session, and every executable step is proved to agree with them:
//! which instructions come out, which locals and bindings are made, and
//! which error ends the session on which input.

use crate::ast::Block;
use crate::ast::Expr;
use crate::ast::LExpr;
use crate::ast::Slice;
use crate::ast::Stmt;
use crate::ast::Type;
use crate::ir;
use crate::ir::Inst;
use crate::ir::LocalIdx;
use crate::lit::bin_value;
use crate::lit::dec_value;
use crate::lit::parse_bin_u128;
use crate::lit::parse_dec_usize;
use crate::lit::valid_bin;
use crate::lit::valid_dec;
use vstd::prelude::*;

verus! {

/// An addressing expression naming an assignable or readable location of
/// the source semantics: a bare name, an array element of another target
/// with a literal index, or a field of another target. Targets form the
/// key space of the symbol table and never appear in the emitted program.
#[derive(Debug)]
pub enum Target {
    Var(String),
    Index(Box<Target>, usize),
    Field(Box<Target>, String),
}

/// The mathematical shape of a `Target`: names as character sequences,
/// indices as naturals.
pub enum TargetView {
    Var(Seq<char>),
    Index(Box<TargetView>, nat),
    Field(Box<TargetView>, Seq<char>),
}

impl View for Target {
    type V = TargetView;

    open spec fn view(&self) -> TargetView
        decreases self,
    {
        match self {
            Target::Var(v) => TargetView::Var(v@),
            Target::Index(t, i) => TargetView::Index(Box::new((**t)@), *i as nat),
            Target::Field(t, n) => TargetView::Field(Box::new((**t)@), n@),
        }
    }
}

/// Structural equality of targets, decided against their views.
fn target_eq(a: &Target, b: &Target) -> (r: bool)
    ensures
        r == (a@ == b@),
    decreases a,
{
    match (a, b) {
        (Target::Var(x), Target::Var(y)) => *x == *y,
        (Target::Index(t1, i1), Target::Index(t2, i2)) => {
            let inner = target_eq(t1, t2);
            inner && *i1 == *i2
        },
        (Target::Field(t1, n1), Target::Field(t2, n2)) => {
            let inner = target_eq(t1, t2);
            inner && *n1 == *n2
        },
        _ => false,
    }
}

impl PartialEq for Target {
    fn eq(&self, other: &Self) -> bool {
        target_eq(self, other)
    }
}

impl vstd::std_specs::cmp::PartialEqSpecImpl for Target {
    open spec fn obeys_eq_spec() -> bool {
        true
    }

    open spec fn eq_spec(&self, other: &Self) -> bool {
        self@ == other@
    }
}

impl Clone for Target {
    fn clone(&self) -> (r: Self)
        ensures
            r@ == self@,
        decreases self,
    {
        match self {
            Target::Var(v) => Target::Var(v.clone()),
            Target::Index(t, i) => Target::Index(Box::new((**t).clone()), *i),
            Target::Field(t, n) => Target::Field(Box::new((**t).clone()), n.clone()),
        }
    }
}

/// A typed translation error. Every failure of the lowering session is one
/// of these; the first error aborts the walk and is handed to the caller
/// with the offending construct where one helps to diagnose it.
#[derive(Debug)]
pub enum LowerError {
    /// An array index that is not a literal integer.
    IndexNotLiteral,
    /// A position that requires a literal integer held something else.
    ExpectedLitInt,
    /// A position that requires a literal bit pattern held something else.
    ExpectedLitBits,
    /// Malformed or out-of-range literal text.
    BadLiteral,
    /// A read of a location that no declaration or binding covers.
    UndefinedRead(Target),
    /// An assignment to a location that no declaration or binding covers.
    UndefinedAssign(Target),
    /// An operand list that was not the expected single operand.
    ExpectedUnary,
    /// An operand list that was not the expected two operands.
    ExpectedBinary,
    /// A rotate whose amount type is wider than the rotated value's type.
    ShiftWidth { xw: usize, sw: usize },
    /// A rotate amount at least as large as the rotated value's width.
    ShiftAmount { s: u128, xw: usize },
    /// A recognized statement shape outside the lowered subset.
    UnsupportedStmt,
    /// A recognized expression shape outside the lowered subset.
    UnsupportedExpr,
    /// A recognized type shape outside the lowered subset.
    UnsupportedType,
    /// An operation name outside the lowered subset.
    UnsupportedOp(String),
}

/// The mathematical shape of a `LowerError`.
pub enum LowerErrorView {
    IndexNotLiteral,
    ExpectedLitInt,
    ExpectedLitBits,
    BadLiteral,
    UndefinedRead(TargetView),
    UndefinedAssign(TargetView),
    ExpectedUnary,
    ExpectedBinary,
    ShiftWidth { xw: nat, sw: nat },
    ShiftAmount { s: u128, xw: nat },
    UnsupportedStmt,
    UnsupportedExpr,
    UnsupportedType,
    UnsupportedOp(Seq<char>),
}

impl View for LowerError {
    type V = LowerErrorView;

    open spec fn view(&self) -> LowerErrorView {
        match self {
            LowerError::IndexNotLiteral => LowerErrorView::IndexNotLiteral,
            LowerError::ExpectedLitInt => LowerErrorView::ExpectedLitInt,
            LowerError::ExpectedLitBits => LowerErrorView::ExpectedLitBits,
            LowerError::BadLiteral => LowerErrorView::BadLiteral,
            LowerError::UndefinedRead(t) => LowerErrorView::UndefinedRead(t@),
            LowerError::UndefinedAssign(t) => LowerErrorView::UndefinedAssign(t@),
            LowerError::ExpectedUnary => LowerErrorView::ExpectedUnary,
            LowerError::ExpectedBinary => LowerErrorView::ExpectedBinary,
            LowerError::ShiftWidth { xw, sw } => LowerErrorView::ShiftWidth {
                xw: *xw as nat,
                sw: *sw as nat,
            },
            LowerError::ShiftAmount { s, xw } => LowerErrorView::ShiftAmount {
                s: *s,
                xw: *xw as nat,
            },
            LowerError::UnsupportedStmt => LowerErrorView::UnsupportedStmt,
            LowerError::UnsupportedExpr => LowerErrorView::UnsupportedExpr,
            LowerError::UnsupportedType => LowerErrorView::UnsupportedType,
            LowerError::UnsupportedOp(f) => LowerErrorView::UnsupportedOp(f@),
        }
    }
}

/// The mathematical state of one lowering session: the declared local
/// types, the emitted instructions, and the symbol table as a binding
/// list in which a later binding of a target shadows an earlier one.
#[verifier::ext_equal]
pub struct LowerState {
    pub locals: Seq<ir::Type>,
    pub insts: Seq<Inst>,
    pub scope: Seq<(TargetView, LocalIdx)>,
}

impl LowerState {
    /// The session state before anything is bound or emitted.
    pub open spec fn initial() -> LowerState {
        LowerState { locals: Seq::empty(), insts: Seq::empty(), scope: Seq::empty() }
    }

    /// The slot the next allocation returns: the current local count.
    pub open spec fn next_slot(self) -> LocalIdx {
        LocalIdx(self.locals.len() as usize)
    }

    /// Append one emitted instruction.
    pub open spec fn emit(self, inst: Inst) -> LowerState {
        LowerState { insts: self.insts.push(inst), ..self }
    }

    /// Allocate one local of the given type.
    pub open spec fn alloc_local(self, ty: ir::Type) -> LowerState {
        LowerState { locals: self.locals.push(ty), ..self }
    }

    /// Bind a target to a slot, shadowing any earlier binding.
    pub open spec fn bind(self, t: TargetView, idx: LocalIdx) -> LowerState {
        LowerState { scope: self.scope.push((t, idx)), ..self }
    }
}

/// The slot bound to `t`, if any: the latest binding wins.
pub open spec fn lookup(scope: Seq<(TargetView, LocalIdx)>, t: TargetView) -> Option<LocalIdx>
    decreases scope.len(),
{
    if scope.len() == 0 {
        None
    } else if scope.last().0 == t {
        Some(scope.last().1)
    } else {
        lookup(scope.drop_last(), t)
    }
}

/// The outcome of a lowering step: the state it leaves behind, and on
/// failure the error that aborts the session.
pub enum LowerOutcome {
    Good(LowerState),
    Fail(LowerState, LowerErrorView),
}

/// The value of an expression required to be a literal integer that fits a
/// `usize`; `missing` is the error for a non-literal in that position.
pub open spec fn spec_lit_usize(e: Expr, missing: LowerErrorView) -> Result<nat, LowerErrorView> {
    match e {
        Expr::LitInt(s) => if valid_dec(s@) && dec_value(s@) <= usize::MAX {
            Ok(dec_value(s@))
        } else {
            Err(LowerErrorView::BadLiteral)
        },
        _ => Err(missing),
    }
}

/// The magnitude of an expression required to be a literal bit pattern.
pub open spec fn spec_lit_bits(e: Expr) -> Result<u128, LowerErrorView> {
    match e {
        Expr::LitBits(s) => if valid_bin(s@) && bin_value(s@) <= u128::MAX {
            Ok(bin_value(s@) as u128)
        } else {
            Err(LowerErrorView::BadLiteral)
        },
        _ => Err(LowerErrorView::ExpectedLitBits),
    }
}

/// The bit width of a declared type: only fixed-width bit-vector types
/// with a literal width are supported.
pub open spec fn spec_type_width(ty: Type) -> Result<nat, LowerErrorView> {
    match ty {
        Type::Bits(w) => spec_lit_usize(w, LowerErrorView::ExpectedLitInt),
        _ => Err(LowerErrorView::UnsupportedType),
    }
}

/// The target an assignable-location node resolves to.
pub open spec fn spec_lexpr_target(l: LExpr) -> Result<TargetView, LowerErrorView>
    decreases l,
{
    match l {
        LExpr::Var(v) => Ok(TargetView::Var(v@)),
        LExpr::ArrayIndex { array, index } => match spec_lexpr_target(*array) {
            Ok(t) => match spec_lit_usize(*index, LowerErrorView::IndexNotLiteral) {
                Ok(i) => Ok(TargetView::Index(Box::new(t), i)),
                Err(k) => Err(k),
            },
            Err(k) => Err(k),
        },
        LExpr::Field { x, name } => match spec_lexpr_target(*x) {
            Ok(t) => Ok(TargetView::Field(Box::new(t), name@)),
            Err(k) => Err(k),
        },
    }
}

/// The target a readable expression of variable, array-index or field
/// shape resolves to.
pub open spec fn spec_expr_target(e: Expr) -> Result<TargetView, LowerErrorView>
    decreases e,
{
    match e {
        Expr::Var(v) => Ok(TargetView::Var(v@)),
        Expr::ArrayIndex { array, index } => match spec_expr_target(*array) {
            Ok(t) => match spec_lit_usize(*index, LowerErrorView::IndexNotLiteral) {
                Ok(i) => Ok(TargetView::Index(Box::new(t), i)),
                Err(k) => Err(k),
            },
            Err(k) => Err(k),
        },
        Expr::Field { x, name } => match spec_expr_target(*x) {
            Ok(t) => Ok(TargetView::Field(Box::new(t), name@)),
            Err(k) => Err(k),
        },
        _ => Err(LowerErrorView::UnsupportedExpr),
    }
}

/// The widths of the two type operands of a binary operation.
pub open spec fn spec_binary_types(types: Seq<Expr>) -> Result<(nat, nat), LowerErrorView> {
    if types.len() != 2 {
        Err(LowerErrorView::ExpectedBinary)
    } else {
        match spec_lit_usize(types[0], LowerErrorView::ExpectedLitInt) {
            Ok(a) => match spec_lit_usize(types[1], LowerErrorView::ExpectedLitInt) {
                Ok(b) => Ok((a, b)),
                Err(k) => Err(k),
            },
            Err(k) => Err(k),
        }
    }
}

/// Lowering of one expression: pushes exactly one value onto the implicit
/// evaluation stack, with instruction emission as the only state change.
pub open spec fn spec_expr(st: LowerState, e: Expr) -> LowerOutcome
    decreases e, 0int,
{
    match e {
        Expr::Apply { func, types, args } => spec_apply(st, func@, types@, args@),
        Expr::Var(_) | Expr::ArrayIndex { .. } | Expr::Field { .. } => match spec_expr_target(
            e,
        ) {
            Ok(t) => match lookup(st.scope, t) {
                Some(idx) => LowerOutcome::Good(st.emit(Inst::LocalGet { idx })),
                None => LowerOutcome::Fail(st, LowerErrorView::UndefinedRead(t)),
            },
            Err(k) => LowerOutcome::Fail(st, k),
        },
        Expr::Slices { x, slices } => if slices@.len() != 1 {
            LowerOutcome::Fail(st, LowerErrorView::ExpectedUnary)
        } else {
            spec_slice(st, *x, slices@[0])
        },
        _ => LowerOutcome::Fail(st, LowerErrorView::UnsupportedExpr),
    }
}

/// Lowering of an operator application, dispatched on the operation name.
pub open spec fn spec_apply(
    st: LowerState,
    f: Seq<char>,
    types: Seq<Expr>,
    args: Seq<Expr>,
) -> LowerOutcome
    decreases args, 1int,
{
    if f == "add_bits"@ {
        spec_binary(st, Inst::IAdd, args)
    } else if f == "and_bits"@ {
        spec_binary(st, Inst::IAnd, args)
    } else if f == "eor_bits"@ {
        spec_binary(st, Inst::IXor, args)
    } else if f == "rol_bits"@ {
        spec_rol(st, types, args)
    } else {
        LowerOutcome::Fail(st, LowerErrorView::UnsupportedOp(f))
    }
}

/// Lowering of a two-operand operation: both operands in order, then the
/// combining instruction.
pub open spec fn spec_binary(st: LowerState, inst: Inst, args: Seq<Expr>) -> LowerOutcome
    decreases args, 0int,
{
    if args.len() != 2 {
        LowerOutcome::Fail(st, LowerErrorView::ExpectedBinary)
    } else {
        match spec_expr(st, args[0]) {
            LowerOutcome::Good(st1) => match spec_expr(st1, args[1]) {
                LowerOutcome::Good(st2) => LowerOutcome::Good(st2.emit(inst)),
                fail => fail,
            },
            fail => fail,
        }
    }
}

/// Lowering of a left rotation: the rotate amount must be a literal bit
/// pattern, its type no wider than the rotated value's type, and its
/// magnitude below the rotated width; the amount is re-emitted as a
/// constant at the rotated width.
pub open spec fn spec_rol(st: LowerState, types: Seq<Expr>, args: Seq<Expr>) -> LowerOutcome
    decreases args, 0int,
{
    if args.len() != 2 {
        LowerOutcome::Fail(st, LowerErrorView::ExpectedBinary)
    } else {
        match spec_binary_types(types) {
            Ok((xw, sw)) => if sw > xw {
                LowerOutcome::Fail(st, LowerErrorView::ShiftWidth { xw, sw })
            } else {
                match spec_lit_bits(args[1]) {
                    Ok(s) => if s as nat >= xw {
                        LowerOutcome::Fail(st, LowerErrorView::ShiftAmount { s, xw })
                    } else {
                        match spec_expr(st, args[0]) {
                            LowerOutcome::Good(st1) => LowerOutcome::Good(
                                st1.emit(
                                    Inst::IConst {
                                        bits: ir::Bits { width: xw as usize, value: s },
                                    },
                                ).emit(Inst::IRotl),
                            ),
                            fail => fail,
                        }
                    },
                    Err(k) => LowerOutcome::Fail(st, k),
                }
            },
            Err(k) => LowerOutcome::Fail(st, k),
        }
    }
}

/// Lowering of a slice read: both bounds must be literal integers; the
/// sliced expression is lowered, then the extraction is emitted.
pub open spec fn spec_slice(st: LowerState, x: Expr, sl: Slice) -> LowerOutcome
    decreases x, 1int,
{
    match sl {
        Slice::LowWidth(l, w) => match spec_lit_usize(l, LowerErrorView::ExpectedLitInt) {
            Ok(low) => match spec_lit_usize(w, LowerErrorView::ExpectedLitInt) {
                Ok(width) => match spec_expr(st, x) {
                    LowerOutcome::Good(st1) => LowerOutcome::Good(
                        st1.emit(Inst::Extract { low: low as usize, width: width as usize }),
                    ),
                    fail => fail,
                },
                Err(k) => LowerOutcome::Fail(st, k),
            },
            Err(k) => LowerOutcome::Fail(st, k),
        },
    }
}

/// Lowering of one statement.
pub open spec fn spec_stmt(st: LowerState, s: Stmt) -> LowerOutcome {
    match s {
        Stmt::ConstDecl { ty, name, rhs } => match spec_type_width(ty) {
            Ok(w) => {
                let idx = st.next_slot();
                let st1 = st.alloc_local(ir::Type::Int(w as usize)).bind(TargetView::Var(name@), idx);
                match spec_expr(st1, rhs) {
                    LowerOutcome::Good(st2) => LowerOutcome::Good(
                        st2.emit(Inst::LocalSet { idx }),
                    ),
                    fail => fail,
                }
            },
            Err(k) => LowerOutcome::Fail(st, k),
        },
        Stmt::Assign { lhs, rhs } => match spec_lexpr_target(lhs) {
            Ok(t) => match lookup(st.scope, t) {
                Some(idx) => match spec_expr(st, rhs) {
                    LowerOutcome::Good(st2) => LowerOutcome::Good(
                        st2.emit(Inst::LocalSet { idx }),
                    ),
                    fail => fail,
                },
                None => LowerOutcome::Fail(st, LowerErrorView::UndefinedAssign(t)),
            },
            Err(k) => LowerOutcome::Fail(st, k),
        },
        _ => LowerOutcome::Fail(st, LowerErrorView::UnsupportedStmt),
    }
}

/// Lowering of a statement sequence, in order, stopping at the first
/// failing statement.
pub open spec fn spec_block(st: LowerState, stmts: Seq<Stmt>) -> LowerOutcome
    decreases stmts.len(),
{
    if stmts.len() == 0 {
        LowerOutcome::Good(st)
    } else {
        match spec_stmt(st, stmts[0]) {
            LowerOutcome::Good(st1) => spec_block(st1, stmts.drop_first()),
            fail => fail,
        }
    }
}

impl Target {
    /// Convert an assignable-location node into a target. Fails when an
    /// array index is not a literal integer.
    pub fn try_from_lexpr(lexpr: &LExpr) -> (r: Result<Target, LowerError>)
        ensures
            (match spec_lexpr_target(*lexpr) {
                Ok(t) => r matches Ok(tg) && tg@ == t,
                Err(k) => r matches Err(e) && e@ == k,
            }),
        decreases lexpr,
    {
        match lexpr {
            LExpr::Var(v) => Ok(Target::Var(v.clone())),
            LExpr::ArrayIndex { array, index } => {
                let a = match Target::try_from_lexpr(array) {
                    Ok(t) => t,
                    Err(e) => return Err(e),
                };
                let i = match index.as_lit_int() {
                    Some(s) => match parse_dec_usize(s.as_str()) {
                        Some(v) => v,
                        None => return Err(LowerError::BadLiteral),
                    },
                    None => return Err(LowerError::IndexNotLiteral),
                };
                Ok(Target::Index(Box::new(a), i))
            },
            LExpr::Field { x, name } => {
                let t = match Target::try_from_lexpr(x) {
                    Ok(t) => t,
                    Err(e) => return Err(e),
                };
                Ok(Target::Field(Box::new(t), name.clone()))
            },
        }
    }

    /// Convert a readable expression of variable, array-index or field
    /// shape into a target.
    pub fn try_from_expr(expr: &Expr) -> (r: Result<Target, LowerError>)
        ensures
            (match spec_expr_target(*expr) {
                Ok(t) => r matches Ok(tg) && tg@ == t,
                Err(k) => r matches Err(e) && e@ == k,
            }),
        decreases expr,
    {
        match expr {
            Expr::Var(v) => Ok(Target::Var(v.clone())),
            Expr::ArrayIndex { array, index } => {
                let a = match Target::try_from_expr(array) {
                    Ok(t) => t,
                    Err(e) => return Err(e),
                };
                let i = match index.as_lit_int() {
                    Some(s) => match parse_dec_usize(s.as_str()) {
                        Some(v) => v,
                        None => return Err(LowerError::BadLiteral),
                    },
                    None => return Err(LowerError::IndexNotLiteral),
                };
                Ok(Target::Index(Box::new(a), i))
            },
            Expr::Field { x, name } => {
                let t = match Target::try_from_expr(x) {
                    Ok(t) => t,
                    Err(e) => return Err(e),
                };
                Ok(Target::Field(Box::new(t), name.clone()))
            },
            _ => Err(LowerError::UnsupportedExpr),
        }
    }
}

/// The single operand of a one-operand list.
fn expect_unary<T>(xs: &Vec<T>) -> (r: Result<&T, LowerError>)
    ensures
        xs@.len() == 1 ==> (r matches Ok(x) && *x == xs@[0]),
        xs@.len() != 1 ==> (r matches Err(e) && e@ == LowerErrorView::ExpectedUnary),
{
    if xs.len() != 1 {
        Err(LowerError::ExpectedUnary)
    } else {
        Ok(&xs[0])
    }
}

/// The two operands of a two-operand list, in order.
fn expect_binary<T>(xs: &Vec<T>) -> (r: Result<(&T, &T), LowerError>)
    ensures
        xs@.len() == 2 ==> (r matches Ok(p) && *p.0 == xs@[0] && *p.1 == xs@[1]),
        xs@.len() != 2 ==> (r matches Err(e) && e@ == LowerErrorView::ExpectedBinary),
{
    if xs.len() != 2 {
        Err(LowerError::ExpectedBinary)
    } else {
        Ok((&xs[0], &xs[1]))
    }
}

/// The widths named by the two type operands of a binary operation.
fn expect_binary_types(types: &Vec<Expr>) -> (r: Result<(usize, usize), LowerError>)
    ensures
        (match spec_binary_types(types@) {
            Ok(p) => r matches Ok(q) && q.0 == p.0 && q.1 == p.1,
            Err(k) => r matches Err(e) && e@ == k,
        }),
{
    let (t1, t2) = match expect_binary(types) {
        Ok(p) => p,
        Err(e) => return Err(e),
    };
    let a = match expr_lit_int_as_usize(t1) {
        Ok(v) => v,
        Err(e) => return Err(e),
    };
    let b = match expr_lit_int_as_usize(t2) {
        Ok(v) => v,
        Err(e) => return Err(e),
    };
    Ok((a, b))
}

/// The value of an expression required to be a literal integer.
fn expr_lit_int_as_usize(expr: &Expr) -> (r: Result<usize, LowerError>)
    ensures
        (match spec_lit_usize(*expr, LowerErrorView::ExpectedLitInt) {
            Ok(v) => r matches Ok(x) && x == v,
            Err(k) => r matches Err(e) && e@ == k,
        }),
{
    match expr.as_lit_int() {
        Some(s) => match parse_dec_usize(s.as_str()) {
            Some(v) => Ok(v),
            None => Err(LowerError::BadLiteral),
        },
        None => Err(LowerError::ExpectedLitInt),
    }
}

/// The magnitude of an expression required to be a literal bit pattern.
fn expr_lit_bits_as_u128(expr: &Expr) -> (r: Result<u128, LowerError>)
    ensures
        (match spec_lit_bits(*expr) {
            Ok(v) => r matches Ok(x) && x == v,
            Err(k) => r matches Err(e) && e@ == k,
        }),
{
    match expr.as_lit_bits() {
        Some(s) => match parse_bin_u128(s.as_str()) {
            Some(v) => Ok(v),
            None => Err(LowerError::BadLiteral),
        },
        None => Err(LowerError::ExpectedLitBits),
    }
}

/// The width of a declared type as an IR type.
fn resolve_type(ty: &Type) -> (r: Result<ir::Type, LowerError>)
    ensures
        (match spec_type_width(*ty) {
            Ok(w) => r matches Ok(t) && t == ir::Type::Int(w as usize),
            Err(k) => r matches Err(e) && e@ == k,
        }),
{
    match ty {
        Type::Bits(width) => match expr_lit_int_as_usize(width) {
            Ok(w) => Ok(ir::Type::Int(w)),
            Err(e) => Err(e),
        },
        _ => Err(LowerError::UnsupportedType),
    }
}

/// The flat symbol table of one lowering session: a binding list from
/// targets to local slots in which the latest binding of a target wins.
struct Scope {
    target_local: Vec<(Target, LocalIdx)>,
}

impl View for Scope {
    type V = Seq<(TargetView, LocalIdx)>;

    closed spec fn view(&self) -> Seq<(TargetView, LocalIdx)> {
        self.target_local@.map_values(|p: (Target, LocalIdx)| (p.0@, p.1))
    }
}

impl Scope {
    /// An empty symbol table.
    fn new() -> (s: Scope)
        ensures
            s@ == Seq::<(TargetView, LocalIdx)>::empty(),
    {
        let s = Scope { target_local: Vec::new() };
        proof {
            assert(s@ =~= Seq::<(TargetView, LocalIdx)>::empty());
        }
        s
    }

    /// The slot bound to `t`, if any.
    fn get(&self, t: &Target) -> (r: Option<LocalIdx>)
        ensures
            r == lookup(self@, t@),
    {
        let n = self.target_local.len();
        let mut i: usize = n;
        proof {
            assert(self@.take(n as int) =~= self@);
        }
        while i > 0
            invariant
                0 <= i <= n,
                n == self.target_local@.len(),
                lookup(self@, t@) == lookup(self@.take(i as int), t@),
            decreases i,
        {
            i = i - 1;
            let p = &self.target_local[i];
            proof {
                assert(self@[i as int] == (p.0@, p.1));
                assert(self@.take(i + 1).last() == self@[i as int]);
                assert(self@.take(i + 1).drop_last() =~= self@.take(i as int));
            }
            if target_eq(&p.0, t) {
                return Some(p.1);
            }
        }
        None
    }

    /// Bind `t` to `idx`, shadowing any earlier binding of `t`.
    fn set(&mut self, t: Target, idx: LocalIdx)
        ensures
            final(self)@ == old(self)@.push((t@, idx)),
    {
        self.target_local.push((t, idx));
        proof {
            assert(self@ =~= old(self)@.push((t@, idx)));
        }
    }
}

/// `n < 2^n` for every natural `n`.
proof fn lemma_nat_lt_pow2(n: nat)
    ensures
        n < vstd::arithmetic::power2::pow2(n),
    decreases n,
{
    vstd::arithmetic::power2::lemma2_to64();
    if n > 0 {
        lemma_nat_lt_pow2((n - 1) as nat);
        vstd::arithmetic::power2::lemma_pow2_unfold(n);
    }
}

/// One lowering session: the function being built and its symbol table.
/// Its view is the mathematical session state the spec-level lowering
/// functions step over.
pub struct Translator {
    func: ir::Function,
    scope: Scope,
}

impl View for Translator {
    type V = LowerState;

    closed spec fn view(&self) -> LowerState {
        LowerState { locals: self.func.locals@, insts: self.func.insts@, scope: self.scope@ }
    }
}

impl Translator {
    /// A fresh session: empty function, empty symbol table.
    pub fn new() -> (t: Translator)
        ensures
            t@ == LowerState::initial(),
    {
        let t = Translator { func: ir::Function::new(), scope: Scope::new() };
        proof {
            assert(t@ =~= LowerState::initial());
        }
        t
    }

    /// The function built so far.
    pub fn function(&self) -> (f: &ir::Function)
        ensures
            f.locals@ == self@.locals,
            f.insts@ == self@.insts,
    {
        &self.func
    }

    /// Bind one call-site argument: allocate a local of the given type and
    /// record the target as bound to it. Arguments may only be bound while
    /// no instruction has been emitted; later locals would not represent
    /// the instruction's inputs, so a session with emitted code refuses
    /// the call outright.
    pub fn arg(&mut self, ty: ir::Type, target: Target)
        requires
            old(self)@.insts.len() == 0,
        ensures
            final(self)@ == old(self)@.alloc_local(ty).bind(target@, old(self)@.next_slot()),
    {
        let idx = self.func.alloc_local(ty);
        self.scope.set(target, idx);
        proof {
            assert(self@ =~= old(self)@.alloc_local(ty).bind(target@, old(self)@.next_slot()));
        }
    }

    /// Lower a whole statement block, statement by statement, stopping at
    /// the first failure.
    pub fn translate(&mut self, block: &Block) -> (r: Result<(), LowerError>)
        ensures
            (match spec_block(old(self)@, block.stmts@) {
                LowerOutcome::Good(st) => r is Ok && final(self)@ == st,
                LowerOutcome::Fail(st, k) => r matches Err(e) && e@ == k && final(self)@ == st,
            }),
    {
        let n = block.stmts.len();
        let mut i: usize = 0;
        proof {
            assert(block.stmts@.skip(0) =~= block.stmts@);
        }
        while i < n
            invariant
                0 <= i <= n,
                n == block.stmts@.len(),
                spec_block(old(self)@, block.stmts@) == spec_block(
                    self@,
                    block.stmts@.skip(i as int),
                ),
            decreases n - i,
        {
            let ghost pre = self@;
            proof {
                assert(block.stmts@.skip(i as int)[0] == block.stmts@[i as int]);
                assert(block.stmts@.skip(i as int).drop_first() =~= block.stmts@.skip(i + 1));
            }
            match self.stmt(&block.stmts[i]) {
                Ok(()) => {},
                Err(e) => {
                    proof {
                        assert(spec_block(pre, block.stmts@.skip(i as int)) == spec_stmt(
                            pre,
                            block.stmts@[i as int],
                        ));
                    }
                    return Err(e);
                },
            }
            i = i + 1;
        }
        proof {
            assert(block.stmts@.skip(n as int) =~= Seq::<Stmt>::empty());
        }
        Ok(())
    }

    /// Lower one statement.
    fn stmt(&mut self, stmt: &Stmt) -> (r: Result<(), LowerError>)
        ensures
            (match spec_stmt(old(self)@, *stmt) {
                LowerOutcome::Good(st) => r is Ok && final(self)@ == st,
                LowerOutcome::Fail(st, k) => r matches Err(e) && e@ == k && final(self)@ == st,
            }),
        decreases stmt, 2int,
    {
        match stmt {
            Stmt::ConstDecl { ty, name, rhs } => {
                // Allocate a local for the declared constant and bind its
                // name before lowering the initializer.
                let t = match resolve_type(ty) {
                    Ok(t) => t,
                    Err(e) => return Err(e),
                };
                let idx = self.func.alloc_local(t);
                self.scope.set(Target::Var(name.clone()), idx);
                proof {
                    assert(self@ =~= old(self)@.alloc_local(t).bind(
                        TargetView::Var(name@),
                        old(self)@.next_slot(),
                    ));
                }
                match self.expr(rhs) {
                    Ok(()) => {},
                    Err(e) => return Err(e),
                }
                self.emit(Inst::LocalSet { idx });
                Ok(())
            },
            Stmt::Assign { lhs, rhs } => {
                // Look up the slot already bound to the assignment target.
                let target = match Target::try_from_lexpr(lhs) {
                    Ok(t) => t,
                    Err(e) => return Err(e),
                };
                let idx = match self.scope.get(&target) {
                    Some(idx) => idx,
                    None => return Err(LowerError::UndefinedAssign(target)),
                };
                match self.expr(rhs) {
                    Ok(()) => {},
                    Err(e) => return Err(e),
                }
                self.emit(Inst::LocalSet { idx });
                Ok(())
            },
            _ => Err(LowerError::UnsupportedStmt),
        }
    }

    /// Lower one expression: net effect, one value pushed onto the
    /// implicit evaluation stack.
    fn expr(&mut self, expr: &Expr) -> (r: Result<(), LowerError>)
        ensures
            (match spec_expr(old(self)@, *expr) {
                LowerOutcome::Good(st) => r is Ok && final(self)@ == st,
                LowerOutcome::Fail(st, k) => r matches Err(e) && e@ == k && final(self)@ == st,
            }),
        decreases expr, 0int,
    {
        match expr {
            Expr::Apply { func, types, args } => self.apply(func, types, args),
            Expr::Var(_) | Expr::ArrayIndex { .. } | Expr::Field { .. } => {
                let target = match Target::try_from_expr(expr) {
                    Ok(t) => t,
                    Err(e) => return Err(e),
                };
                let idx = match self.scope.get(&target) {
                    Some(idx) => idx,
                    None => return Err(LowerError::UndefinedRead(target)),
                };
                self.emit(Inst::LocalGet { idx });
                Ok(())
            },
            Expr::Slices { x, slices } => {
                let slice = match expect_unary(slices) {
                    Ok(s) => s,
                    Err(e) => return Err(e),
                };
                self.slice(x, slice)
            },
            _ => Err(LowerError::UnsupportedExpr),
        }
    }

    /// Lower an operator application, dispatched on the operation name.
    fn apply(&mut self, func: &String, types: &Vec<Expr>, args: &Vec<Expr>) -> (r: Result<
        (),
        LowerError,
    >)
        ensures
            (match spec_apply(old(self)@, func@, types@, args@) {
                LowerOutcome::Good(st) => r is Ok && final(self)@ == st,
                LowerOutcome::Fail(st, k) => r matches Err(e) && e@ == k && final(self)@ == st,
            }),
        decreases args@, 1int,
    {
        if *func == "add_bits".to_owned() {
            self.binary(Inst::IAdd, args)
        } else if *func == "and_bits".to_owned() {
            self.binary(Inst::IAnd, args)
        } else if *func == "eor_bits".to_owned() {
            self.binary(Inst::IXor, args)
        } else if *func == "rol_bits".to_owned() {
            let (x, s) = match expect_binary(args) {
                Ok(p) => p,
                Err(e) => return Err(e),
            };

            // The source may declare a shift-amount bit width smaller than
            // the width of the value being rotated, but never larger.
            let (xw, sw) = match expect_binary_types(types) {
                Ok(p) => p,
                Err(e) => return Err(e),
            };
            if sw > xw {
                return Err(LowerError::ShiftWidth { xw, sw });
            }

            // The shift amount must be a literal, below the operand width.
            let sv = match expr_lit_bits_as_u128(s) {
                Ok(v) => v,
                Err(e) => return Err(e),
            };
            if sv >= xw as u128 {
                return Err(LowerError::ShiftAmount { s: sv, xw });
            }

            // Emit the rotation: the value, the amount at the value's
            // width, then the rotate instruction.
            match self.expr(x) {
                Ok(()) => {},
                Err(e) => return Err(e),
            }
            proof {
                lemma_nat_lt_pow2(xw as nat);
            }
            let bits = ir::Bits::new(xw, sv).unwrap();
            self.emit(Inst::IConst { bits });
            self.emit(Inst::IRotl);
            Ok(())
        } else {
            Err(LowerError::UnsupportedOp(func.clone()))
        }
    }

    /// Lower a two-operand operation: both operands, then the combiner.
    fn binary(&mut self, inst: Inst, args: &Vec<Expr>) -> (r: Result<(), LowerError>)
        ensures
            (match spec_binary(old(self)@, inst, args@) {
                LowerOutcome::Good(st) => r is Ok && final(self)@ == st,
                LowerOutcome::Fail(st, k) => r matches Err(e) && e@ == k && final(self)@ == st,
            }),
        decreases args@, 0int,
    {
        let (x, y) = match expect_binary(args) {
            Ok(p) => p,
            Err(e) => return Err(e),
        };
        match self.expr(x) {
            Ok(()) => {},
            Err(e) => return Err(e),
        }
        match self.expr(y) {
            Ok(()) => {},
            Err(e) => return Err(e),
        }
        self.emit(inst);
        Ok(())
    }

    /// Lower a slice read with literal bounds.
    fn slice(&mut self, x: &Expr, slice: &Slice) -> (r: Result<(), LowerError>)
        ensures
            (match spec_slice(old(self)@, *x, *slice) {
                LowerOutcome::Good(st) => r is Ok && final(self)@ == st,
                LowerOutcome::Fail(st, k) => r matches Err(e) && e@ == k && final(self)@ == st,
            }),
        decreases x, 1int,
    {
        match slice {
            Slice::LowWidth(l, w) => {
                let low = match expr_lit_int_as_usize(l) {
                    Ok(v) => v,
                    Err(e) => return Err(e),
                };
                let width = match expr_lit_int_as_usize(w) {
                    Ok(v) => v,
                    Err(e) => return Err(e),
                };
                match self.expr(x) {
                    Ok(()) => {},
                    Err(e) => return Err(e),
                }
                self.emit(Inst::Extract { low, width });
                Ok(())
            },
        }
    }

    /// Append one instruction to the function body.
    fn emit(&mut self, inst: Inst)
        ensures
            final(self)@ == old(self)@.emit(inst),
    {
        self.func.insts.push(inst);
        proof {
            assert(self@ =~= old(self)@.emit(inst));
        }
    }
}

} // verus!
