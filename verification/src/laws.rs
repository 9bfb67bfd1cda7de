//! Laws of the lowering engine, stated over the spec-level lowering
//! functions and proved once and for all: what expression lowering may
//! touch, when reads and assignments of unbound locations fail, what a
//! constant declaration allocates, binds and emits, and how rotations and
//! slices are validated and lowered.

use crate::ast::Expr;
use crate::ast::Slice;
use crate::ast::Stmt;
use crate::ast::Type;
use crate::ir;
use crate::ir::Inst;
use crate::translate::lookup;
use crate::translate::spec_binary_types;
use crate::translate::spec_block;
use crate::translate::spec_expr;
use crate::translate::spec_expr_target;
use crate::translate::spec_lexpr_target;
use crate::translate::spec_lit_bits;
use crate::translate::spec_lit_usize;
use crate::translate::spec_slice;
use crate::translate::spec_stmt;
use crate::translate::spec_type_width;
use crate::translate::spec_apply;
use crate::translate::spec_binary;
use crate::translate::LowerErrorView;
use crate::translate::LowerOutcome;
use crate::translate::LowerState;
use crate::translate::TargetView;
use crate::ast::LExpr;
use vstd::prelude::*;

verus! {

/// `post` extends `pre` by emitted instructions alone: the declared locals
/// and the symbol table are untouched, and every instruction of `pre`
/// stands unchanged at its position in `post`.
pub open spec fn extends_insts_only(pre: LowerState, post: LowerState) -> bool {
    &&& post.locals == pre.locals
    &&& post.scope == pre.scope
    &&& pre.insts.len() <= post.insts.len()
    &&& forall|i: int| 0 <= i < pre.insts.len() ==> post.insts[i] == pre.insts[i]
}

/// The state a lowering outcome leaves behind.
pub open spec fn outcome_state(out: LowerOutcome) -> LowerState {
    match out {
        LowerOutcome::Good(st) => st,
        LowerOutcome::Fail(st, _) => st,
    }
}

/// Expression lowering only emits: whatever the outcome, it never
/// allocates a local and never changes the symbol table, and it leaves
/// every already-emitted instruction in place.
pub proof fn lemma_expr_emits_only(st: LowerState, e: Expr)
    ensures
        extends_insts_only(st, outcome_state(spec_expr(st, e))),
    decreases e, 0int,
{
    match e {
        Expr::Apply { func, types, args } => {
            lemma_apply_emits_only(st, func@, types@, args@);
        },
        Expr::Slices { x, slices } => {
            if slices@.len() == 1 {
                lemma_slice_emits_only(st, *x, slices@[0]);
            }
        },
        _ => {},
    }
}

/// Operator-application lowering only emits.
pub proof fn lemma_apply_emits_only(st: LowerState, f: Seq<char>, types: Seq<Expr>, args: Seq<Expr>)
    ensures
        extends_insts_only(st, outcome_state(spec_apply(st, f, types, args))),
    decreases args, 1int,
{
    if f == "add_bits"@ {
        lemma_binary_emits_only(st, Inst::IAdd, args);
    } else if f == "and_bits"@ {
        lemma_binary_emits_only(st, Inst::IAnd, args);
    } else if f == "eor_bits"@ {
        lemma_binary_emits_only(st, Inst::IXor, args);
    } else if f == "rol_bits"@ {
        if args.len() == 2 {
            lemma_expr_emits_only(st, args[0]);
        }
    }
}

/// Two-operand lowering only emits.
pub proof fn lemma_binary_emits_only(st: LowerState, inst: Inst, args: Seq<Expr>)
    ensures
        extends_insts_only(st, outcome_state(spec_binary(st, inst, args))),
    decreases args, 0int,
{
    if args.len() == 2 {
        lemma_expr_emits_only(st, args[0]);
        match spec_expr(st, args[0]) {
            LowerOutcome::Good(st1) => lemma_expr_emits_only(st1, args[1]),
            LowerOutcome::Fail(_, _) => {},
        }
    }
}

/// Slice lowering only emits.
pub proof fn lemma_slice_emits_only(st: LowerState, x: Expr, sl: Slice)
    ensures
        extends_insts_only(st, outcome_state(spec_slice(st, x, sl))),
    decreases x, 1int,
{
    lemma_expr_emits_only(st, x);
}

/// The net effect of one instruction on the implicit evaluation stack.
pub open spec fn stack_effect(inst: Inst) -> int {
    match inst {
        Inst::LocalGet { .. } => 1,
        Inst::LocalSet { .. } => -1,
        Inst::IConst { .. } => 1,
        Inst::IAdd => -1,
        Inst::IAnd => -1,
        Inst::IXor => -1,
        Inst::IRotl => -1,
        Inst::Extract { .. } => 0,
    }
}

/// The net effect of an instruction sequence on the evaluation stack.
pub open spec fn stack_effect_seq(s: Seq<Inst>) -> int
    decreases s.len(),
{
    if s.len() == 0 {
        0
    } else {
        stack_effect_seq(s.drop_last()) + stack_effect(s.last())
    }
}

/// Appending one instruction adds its effect.
proof fn lemma_effect_push(s: Seq<Inst>, inst: Inst)
    ensures
        stack_effect_seq(s.push(inst)) == stack_effect_seq(s) + stack_effect(inst),
{
    assert(s.push(inst).drop_last() =~= s);
}

/// Expression lowering pushes exactly one value: the instructions a
/// successful expression lowering appends have a net evaluation-stack
/// effect of one.
pub proof fn lemma_expr_pushes_one(st: LowerState, e: Expr)
    ensures
        (match spec_expr(st, e) {
            LowerOutcome::Good(st1) => stack_effect_seq(st1.insts) == stack_effect_seq(st.insts)
                + 1,
            LowerOutcome::Fail(_, _) => true,
        }),
    decreases e, 0int,
{
    match e {
        Expr::Apply { func, types, args } => {
            lemma_apply_pushes_one(st, func@, types@, args@);
        },
        Expr::Var(_) | Expr::ArrayIndex { .. } | Expr::Field { .. } => {
            match spec_expr_target(e) {
                Ok(t) => match lookup(st.scope, t) {
                    Some(idx) => lemma_effect_push(st.insts, Inst::LocalGet { idx }),
                    None => {},
                },
                Err(_) => {},
            }
        },
        Expr::Slices { x, slices } => {
            if slices@.len() == 1 {
                lemma_slice_pushes_one(st, *x, slices@[0]);
            }
        },
        _ => {},
    }
}

/// Operator-application lowering pushes exactly one value.
pub proof fn lemma_apply_pushes_one(st: LowerState, f: Seq<char>, types: Seq<Expr>, args: Seq<Expr>)
    ensures
        (match spec_apply(st, f, types, args) {
            LowerOutcome::Good(st1) => stack_effect_seq(st1.insts) == stack_effect_seq(st.insts)
                + 1,
            LowerOutcome::Fail(_, _) => true,
        }),
    decreases args, 1int,
{
    if f == "add_bits"@ {
        lemma_binary_pushes_one(st, Inst::IAdd, args);
    } else if f == "and_bits"@ {
        lemma_binary_pushes_one(st, Inst::IAnd, args);
    } else if f == "eor_bits"@ {
        lemma_binary_pushes_one(st, Inst::IXor, args);
    } else if f == "rol_bits"@ {
        if args.len() == 2 {
            match spec_binary_types(types) {
                Ok((xw, sw)) => if sw <= xw {
                    match spec_lit_bits(args[1]) {
                        Ok(s) => if (s as nat) < xw {
                            lemma_expr_pushes_one(st, args[0]);
                            match spec_expr(st, args[0]) {
                                LowerOutcome::Good(st1) => {
                                    let c = Inst::IConst {
                                        bits: ir::Bits { width: xw as usize, value: s },
                                    };
                                    lemma_effect_push(st1.insts, c);
                                    lemma_effect_push(st1.insts.push(c), Inst::IRotl);
                                },
                                LowerOutcome::Fail(_, _) => {},
                            }
                        },
                        Err(_) => {},
                    }
                },
                Err(_) => {},
            }
        }
    }
}

/// Two-operand lowering pushes exactly one value: each operand pushes one
/// and the combiner pops two and pushes one.
pub proof fn lemma_binary_pushes_one(st: LowerState, inst: Inst, args: Seq<Expr>)
    requires
        stack_effect(inst) == -1,
    ensures
        (match spec_binary(st, inst, args) {
            LowerOutcome::Good(st1) => stack_effect_seq(st1.insts) == stack_effect_seq(st.insts)
                + 1,
            LowerOutcome::Fail(_, _) => true,
        }),
    decreases args, 0int,
{
    if args.len() == 2 {
        lemma_expr_pushes_one(st, args[0]);
        match spec_expr(st, args[0]) {
            LowerOutcome::Good(st1) => {
                lemma_expr_pushes_one(st1, args[1]);
                match spec_expr(st1, args[1]) {
                    LowerOutcome::Good(st2) => lemma_effect_push(st2.insts, inst),
                    LowerOutcome::Fail(_, _) => {},
                }
            },
            LowerOutcome::Fail(_, _) => {},
        }
    }
}

/// Slice lowering pushes exactly one value.
pub proof fn lemma_slice_pushes_one(st: LowerState, x: Expr, sl: Slice)
    ensures
        (match spec_slice(st, x, sl) {
            LowerOutcome::Good(st1) => stack_effect_seq(st1.insts) == stack_effect_seq(st.insts)
                + 1,
            LowerOutcome::Fail(_, _) => true,
        }),
    decreases x, 1int,
{
    match sl {
        Slice::LowWidth(l, w) => {
            match (
                spec_lit_usize(l, LowerErrorView::ExpectedLitInt),
                spec_lit_usize(w, LowerErrorView::ExpectedLitInt),
            ) {
                (Ok(low), Ok(wd)) => {
                    lemma_expr_pushes_one(st, x);
                    match spec_expr(st, x) {
                        LowerOutcome::Good(st1) => lemma_effect_push(
                            st1.insts,
                            Inst::Extract { low: low as usize, width: wd as usize },
                        ),
                        LowerOutcome::Fail(_, _) => {},
                    }
                },
                _ => {},
            }
        },
    }
}

/// Statement lowering is stack neutral: a successful statement appends
/// instructions whose net evaluation-stack effect is zero, so the body
/// stays balanced statement by statement.
pub proof fn lemma_stmt_stack_neutral(st: LowerState, s: Stmt)
    ensures
        (match spec_stmt(st, s) {
            LowerOutcome::Good(st1) => stack_effect_seq(st1.insts) == stack_effect_seq(st.insts),
            LowerOutcome::Fail(_, _) => true,
        }),
{
    match s {
        Stmt::ConstDecl { ty, name, rhs } => {
            match spec_type_width(ty) {
                Ok(w) => {
                    let idx = st.next_slot();
                    let st1 = st.alloc_local(ir::Type::Int(w as usize)).bind(
                        TargetView::Var(name@),
                        idx,
                    );
                    lemma_expr_pushes_one(st1, rhs);
                    match spec_expr(st1, rhs) {
                        LowerOutcome::Good(st2) => lemma_effect_push(
                            st2.insts,
                            Inst::LocalSet { idx },
                        ),
                        LowerOutcome::Fail(_, _) => {},
                    }
                },
                Err(_) => {},
            }
        },
        Stmt::Assign { lhs, rhs } => {
            match spec_lexpr_target(lhs) {
                Ok(t) => match lookup(st.scope, t) {
                    Some(idx) => {
                        lemma_expr_pushes_one(st, rhs);
                        match spec_expr(st, rhs) {
                            LowerOutcome::Good(st2) => lemma_effect_push(
                                st2.insts,
                                Inst::LocalSet { idx },
                            ),
                            LowerOutcome::Fail(_, _) => {},
                        }
                    },
                    None => {},
                },
                Err(_) => {},
            }
        },
        _ => {},
    }
}

/// Block lowering is stack neutral: a successfully lowered statement block
/// appends instructions whose net evaluation-stack effect is zero.
pub proof fn lemma_block_stack_neutral(st: LowerState, stmts: Seq<Stmt>)
    ensures
        (match spec_block(st, stmts) {
            LowerOutcome::Good(st1) => stack_effect_seq(st1.insts) == stack_effect_seq(st.insts),
            LowerOutcome::Fail(_, _) => true,
        }),
    decreases stmts.len(),
{
    if stmts.len() > 0 {
        lemma_stmt_stack_neutral(st, stmts[0]);
        match spec_stmt(st, stmts[0]) {
            LowerOutcome::Good(st1) => lemma_block_stack_neutral(st1, stmts.drop_first()),
            LowerOutcome::Fail(_, _) => {},
        }
    }
}

/// Undefined read: lowering a read of a location that resolves to a target
/// with no binding in scope fails with the undefined-read error carrying
/// that target, and leaves the session state unchanged.
pub proof fn lemma_undefined_read(st: LowerState, e: Expr)
    requires
        (match spec_expr_target(e) {
            Ok(t) => lookup(st.scope, t) is None,
            Err(_) => false,
        }),
    ensures
        (match spec_expr_target(e) {
            Ok(t) => spec_expr(st, e) == LowerOutcome::Fail(
                st,
                LowerErrorView::UndefinedRead(t),
            ),
            Err(_) => true,
        }),
{
}

/// Undefined assignment: lowering an assignment whose left-hand side
/// resolves to a target with no binding in scope fails with the
/// undefined-assignment error carrying that target, and leaves the
/// session state unchanged.
pub proof fn lemma_undefined_assignment(st: LowerState, lhs: LExpr, rhs: Expr)
    requires
        (match spec_lexpr_target(lhs) {
            Ok(t) => lookup(st.scope, t) is None,
            Err(_) => false,
        }),
    ensures
        (match spec_lexpr_target(lhs) {
            Ok(t) => spec_stmt(st, Stmt::Assign { lhs, rhs }) == LowerOutcome::Fail(
                st,
                LowerErrorView::UndefinedAssign(t),
            ),
            Err(_) => true,
        }),
{
}

/// Constant declaration: a declaration whose type resolves to width `w`
/// and whose initializer lowers successfully allocates exactly one new
/// local of width `w`, binds the declared name to the fresh slot as the
/// latest binding, and emits the initializer's instructions followed by a
/// `LocalSet` of that slot; a read of the name in the resulting state
/// emits exactly a `LocalGet` of it.
pub proof fn lemma_const_decl_binding(st: LowerState, ty: Type, name: String, rhs: Expr)
    ensures
        (match spec_type_width(ty) {
            Ok(w) => {
                let idx = st.next_slot();
                let st1 = st.alloc_local(ir::Type::Int(w as usize)).bind(
                    TargetView::Var(name@),
                    idx,
                );
                match spec_expr(st1, rhs) {
                    LowerOutcome::Good(st2) => {
                        let done = st2.emit(Inst::LocalSet { idx });
                        &&& spec_stmt(st, Stmt::ConstDecl { ty, name, rhs })
                            == LowerOutcome::Good(done)
                        &&& done.locals == st.locals.push(ir::Type::Int(w as usize))
                        &&& done.scope == st.scope.push((TargetView::Var(name@), idx))
                        &&& lookup(done.scope, TargetView::Var(name@)) == Some(idx)
                        &&& spec_expr(done, Expr::Var(name)) == LowerOutcome::Good(
                            done.emit(Inst::LocalGet { idx }),
                        )
                    },
                    LowerOutcome::Fail(_, _) => true,
                }
            },
            Err(_) => true,
        }),
{
    match spec_type_width(ty) {
        Ok(w) => {
            let idx = st.next_slot();
            let st1 = st.alloc_local(ir::Type::Int(w as usize)).bind(
                TargetView::Var(name@),
                idx,
            );
            lemma_expr_emits_only(st1, rhs);
        },
        Err(_) => {},
    }
}

/// Rotate validation: with two operands and agreeing literal widths, a
/// literal rotate amount of magnitude at least the rotated width is
/// rejected with the out-of-range error; a magnitude below the width
/// lowers the rotated operand and then emits the amount as a constant at
/// the rotated width followed by the rotate instruction. A rotate whose
/// declared amount width exceeds the rotated width is rejected outright.
pub proof fn lemma_rotate_validation(st: LowerState, types: Seq<Expr>, args: Seq<Expr>)
    ensures
        (match spec_binary_types(types) {
            Ok((xw, sw)) => args.len() == 2 ==> {
                &&& sw > xw ==> spec_apply(st, "rol_bits"@, types, args) == LowerOutcome::Fail(
                    st,
                    LowerErrorView::ShiftWidth { xw, sw },
                )
                &&& sw <= xw ==> (match spec_lit_bits(args[1]) {
                    Ok(s) => {
                        &&& (s as nat) >= xw ==> spec_apply(st, "rol_bits"@, types, args)
                            == LowerOutcome::Fail(st, LowerErrorView::ShiftAmount { s, xw })
                        &&& (s as nat) < xw ==> (match spec_expr(st, args[0]) {
                            LowerOutcome::Good(st1) => spec_apply(st, "rol_bits"@, types, args)
                                == LowerOutcome::Good(
                                st1.emit(
                                    Inst::IConst {
                                        bits: ir::Bits { width: xw as usize, value: s },
                                    },
                                ).emit(Inst::IRotl),
                            ),
                            LowerOutcome::Fail(_, _) => true,
                        })
                    },
                    Err(_) => true,
                })
            },
            Err(_) => true,
        }),
{
    reveal_strlit("add_bits");
    reveal_strlit("and_bits");
    reveal_strlit("eor_bits");
    reveal_strlit("rol_bits");
    assert(("rol_bits"@)[0] != ("add_bits"@)[0]);
    assert(("rol_bits"@)[0] != ("and_bits"@)[0]);
    assert(("rol_bits"@)[0] != ("eor_bits"@)[0]);
}

/// Slice lowering: a slice read with a single clause and literal bounds
/// lowers the sliced expression and then emits the extraction with those
/// bounds; in particular, slicing a bound location emits a `LocalGet` of
/// its slot followed by the extraction.
pub proof fn lemma_slice_lowering(st: LowerState, e: Expr)
    ensures
        (match e {
            Expr::Slices { x, slices } => if slices@.len() == 1 {
                match slices@[0] {
                    Slice::LowWidth(l, w) => match (
                        spec_lit_usize(l, LowerErrorView::ExpectedLitInt),
                        spec_lit_usize(w, LowerErrorView::ExpectedLitInt),
                    ) {
                        (Ok(low), Ok(wd)) => (match spec_expr(st, *x) {
                            LowerOutcome::Good(st1) => spec_expr(st, e) == LowerOutcome::Good(
                                st1.emit(
                                    Inst::Extract {
                                        low: low as usize,
                                        width: wd as usize,
                                    },
                                ),
                            ),
                            LowerOutcome::Fail(st1, k) => spec_expr(st, e)
                                == LowerOutcome::Fail(st1, k),
                        }),
                        _ => true,
                    },
                }
            } else {
                spec_expr(st, e) == LowerOutcome::Fail(st, LowerErrorView::ExpectedUnary)
            },
            _ => true,
        }),
{
}

} // verus!
