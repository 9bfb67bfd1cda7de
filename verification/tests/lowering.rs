use hwwasm::ast::{Block, Expr, LExpr, Slice, Stmt, Type};
use hwwasm::ir;
use hwwasm::ir::{Bits, Inst, LocalIdx};
use hwwasm::translate::{LowerError, Target, Translator};

fn var(name: &str) -> Expr {
    Expr::Var(name.to_string())
}

fn lit_int(text: &str) -> Expr {
    Expr::LitInt(text.to_string())
}

fn lit_bits(text: &str) -> Expr {
    Expr::LitBits(text.to_string())
}

fn bits_ty(width: &str) -> Type {
    Type::Bits(lit_int(width))
}

fn const_decl(name: &str, width: &str, rhs: Expr) -> Stmt {
    Stmt::ConstDecl { ty: bits_ty(width), name: name.to_string(), rhs }
}

fn apply(func: &str, types: Vec<Expr>, args: Vec<Expr>) -> Expr {
    Expr::Apply { func: func.to_string(), types, args }
}

fn block(stmts: Vec<Stmt>) -> Block {
    Block { stmts }
}

#[test]
fn undefined_read_is_reported() {
    let mut t = Translator::new();
    let r = t.translate(&block(vec![const_decl("x", "8", var("y"))]));
    assert!(matches!(r, Err(LowerError::UndefinedRead(Target::Var(n))) if n == "y"));
}

#[test]
fn undefined_assignment_is_reported() {
    let mut t = Translator::new();
    let stmt = Stmt::Assign { lhs: LExpr::Var("z".to_string()), rhs: var("z") };
    let r = t.translate(&block(vec![stmt]));
    assert!(matches!(r, Err(LowerError::UndefinedAssign(Target::Var(n))) if n == "z"));
}

#[test]
fn const_decl_allocates_binds_and_emits() {
    let mut t = Translator::new();
    t.arg(ir::Type::Int(8), Target::Var("a".to_string()));
    let r = t.translate(&block(vec![const_decl("x", "8", var("a"))]));
    assert!(r.is_ok());
    let f = t.function();
    assert_eq!(f.locals, vec![ir::Type::Int(8), ir::Type::Int(8)]);
    assert_eq!(
        f.insts,
        vec![Inst::LocalGet { idx: LocalIdx(0) }, Inst::LocalSet { idx: LocalIdx(1) }]
    );

    // A subsequent read of the declared name resolves to the new slot.
    let r = t.translate(&block(vec![Stmt::Assign {
        lhs: LExpr::Var("x".to_string()),
        rhs: var("x"),
    }]));
    assert!(r.is_ok());
    let f = t.function();
    assert_eq!(f.insts[2], Inst::LocalGet { idx: LocalIdx(1) });
    assert_eq!(f.insts[3], Inst::LocalSet { idx: LocalIdx(1) });
}

#[test]
fn later_declaration_shadows_earlier() {
    let mut t = Translator::new();
    t.arg(ir::Type::Int(8), Target::Var("a".to_string()));
    let r = t.translate(&block(vec![
        const_decl("x", "8", var("a")),
        const_decl("x", "4", var("a")),
        Stmt::Assign { lhs: LExpr::Var("x".to_string()), rhs: var("a") },
    ]));
    assert!(r.is_ok());
    let f = t.function();
    assert_eq!(f.locals, vec![ir::Type::Int(8), ir::Type::Int(8), ir::Type::Int(4)]);
    // The assignment targets the latest binding of `x`: slot 2.
    assert_eq!(f.insts[4], Inst::LocalGet { idx: LocalIdx(0) });
    assert_eq!(f.insts[5], Inst::LocalSet { idx: LocalIdx(2) });
}

#[test]
fn rotate_amount_out_of_range_fails() {
    let mut t = Translator::new();
    t.arg(ir::Type::Int(8), Target::Var("a".to_string()));
    let rhs = apply(
        "rol_bits",
        vec![lit_int("8"), lit_int("8")],
        vec![var("a"), lit_bits("1000")],
    );
    let r = t.translate(&block(vec![const_decl("x", "8", rhs)]));
    assert!(matches!(r, Err(LowerError::ShiftAmount { s: 8, xw: 8 })));
}

#[test]
fn rotate_in_range_emits_constant_and_rotl() {
    let mut t = Translator::new();
    t.arg(ir::Type::Int(8), Target::Var("a".to_string()));
    let rhs = apply(
        "rol_bits",
        vec![lit_int("8"), lit_int("8")],
        vec![var("a"), lit_bits("0011")],
    );
    let r = t.translate(&block(vec![const_decl("x", "8", rhs)]));
    assert!(r.is_ok());
    let f = t.function();
    assert_eq!(
        f.insts,
        vec![
            Inst::LocalGet { idx: LocalIdx(0) },
            Inst::IConst { bits: Bits::new(8, 3).unwrap() },
            Inst::IRotl,
            Inst::LocalSet { idx: LocalIdx(1) },
        ]
    );
}

#[test]
fn rotate_amount_wider_than_value_fails() {
    let mut t = Translator::new();
    t.arg(ir::Type::Int(8), Target::Var("a".to_string()));
    let rhs = apply(
        "rol_bits",
        vec![lit_int("8"), lit_int("9")],
        vec![var("a"), lit_bits("0011")],
    );
    let r = t.translate(&block(vec![const_decl("x", "8", rhs)]));
    assert!(matches!(r, Err(LowerError::ShiftWidth { xw: 8, sw: 9 })));
}

#[test]
fn slice_emits_local_get_and_extract() {
    let mut t = Translator::new();
    t.arg(ir::Type::Int(128), Target::Var("q".to_string()));
    t.arg(ir::Type::Int(32), Target::Var("s".to_string()));
    t.arg(ir::Type::Int(8), Target::Var("x".to_string()));
    let rhs = Expr::Slices {
        x: Box::new(var("x")),
        slices: vec![Slice::LowWidth(lit_int("4"), lit_int("4"))],
    };
    let r = t.translate(&block(vec![const_decl("y", "4", rhs)]));
    assert!(r.is_ok());
    let f = t.function();
    assert_eq!(f.insts[0], Inst::LocalGet { idx: LocalIdx(2) });
    assert_eq!(f.insts[1], Inst::Extract { low: 4, width: 4 });
    assert_eq!(f.insts[2], Inst::LocalSet { idx: LocalIdx(3) });
}

#[test]
fn multiple_slice_clauses_fail() {
    let mut t = Translator::new();
    t.arg(ir::Type::Int(8), Target::Var("x".to_string()));
    let rhs = Expr::Slices {
        x: Box::new(var("x")),
        slices: vec![
            Slice::LowWidth(lit_int("0"), lit_int("4")),
            Slice::LowWidth(lit_int("4"), lit_int("4")),
        ],
    };
    let r = t.translate(&block(vec![const_decl("y", "8", rhs)]));
    assert!(matches!(r, Err(LowerError::ExpectedUnary)));
}

#[test]
fn argument_binding_before_emission() {
    let mut t = Translator::new();
    let z = Target::Var("_Z".to_string());
    t.arg(ir::Type::Int(128), Target::Index(Box::new(z.clone()), 5));
    t.arg(ir::Type::Int(32), Target::Index(Box::new(z.clone()), 6));
    t.arg(ir::Type::Int(128), Target::Index(Box::new(z.clone()), 1));
    let f = t.function();
    assert_eq!(f.locals, vec![ir::Type::Int(128), ir::Type::Int(32), ir::Type::Int(128)]);
    assert_eq!(f.insts.len(), 0);

    // An array read with a literal index resolves to the bound slot.
    let rhs = Expr::ArrayIndex { array: Box::new(var("_Z")), index: Box::new(lit_int("6")) };
    let r = t.translate(&block(vec![const_decl("e", "32", rhs)]));
    assert!(r.is_ok());
    let f = t.function();
    assert_eq!(f.insts[0], Inst::LocalGet { idx: LocalIdx(1) });
    assert_eq!(f.insts[1], Inst::LocalSet { idx: LocalIdx(3) });
}

#[test]
fn field_targets_resolve() {
    let mut t = Translator::new();
    let base = Target::Var("r".to_string());
    t.arg(ir::Type::Int(8), Target::Field(Box::new(base), "lo".to_string()));
    let rhs = Expr::Field { x: Box::new(var("r")), name: "lo".to_string() };
    let r = t.translate(&block(vec![const_decl("c", "8", rhs)]));
    assert!(r.is_ok());
    assert_eq!(t.function().insts[0], Inst::LocalGet { idx: LocalIdx(0) });
}

#[test]
fn binary_operations_emit_operands_then_combiner() {
    for (name, inst) in [
        ("add_bits", Inst::IAdd),
        ("and_bits", Inst::IAnd),
        ("eor_bits", Inst::IXor),
    ] {
        let mut t = Translator::new();
        t.arg(ir::Type::Int(8), Target::Var("a".to_string()));
        t.arg(ir::Type::Int(8), Target::Var("b".to_string()));
        let rhs = apply(name, vec![lit_int("8"), lit_int("8")], vec![var("a"), var("b")]);
        let r = t.translate(&block(vec![const_decl("x", "8", rhs)]));
        assert!(r.is_ok());
        let f = t.function();
        assert_eq!(
            f.insts,
            vec![
                Inst::LocalGet { idx: LocalIdx(0) },
                Inst::LocalGet { idx: LocalIdx(1) },
                inst,
                Inst::LocalSet { idx: LocalIdx(2) },
            ]
        );
    }
}

#[test]
fn wrong_operand_count_fails() {
    let mut t = Translator::new();
    t.arg(ir::Type::Int(8), Target::Var("a".to_string()));
    let rhs = apply("add_bits", vec![lit_int("8"), lit_int("8")], vec![var("a")]);
    let r = t.translate(&block(vec![const_decl("x", "8", rhs)]));
    assert!(matches!(r, Err(LowerError::ExpectedBinary)));
}

#[test]
fn unsupported_operation_fails() {
    let mut t = Translator::new();
    t.arg(ir::Type::Int(8), Target::Var("a".to_string()));
    let rhs = apply("mul_bits", vec![lit_int("8")], vec![var("a"), var("a")]);
    let r = t.translate(&block(vec![const_decl("x", "8", rhs)]));
    assert!(matches!(r, Err(LowerError::UnsupportedOp(f)) if f == "mul_bits"));
}

#[test]
fn unsupported_statement_fails() {
    let mut t = Translator::new();
    let r = t.translate(&block(vec![Stmt::Assert { cond: var("a") }]));
    assert!(matches!(r, Err(LowerError::UnsupportedStmt)));
}

#[test]
fn bare_literal_expression_fails() {
    let mut t = Translator::new();
    let r = t.translate(&block(vec![const_decl("x", "8", lit_int("5"))]));
    assert!(matches!(r, Err(LowerError::UnsupportedExpr)));
}

#[test]
fn unsupported_type_fails() {
    let mut t = Translator::new();
    let stmt = Stmt::ConstDecl { ty: Type::Integer, name: "x".to_string(), rhs: var("a") };
    let r = t.translate(&block(vec![stmt]));
    assert!(matches!(r, Err(LowerError::UnsupportedType)));
}

#[test]
fn non_literal_array_index_fails() {
    let mut t = Translator::new();
    let lhs = LExpr::ArrayIndex {
        array: Box::new(LExpr::Var("a".to_string())),
        index: Box::new(var("i")),
    };
    let r = t.translate(&block(vec![Stmt::Assign { lhs, rhs: var("a") }]));
    assert!(matches!(r, Err(LowerError::IndexNotLiteral)));
}

#[test]
fn malformed_literal_fails() {
    let mut t = Translator::new();
    let r = t.translate(&block(vec![Stmt::ConstDecl {
        ty: Type::Bits(lit_int("12a")),
        name: "x".to_string(),
        rhs: var("a"),
    }]));
    assert!(matches!(r, Err(LowerError::BadLiteral)));
}

#[test]
fn non_literal_width_fails() {
    let mut t = Translator::new();
    let r = t.translate(&block(vec![Stmt::ConstDecl {
        ty: Type::Bits(var("w")),
        name: "x".to_string(),
        rhs: var("a"),
    }]));
    assert!(matches!(r, Err(LowerError::ExpectedLitInt)));
}

#[test]
fn non_literal_rotate_amount_fails() {
    let mut t = Translator::new();
    t.arg(ir::Type::Int(8), Target::Var("a".to_string()));
    t.arg(ir::Type::Int(8), Target::Var("s".to_string()));
    let rhs = apply(
        "rol_bits",
        vec![lit_int("8"), lit_int("8")],
        vec![var("a"), var("s")],
    );
    let r = t.translate(&block(vec![const_decl("x", "8", rhs)]));
    assert!(matches!(r, Err(LowerError::ExpectedLitBits)));
}

#[test]
fn first_error_stops_the_walk() {
    let mut t = Translator::new();
    t.arg(ir::Type::Int(8), Target::Var("a".to_string()));
    let r = t.translate(&block(vec![
        const_decl("x", "8", var("a")),
        const_decl("y", "8", var("nope")),
        const_decl("z", "8", var("a")),
    ]));
    assert!(matches!(r, Err(LowerError::UndefinedRead(_))));
    let f = t.function();
    // The first statement's code stands; the failing one allocated and
    // bound its local but emitted nothing further; the third never ran.
    assert_eq!(f.insts.len(), 2);
    assert_eq!(f.locals.len(), 3);
}

#[test]
fn targets_compare_structurally() {
    let z1 = Target::Index(Box::new(Target::Var("_Z".to_string())), 5);
    let z2 = Target::Index(Box::new(Target::Var("_Z".to_string())), 5);
    let z3 = Target::Index(Box::new(Target::Var("_Z".to_string())), 6);
    assert!(z1 == z2);
    assert!(z1 != z3);
    assert!(z1 != Target::Var("_Z".to_string()));
    let f1 = Target::Field(Box::new(z1.clone()), "hi".to_string());
    let f2 = Target::Field(Box::new(z2), "hi".to_string());
    assert!(f1 == f2);
    assert_eq!(f1.clone(), f1);
}

#[test]
fn empty_block_translates_to_nothing() {
    let mut t = Translator::new();
    let r = t.translate(&block(vec![]));
    assert!(r.is_ok());
    assert!(t.function().insts.is_empty());
    assert!(t.function().locals.is_empty());
}
