use hwwasm::ir::{Bits, Function, Inst, LocalIdx, Type};
use hwwasm::lit::{parse_bin_u128, parse_dec_usize};

#[test]
fn slots_are_allocation_order() {
    let mut f = Function::new();
    let a = f.alloc_local(Type::Int(128));
    let b = f.alloc_local(Type::Int(32));
    let c = f.alloc_local(Type::Int(8));
    assert_eq!(a, LocalIdx(0));
    assert_eq!(b, LocalIdx(1));
    assert_eq!(c, LocalIdx(2));
    assert!(a != b && b != c && a != c);
    assert_eq!(f.locals.len(), 3);
    assert_eq!(f.locals[0], Type::Int(128));
    assert_eq!(f.locals[1], Type::Int(32));
    assert_eq!(f.locals[2], Type::Int(8));
    assert_eq!(f.insts.len(), 0);
    assert_eq!(c.index(), 2);
}

#[test]
fn bits_in_range_round_trip() {
    let b = Bits::new(8, 255).unwrap();
    assert_eq!(b.width, 8);
    assert_eq!(b.value, 255);
    let b = Bits::new(4, 3).unwrap();
    assert_eq!(b.width, 4);
    assert_eq!(b.value, 3);
    let b = Bits::new(0, 0).unwrap();
    assert_eq!(b.width, 0);
    assert_eq!(b.value, 0);
    let b = Bits::new(128, u128::MAX).unwrap();
    assert_eq!(b.width, 128);
    assert_eq!(b.value, u128::MAX);
    let b = Bits::new(200, u128::MAX).unwrap();
    assert_eq!(b.width, 200);
}

#[test]
fn bits_out_of_range_rejected() {
    assert!(Bits::new(8, 256).is_none());
    assert!(Bits::new(0, 1).is_none());
    assert!(Bits::new(1, 2).is_none());
    assert!(Bits::new(127, u128::MAX).is_none());
    assert!(Bits::new(8, 255).is_some());
    assert!(Bits::new(1, 1).is_some());
}

#[test]
fn empty_function_is_empty() {
    let f = Function::new();
    assert!(f.locals.is_empty());
    assert!(f.insts.is_empty());
}

#[test]
fn decimal_literals_parse() {
    assert_eq!(parse_dec_usize("0"), Some(0));
    assert_eq!(parse_dec_usize("8"), Some(8));
    assert_eq!(parse_dec_usize("123"), Some(123));
    assert_eq!(parse_dec_usize("007"), Some(7));
    assert_eq!(parse_dec_usize(""), None);
    assert_eq!(parse_dec_usize("12a"), None);
    assert_eq!(parse_dec_usize("-1"), None);
    assert_eq!(parse_dec_usize(" 1"), None);
    assert_eq!(parse_dec_usize("99999999999999999999999999999999"), None);
}

#[test]
fn binary_literals_parse() {
    assert_eq!(parse_bin_u128("0"), Some(0));
    assert_eq!(parse_bin_u128("1"), Some(1));
    assert_eq!(parse_bin_u128("1000"), Some(8));
    assert_eq!(parse_bin_u128("0011"), Some(3));
    assert_eq!(parse_bin_u128(""), None);
    assert_eq!(parse_bin_u128("102"), None);
    assert_eq!(parse_bin_u128("2"), None);
    let ones = "1".repeat(128);
    assert_eq!(parse_bin_u128(&ones), Some(u128::MAX));
    let over = "1".repeat(129);
    assert_eq!(parse_bin_u128(&over), None);
}

#[test]
fn instructions_compare_structurally() {
    let b = Bits::new(8, 3).unwrap();
    assert_eq!(Inst::IConst { bits: b }, Inst::IConst { bits: Bits::new(8, 3).unwrap() });
    assert!(Inst::IAdd != Inst::IAnd);
    assert_eq!(
        Inst::Extract { low: 4, width: 4 },
        Inst::Extract { low: 4, width: 4 }
    );
}
