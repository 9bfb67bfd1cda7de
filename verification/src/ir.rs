//! The target representation: local slots, value types, bit-vector
//! literals, the closed instruction vocabulary, and the `Function`
//! container for one straight-line program.

use vstd::arithmetic::power2::pow2;
use vstd::arithmetic::power2::lemma_pow2_strictly_increases;
use vstd::arithmetic::power2::lemma_pow2_pos;
use vstd::arithmetic::div_mod::lemma_basic_div;
use vstd::arithmetic::div_mod::lemma_small_div_converse;
use vstd::bits::lemma_u128_shr_is_div;
use vstd::prelude::*;

verus! {

/// Index of one declared local within a `Function`: assigned in declaration
/// order and never reused or rebound once handed out.
#[derive(Copy, Clone, Debug, PartialEq, Eq, Structural)]
pub struct LocalIdx(pub usize);

impl LocalIdx {
    /// The numeric position of the local in its function's declaration order.
    pub fn index(&self) -> (i: usize)
        ensures
            i == self.0,
    {
        self.0
    }
}

/// Type of a value: a fixed-width integer/bit-vector, parameterized by its
/// bit width.
#[derive(Copy, Clone, Debug, PartialEq, Eq, Structural)]
pub enum Type {
    Int(usize),
}

/// A bit-vector literal: an unsigned `value` together with the bit `width`
/// it is to be read at. A well-formed literal satisfies `value < 2^width`;
/// `Bits::new` is the checked constructor that establishes it.
#[derive(Copy, Clone, Debug, PartialEq, Eq, Structural)]
pub struct Bits {
    pub width: usize,
    pub value: u128,
}

/// Whether `value` fits within `width` bits.
pub open spec fn bits_fit(width: nat, value: u128) -> bool {
    (value as nat) < pow2(width)
}

impl Bits {
    /// Well-formedness: the value fits within the declared width.
    pub open spec fn wf(self) -> bool {
        bits_fit(self.width as nat, self.value)
    }

    /// Checked construction: succeeds exactly when `value < 2^width`, and
    /// then carries `width` and `value` through unchanged.
    pub fn new(width: usize, value: u128) -> (r: Option<Bits>)
        ensures
            bits_fit(width as nat, value) ==> r == Some(Bits { width, value }),
            !bits_fit(width as nat, value) ==> r is None,
            r matches Some(b) ==> b.wf(),
    {
        if width >= 128 {
            proof {
                lemma_u128_lt_pow2_128(value);
                if width > 128 {
                    lemma_pow2_strictly_increases(128, width as nat);
                }
            }
            Some(Bits { width, value })
        } else {
            let sh: u128 = value >> (width as u128);
            proof {
                lemma_u128_shr_is_div(value, width as u128);
                lemma_pow2_pos(width as nat);
                if sh == 0 {
                    lemma_small_div_converse(value as int, pow2(width as nat) as int);
                } else {
                    if (value as nat) < pow2(width as nat) {
                        lemma_basic_div(value as int, pow2(width as nat) as int);
                    }
                }
            }
            if sh == 0 {
                Some(Bits { width, value })
            } else {
                None
            }
        }
    }
}

/// Every `u128` value fits within 128 bits.
proof fn lemma_u128_lt_pow2_128(value: u128)
    ensures
        (value as nat) < pow2(128),
{
    vstd::arithmetic::power2::lemma2_to64();
    vstd::arithmetic::power2::lemma_pow2_adds(64, 64);
    assert(pow2(128) == 0x10000000000000000 * 0x10000000000000000);
}

/// One instruction of the closed vocabulary. The program is a straight-line
/// sequence over an implicit evaluation stack: no control flow, calls or
/// branches exist.
#[derive(Copy, Clone, Debug, PartialEq, Eq, Structural)]
pub enum Inst {
    /// Push the current value of a local.
    LocalGet { idx: LocalIdx },
    /// Pop the top value and store it into a local.
    LocalSet { idx: LocalIdx },
    /// Push a literal bit-vector value.
    IConst { bits: Bits },
    /// Pop two values, push their sum at the shared width.
    IAdd,
    /// Pop two values, push their bitwise and.
    IAnd,
    /// Pop two values, push their bitwise exclusive or.
    IXor,
    /// Pop a value and a rotate amount, push the left-rotated value.
    IRotl,
    /// Pop one value, push its `width`-bit slice starting at bit `low`.
    Extract { low: usize, width: usize },
}

/// One function under construction: the ordered local declarations (indexed
/// by `LocalIdx`) and the ordered instruction body.
#[derive(Debug)]
pub struct Function {
    pub locals: Vec<Type>,
    pub insts: Vec<Inst>,
}

impl Function {
    /// An empty function: no locals, no instructions.
    pub fn new() -> (f: Function)
        ensures
            f.locals@ == Seq::<Type>::empty(),
            f.insts@ == Seq::<Inst>::empty(),
    {
        Function { locals: Vec::new(), insts: Vec::new() }
    }

    /// Allocate a fresh local of the given type. The returned slot is the
    /// local count at the time of the call, so slots are handed out as
    /// 0, 1, 2, ... in declaration order and are never reused.
    pub fn alloc_local(&mut self, ty: Type) -> (idx: LocalIdx)
        ensures
            idx.0 == old(self).locals@.len(),
            final(self).locals@ == old(self).locals@.push(ty),
            final(self).insts@ == old(self).insts@,
    {
        let idx = LocalIdx(self.locals.len());
        self.locals.push(ty);
        idx
    }
}

/// The slots returned by a run of `count` allocations on a function that
/// holds `n0` locals when the run starts: by `alloc_local`'s contract each
/// allocation returns the current local count and grows it by one.
pub open spec fn allocation_slots(n0: nat, count: nat) -> Seq<nat> {
    Seq::new(count, |i: int| (n0 + i) as nat)
}

/// Slot uniqueness: in any run of allocations on one function the returned
/// slots are pairwise distinct, and a run starting from an empty function
/// returns exactly the allocation order 0, 1, 2, ....
pub proof fn lemma_slot_uniqueness(n0: nat, count: nat, i: int, j: int)
    requires
        0 <= i < count,
        0 <= j < count,
        i != j,
    ensures
        allocation_slots(n0, count)[i] != allocation_slots(n0, count)[j],
        allocation_slots(0, count)[i] == i,
{
}

} // verus!
