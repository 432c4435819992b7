//! Register programs: the driver logic of this crate is expressed as
//! sequences of register operations on the MK20DX memory map. Executing
//! a program (volatile stores, read-modify-writes and status polls) is
//! the job of the platform layer; computing it is the job of the drivers.

use vstd::prelude::*;

verus! {

/// Access width of a memory-mapped register.
#[derive(Clone, Copy, Debug, PartialEq, Eq, Structural)]
pub enum Width {
    W8,
    W16,
    W32,
}

/// One step of a register programming sequence.
#[derive(Clone, Copy, Debug, PartialEq, Eq, Structural)]
pub enum RegOp {
    /// Store `value` to the register at `addr`.
    Write { addr: u32, width: Width, value: u32 },
    /// Read the register, clear the bits of `clear`, set the bits of `set`,
    /// and store the result back.
    Modify { addr: u32, width: Width, clear: u32, set: u32 },
    /// Poll the register until `(register & mask) == value`.
    WaitUntil { addr: u32, width: Width, mask: u32, value: u32 },
    /// Read the register and discard the value (for reads with side effects).
    Read { addr: u32, width: Width },
}

/// The value a read-modify-write stores, given the value it read.
pub open spec fn masked_update(old: u32, clear: u32, set: u32) -> u32 {
    (old & !clear) | set
}

/// Whether bit `i` of `v` is set.
pub open spec fn bit(v: u32, i: u32) -> bool {
    v & (1u32 << i) != 0
}

/// The `width`-bit field of `v` that starts at bit `shift`.
pub open spec fn field(v: u32, shift: u32, mask: u32) -> u32 {
    (v >> shift) & mask
}

impl RegOp {
    /// The register an operation touches.
    pub open spec fn target(self) -> u32 {
        match self {
            RegOp::Write { addr, .. } => addr,
            RegOp::Modify { addr, .. } => addr,
            RegOp::WaitUntil { addr, .. } => addr,
            RegOp::Read { addr, .. } => addr,
        }
    }

    /// The value the register holds after this operation, read as plain
    /// storage, given the value it held before.
    pub open spec fn effect(self, old: u32) -> u32 {
        match self {
            RegOp::Write { value, .. } => value,
            RegOp::Modify { clear, set, .. } => masked_update(old, clear, set),
            RegOp::WaitUntil { .. } => old,
            RegOp::Read { .. } => old,
        }
    }
}

/// The value of register `addr` after running `ops` from the value `init`,
/// read as plain storage.
pub open spec fn reg_after(ops: Seq<RegOp>, addr: u32, init: u32) -> u32
    decreases ops.len(),
{
    if ops.len() == 0 {
        init
    } else {
        let prev = reg_after(ops.drop_last(), addr, init);
        if ops.last().target() == addr {
            ops.last().effect(prev)
        } else {
            prev
        }
    }
}

/// A one-step program that stores `value`.
pub fn write_op(addr: u32, width: Width, value: u32) -> (r: Vec<RegOp>)
    ensures
        r@ == seq![RegOp::Write { addr, width, value }],
{
    let mut ops: Vec<RegOp> = Vec::new();
    ops.push(RegOp::Write { addr, width, value });
    ops
}

/// A one-step program that clears the bits of `clear` and sets those of `set`.
pub fn modify_op(addr: u32, width: Width, clear: u32, set: u32) -> (r: Vec<RegOp>)
    ensures
        r@ == seq![RegOp::Modify { addr, width, clear, set }],
{
    let mut ops: Vec<RegOp> = Vec::new();
    ops.push(RegOp::Modify { addr, width, clear, set });
    ops
}

/// Setting a bit with a read-modify-write leaves it set.
pub proof fn lemma_modify_sets_bit(old: u32, i: u32)
    requires
        i < 32,
    ensures
        bit(masked_update(old, 1u32 << i, 1u32 << i), i),
        bit(masked_update(old, 0, 1u32 << i), i),
{
    assert(((old & !(1u32 << i)) | (1u32 << i)) & (1u32 << i) != 0) by (bit_vector)
        requires
            i < 32,
    ;
    assert(((old & !0u32) | (1u32 << i)) & (1u32 << i) != 0) by (bit_vector)
        requires
            i < 32,
    ;
}

/// Clearing a bit with a read-modify-write leaves it clear.
pub proof fn lemma_modify_clears_bit(old: u32, i: u32)
    requires
        i < 32,
    ensures
        !bit(masked_update(old, 1u32 << i, 0), i),
{
    assert(((old & !(1u32 << i)) | 0u32) & (1u32 << i) == 0) by (bit_vector)
        requires
            i < 32,
    ;
}

/// Writing a field with a read-modify-write stores exactly that field value.
pub proof fn lemma_modify_sets_field(old: u32, shift: u32, mask: u32, val: u32)
    requires
        shift < 32,
        val & mask == val,
        (mask << shift) >> shift == mask,
    ensures
        field(masked_update(old, mask << shift, val << shift), shift, mask) == val,
{
    assert((((old & !(mask << shift)) | (val << shift)) >> shift) & mask == val) by (bit_vector)
        requires
            shift < 32,
            val & mask == val,
            (mask << shift) >> shift == mask,
    ;
}

/// A read-modify-write of one bit leaves that bit equal to the value written.
pub proof fn lemma_update_bit(old: u32, i: u32, b: bool)
    requires
        i < 32,
    ensures
        bit(masked_update(old, 1u32 << i, if b { 1u32 << i } else { 0 }), i) == b,
{
    if b {
        lemma_modify_sets_bit(old, i);
    } else {
        lemma_modify_clears_bit(old, i);
    }
}

/// A read-modify-write that sets bit `i` and writes `s` (either nothing or
/// bit `j`) into bit `j` leaves bit `i` set and bit `j` set exactly when `s` is.
pub proof fn lemma_update_two_bits(old: u32, i: u32, j: u32, s: u32)
    requires
        i < 32,
        j < 32,
        i != j,
        s == 0 || s == 1u32 << j,
    ensures
        bit(masked_update(old, (1u32 << i) | (1u32 << j), (1u32 << i) | s), i),
        bit(masked_update(old, (1u32 << i) | (1u32 << j), (1u32 << i) | s), j) == (s != 0),
        (1u32 << j) != 0,
{
    assert(((old & !((1u32 << i) | (1u32 << j))) | ((1u32 << i) | s)) & (1u32 << i) != 0
        && ((((old & !((1u32 << i) | (1u32 << j))) | ((1u32 << i) | s)) & (1u32 << j) != 0) == (s != 0))
        && (1u32 << j) != 0)
        by (bit_vector)
        requires
            i < 32,
            j < 32,
            i != j,
            s == 0 || s == 1u32 << j,
    ;
}

/// The value of a register after a one-step program that targets it.
pub proof fn lemma_reg_after_single(op: RegOp, init: u32)
    ensures
        reg_after(seq![op], op.target(), init) == op.effect(init),
{
    reveal_with_fuel(reg_after, 2);
    assert(seq![op].drop_last() =~= Seq::<RegOp>::empty());
}

} // verus!
