//! The instruction word layout, in one place: field accessors for the 32-bit
//! word (bit 0 is least significant), sign extension for the immediate
//! widths the layout produces, and a narrow unsigned integer built from
//! explicit bits.
//!
//! Layout: `condition` in bits 0..=4, `itype` in bits 5..=6, the opcode in
//! bits 7..=9 (memory and control) or 7..=12 (ALU), then 5-bit register
//! operands; when an instruction takes an immediate, the final operand
//! widens to consume the rest of the word.

use vstd::prelude::*;
use vstd::arithmetic::power2::pow2;
use vstd::arithmetic::power2::lemma2_to64;

verus! {

/// Condition code field, bits 0..=4.
pub open spec fn spec_condition(w: u32) -> u32 {
    w % 0x20
}

/// Instruction type field, bits 5..=6.
pub open spec fn spec_itype(w: u32) -> u32 {
    (w / 0x20) % 4
}

/// Three-bit opcode field, bits 7..=9 (memory and control instructions).
pub open spec fn spec_opcode3(w: u32) -> u32 {
    (w / 0x80) % 8
}

/// Six-bit opcode field, bits 7..=12 (ALU instructions).
pub open spec fn spec_opcode6(w: u32) -> u32 {
    (w / 0x80) % 0x40
}

/// Five-bit register operand at bit 10 (first operand after a 3-bit opcode).
pub open spec fn spec_reg_at_10(w: u32) -> u32 {
    (w / 0x400) % 0x20
}

/// Five-bit register operand at bit 15.
pub open spec fn spec_reg_at_15(w: u32) -> u32 {
    (w / 0x8000) % 0x20
}

/// Five-bit register operand at bit 13 (first operand after a 6-bit opcode).
pub open spec fn spec_reg_at_13(w: u32) -> u32 {
    (w / 0x2000) % 0x20
}

/// Five-bit register operand at bit 18.
pub open spec fn spec_reg_at_18(w: u32) -> u32 {
    (w / 0x40000) % 0x20
}

/// Five-bit register operand at bit 23.
pub open spec fn spec_reg_at_23(w: u32) -> u32 {
    (w / 0x800000) % 0x20
}

/// Widened immediate operand, bits 15..=31 (17 bits; memory instructions).
pub open spec fn spec_imm_at_15(w: u32) -> u32 {
    w / 0x8000
}

/// Widened immediate operand, bits 23..=31 (9 bits; three-operand ALU).
pub open spec fn spec_imm_at_23(w: u32) -> u32 {
    w / 0x800000
}

/// Widened immediate operand, bits 18..=31 (14 bits; shifts).
pub open spec fn spec_imm_at_18(w: u32) -> u32 {
    w / 0x40000
}

/// Widened immediate operand, bits 10..=31 (22 bits; control instructions).
pub open spec fn spec_imm_at_10(w: u32) -> u32 {
    w / 0x400
}

/// The signed value a 32-bit word denotes in two's complement.
pub open spec fn to_signed(v: u32) -> int {
    if v < 0x8000_0000 {
        v as int
    } else {
        v - 0x1_0000_0000
    }
}

/// Sign extension of a field of `width` bits to a full 32-bit word, in
/// two's complement.
pub open spec fn spec_sign_extend(v: u32, width: nat) -> u32
    recommends
        0 < width <= 32,
        v < pow2(width),
{
    if v < pow2((width - 1) as nat) {
        v
    } else {
        (v + 0x1_0000_0000 - pow2(width)) as u32
    }
}

/// Condition code field, bits 0..=4.
pub fn condition(w: u32) -> (r: u32)
    ensures
        r == spec_condition(w),
{
    w % 0x20
}

/// Instruction type field, bits 5..=6.
pub fn itype(w: u32) -> (r: u32)
    ensures
        r == spec_itype(w),
{
    (w / 0x20) % 4
}

/// Three-bit opcode field, bits 7..=9.
pub fn opcode3(w: u32) -> (r: u32)
    ensures
        r == spec_opcode3(w),
{
    (w / 0x80) % 8
}

/// Six-bit opcode field, bits 7..=12.
pub fn opcode6(w: u32) -> (r: u32)
    ensures
        r == spec_opcode6(w),
{
    (w / 0x80) % 0x40
}

/// Five-bit register operand at bit 10.
pub fn reg_at_10(w: u32) -> (r: u32)
    ensures
        r == spec_reg_at_10(w),
        r < 0x20,
{
    (w / 0x400) % 0x20
}

/// Five-bit register operand at bit 13.
pub fn reg_at_13(w: u32) -> (r: u32)
    ensures
        r == spec_reg_at_13(w),
        r < 0x20,
{
    (w / 0x2000) % 0x20
}

/// Five-bit register operand at bit 15.
pub fn reg_at_15(w: u32) -> (r: u32)
    ensures
        r == spec_reg_at_15(w),
        r < 0x20,
{
    (w / 0x8000) % 0x20
}

/// Five-bit register operand at bit 18.
pub fn reg_at_18(w: u32) -> (r: u32)
    ensures
        r == spec_reg_at_18(w),
        r < 0x20,
{
    (w / 0x40000) % 0x20
}

/// Five-bit register operand at bit 23.
pub fn reg_at_23(w: u32) -> (r: u32)
    ensures
        r == spec_reg_at_23(w),
        r < 0x20,
{
    (w / 0x800000) % 0x20
}

/// Widened immediate operand, bits 15..=31.
pub fn imm_at_15(w: u32) -> (r: u32)
    ensures
        r == spec_imm_at_15(w),
        r < 0x2_0000,
{
    w / 0x8000
}

/// Widened immediate operand, bits 23..=31.
pub fn imm_at_23(w: u32) -> (r: u32)
    ensures
        r == spec_imm_at_23(w),
        r < 0x200,
{
    w / 0x800000
}

/// Widened immediate operand, bits 18..=31.
pub fn imm_at_18(w: u32) -> (r: u32)
    ensures
        r == spec_imm_at_18(w),
        r < 0x4000,
{
    w / 0x40000
}

/// Widened immediate operand, bits 10..=31.
pub fn imm_at_10(w: u32) -> (r: u32)
    ensures
        r == spec_imm_at_10(w),
        r < 0x40_0000,
{
    w / 0x400
}

/// Sign extension of a 17-bit field.
pub fn sign_extend_17(v: u32) -> (r: u32)
    requires
        v < 0x2_0000,
    ensures
        r == spec_sign_extend(v, 17),
{
    proof {
        lemma2_to64();
    }
    if v < 0x1_0000 {
        v
    } else {
        v + 0xFFFE_0000
    }
}

/// Sign extension of a 9-bit field.
pub fn sign_extend_9(v: u32) -> (r: u32)
    requires
        v < 0x200,
    ensures
        r == spec_sign_extend(v, 9),
{
    proof {
        lemma2_to64();
    }
    if v < 0x100 {
        v
    } else {
        v + 0xFFFF_FE00
    }
}

/// Sign extension of a 22-bit field.
pub fn sign_extend_22(v: u32) -> (r: u32)
    requires
        v < 0x40_0000,
    ensures
        r == spec_sign_extend(v, 22),
{
    proof {
        lemma2_to64();
    }
    if v < 0x20_0000 {
        v
    } else {
        v + 0xFFC0_0000
    }
}


/// A word assembled as `hi * k + lo` splits back into those parts.
proof fn lemma_split(w: int, k: int, hi: int, lo: int)
    requires
        0 < k,
        0 <= hi,
        0 <= lo < k,
        w == hi * k + lo,
    ensures
        w % k == lo,
        w / k == hi,
{
    vstd::arithmetic::div_mod::lemma_fundamental_div_mod_converse_mod(w, k, hi, lo);
    vstd::arithmetic::div_mod::lemma_fundamental_div_mod_converse_div(w, k, hi, lo);
}

/// Packs an unconditional ALU word: type 1, a 6-bit opcode, and three
/// 5-bit operands, the third doubling as a small immediate. The field
/// accessors read every part back.
pub fn encode_alu(opcode: u32, r1: u32, r2: u32, r3: u32) -> (w: u32)
    requires
        opcode < 0x40,
        r1 < 0x20,
        r2 < 0x20,
        r3 < 0x20,
    ensures
        spec_condition(w) == 0,
        spec_itype(w) == 1,
        spec_opcode6(w) == opcode,
        spec_reg_at_13(w) == r1,
        spec_reg_at_18(w) == r2,
        spec_reg_at_23(w) == r3,
        spec_imm_at_23(w) == r3,
{
    let w = 0x20 + opcode * 0x80 + r1 * 0x2000 + r2 * 0x4_0000 + r3 * 0x80_0000;
    proof {
        lemma_split(
            w as int,
            0x20,
            1 + opcode * 4 + r1 * 0x100 + r2 * 0x2000 + r3 * 0x4_0000,
            0,
        );
        lemma_split(
            1 + opcode * 4 + r1 * 0x100 + r2 * 0x2000 + r3 * 0x4_0000,
            4,
            opcode + r1 * 0x40 + r2 * 0x800 + r3 * 0x1_0000,
            1,
        );
        lemma_split(
            w as int,
            0x80,
            opcode + r1 * 0x40 + r2 * 0x800 + r3 * 0x1_0000,
            0x20,
        );
        lemma_split(
            opcode + r1 * 0x40 + r2 * 0x800 + r3 * 0x1_0000,
            0x40,
            r1 + r2 * 0x20 + r3 * 0x400,
            opcode as int,
        );
        lemma_split(
            w as int,
            0x2000,
            r1 + r2 * 0x20 + r3 * 0x400,
            0x20 + opcode * 0x80,
        );
        lemma_split(r1 + r2 * 0x20 + r3 * 0x400, 0x20, r2 + r3 * 0x20, r1 as int);
        lemma_split(
            w as int,
            0x4_0000,
            r2 + r3 * 0x20,
            0x20 + opcode * 0x80 + r1 * 0x2000,
        );
        lemma_split(r2 + r3 * 0x20, 0x20, r3 as int, r2 as int);
        lemma_split(
            w as int,
            0x80_0000,
            r3 as int,
            0x20 + opcode * 0x80 + r1 * 0x2000 + r2 * 0x4_0000,
        );
        vstd::arithmetic::div_mod::lemma_small_mod(r3 as nat, 0x20);
    }
    w
}

/// Packs a memory word with two register operands: type 2, a 3-bit
/// opcode, and 5-bit operands at bits 10 and 15.
pub fn encode_mem(opcode: u32, r1: u32, r2: u32) -> (w: u32)
    requires
        opcode < 8,
        r1 < 0x20,
        r2 < 0x20,
    ensures
        spec_condition(w) == 0,
        spec_itype(w) == 2,
        spec_opcode3(w) == opcode,
        spec_reg_at_10(w) == r1,
        spec_reg_at_15(w) == r2,
        spec_imm_at_15(w) == r2,
{
    let w = 0x40 + opcode * 0x80 + r1 * 0x400 + r2 * 0x8000;
    proof {
        lemma_split(w as int, 0x20, 2 + opcode * 4 + r1 * 0x20 + r2 * 0x400, 0);
        lemma_split(2 + opcode * 4 + r1 * 0x20 + r2 * 0x400, 4, opcode + r1 * 8 + r2 * 0x100, 2);
        lemma_split(w as int, 0x80, opcode + r1 * 8 + r2 * 0x100, 0x40);
        lemma_split(opcode + r1 * 8 + r2 * 0x100, 8, r1 + r2 * 0x20, opcode as int);
        lemma_split(w as int, 0x400, r1 + r2 * 0x20, 0x40 + opcode * 0x80);
        lemma_split(r1 + r2 * 0x20, 0x20, r2 as int, r1 as int);
        lemma_split(w as int, 0x8000, r2 as int, 0x40 + opcode * 0x80 + r1 * 0x400);
        vstd::arithmetic::div_mod::lemma_small_mod(r2 as nat, 0x20);
    }
    w
}

/// Packs a memory word whose second operand is a 17-bit immediate.
pub fn encode_mem_imm(opcode: u32, r1: u32, imm: u32) -> (w: u32)
    requires
        opcode < 8,
        r1 < 0x20,
        imm < 0x2_0000,
    ensures
        spec_condition(w) == 0,
        spec_itype(w) == 2,
        spec_opcode3(w) == opcode,
        spec_reg_at_10(w) == r1,
        spec_imm_at_15(w) == imm,
{
    let w = 0x40 + opcode * 0x80 + r1 * 0x400 + imm * 0x8000;
    proof {
        lemma_split(w as int, 0x20, 2 + opcode * 4 + r1 * 0x20 + imm * 0x400, 0);
        lemma_split(2 + opcode * 4 + r1 * 0x20 + imm * 0x400, 4, opcode + r1 * 8 + imm * 0x100, 2);
        lemma_split(w as int, 0x80, opcode + r1 * 8 + imm * 0x100, 0x40);
        lemma_split(opcode + r1 * 8 + imm * 0x100, 8, r1 + imm * 0x20, opcode as int);
        lemma_split(w as int, 0x400, r1 + imm * 0x20, 0x40 + opcode * 0x80);
        lemma_split(r1 + imm * 0x20, 0x20, imm as int, r1 as int);
        lemma_split(w as int, 0x8000, imm as int, 0x40 + opcode * 0x80 + r1 * 0x400);
    }
    w
}

/// Packs a control word with one register operand: a condition, type 0, a
/// 3-bit opcode and a 5-bit operand at bit 10.
pub fn encode_control(cond: u32, opcode: u32, r1: u32) -> (w: u32)
    requires
        cond < 0x20,
        opcode < 8,
        r1 < 0x20,
    ensures
        spec_condition(w) == cond,
        spec_itype(w) == 0,
        spec_opcode3(w) == opcode,
        spec_reg_at_10(w) == r1,
{
    let w = cond + opcode * 0x80 + r1 * 0x400;
    proof {
        lemma_split(w as int, 0x20, opcode * 4 + r1 * 0x20, cond as int);
        lemma_split(opcode * 4 + r1 * 0x20, 4, opcode + r1 * 8, 0);
        lemma_split(w as int, 0x80, opcode + r1 * 8, cond as int);
        lemma_split(opcode + r1 * 8, 8, r1 as int, opcode as int);
        lemma_split(w as int, 0x400, r1 as int, cond + opcode * 0x80);
        vstd::arithmetic::div_mod::lemma_small_mod(r1 as nat, 0x20);
    }
    w
}

/// Packs a control word whose operand is a 22-bit immediate.
pub fn encode_control_imm(cond: u32, opcode: u32, imm: u32) -> (w: u32)
    requires
        cond < 0x20,
        opcode < 8,
        imm < 0x40_0000,
    ensures
        spec_condition(w) == cond,
        spec_itype(w) == 0,
        spec_opcode3(w) == opcode,
        spec_imm_at_10(w) == imm,
{
    let w = cond + opcode * 0x80 + imm * 0x400;
    proof {
        lemma_split(w as int, 0x20, opcode * 4 + imm * 0x20, cond as int);
        lemma_split(opcode * 4 + imm * 0x20, 4, opcode + imm * 8, 0);
        lemma_split(w as int, 0x80, opcode + imm * 8, cond as int);
        lemma_split(opcode + imm * 8, 8, imm as int, opcode as int);
        lemma_split(w as int, 0x400, imm as int, cond + opcode * 0x80);
    }
    w
}

/// The unsigned value a bit sequence denotes, least significant bit first.
pub open spec fn bits_value(bits: Seq<bool>) -> nat
    decreases bits.len(),
{
    if bits.len() == 0 {
        0
    } else {
        (if bits[0] {
            1nat
        } else {
            0nat
        }) + 2 * bits_value(bits.skip(1))
    }
}

/// An unsigned integer narrower than a machine word, held as explicit bits.
/// The low `size` bits of the packed value are kept, least significant
/// first; the rest are ignored.
#[derive(Debug, Clone, PartialEq, Eq)]
pub struct SmallUInt {
    /// Width in bits.
    pub size: usize,
    /// The bits, least significant first; always exactly `size` of them.
    pub bits: Vec<bool>,
}

impl SmallUInt {
    /// A `SmallUInt` holds exactly `size` bits and denotes their value.
    pub open spec fn wf(&self) -> bool {
        &&& self.size <= 8
        &&& self.bits@.len() == self.size
    }

    /// Packs the low `size` bits of `value`, least significant first.
    pub fn new(size: usize, value: u8) -> (r: SmallUInt)
        requires
            size <= 8,
        ensures
            r.wf(),
            r.size == size,
            bits_value(r.bits@) == value as nat % pow2(size as nat),
            forall|i: int|
                0 <= i < size ==> r.bits@[i] == ((value as nat / pow2(i as nat)) % 2 == 1),
    {
        proof {
            lemma2_to64();
        }
        let mut bits: Vec<bool> = Vec::new();
        let mut v: u8 = value;
        let mut i: usize = 0;
        while i < size
            invariant
                size <= 8,
                i <= size,
                bits@.len() == i,
                v as nat == value as nat / pow2(i as nat),
                bits_value(bits@) + pow2(i as nat) * (v as nat) == value as nat,
                forall|j: int|
                    0 <= j < i ==> bits@[j] == ((value as nat / pow2(j as nat)) % 2 == 1),
            decreases size - i,
        {
            let b = v % 2 == 1;
            proof {
                lemma_bits_value_push(bits@, b, v as nat, i as nat, value as nat);
                vstd::arithmetic::power2::lemma_pow2_pos(i as nat);
                vstd::arithmetic::power2::lemma_pow2_unfold((i + 1) as nat);
                vstd::arithmetic::div_mod::lemma_div_denominator(
                    value as int,
                    pow2(i as nat) as int,
                    2,
                );
            }
            bits.push(b);
            v = v / 2;
            i += 1;
        }
        proof {
            vstd::arithmetic::power2::lemma_pow2_pos(size as nat);
            vstd::arithmetic::div_mod::lemma_fundamental_div_mod(
                value as int,
                pow2(size as nat) as int,
            );
        }
        SmallUInt { size, bits }
    }

    /// The packed value back: the unsigned number the bits denote.
    pub fn as_u8(&self) -> (r: u8)
        requires
            self.wf(),
        ensures
            r as nat == bits_value(self.bits@),
    {
        let ghost all = self.bits@;
        let mut r: u8 = 0;
        let mut i: usize = self.bits.len();
        proof {
            assert(all.skip(i as int) =~= Seq::<bool>::empty());
        }
        while i > 0
            invariant
                self.wf(),
                all == self.bits@,
                i <= all.len(),
                r as nat == bits_value(all.skip(i as int)),
            decreases i,
        {
            i -= 1;
            proof {
                lemma_bits_value_bound(all.skip(i as int));
                lemma_pow2_le_256((all.len() - i) as nat);
                assert(all.skip(i as int).skip(1) =~= all.skip(i + 1));
                assert(all.skip(i as int)[0] == all[i as int]);
            }
            let b = self.bits[i];
            r = 2 * r + if b {
                1
            } else {
                0
            };
        }
        proof {
            assert(all.skip(0) =~= all);
        }
        r
    }
}

/// Two to a power of at most eight is at most 256.
proof fn lemma_pow2_le_256(k: nat)
    requires
        k <= 8,
    ensures
        pow2(k) <= 0x100,
{
    lemma2_to64();
    if k < 8 {
        vstd::arithmetic::power2::lemma_pow2_strictly_increases(k, 8);
    }
}

/// Appending a bit on the most-significant side adds its weighted value.
proof fn lemma_bits_value_push(bits: Seq<bool>, b: bool, v: nat, i: nat, total: nat)
    requires
        bits.len() == i,
        b == (v % 2 == 1),
        bits_value(bits) + pow2(i) * v == total,
    ensures
        bits_value(bits.push(b)) + pow2(i + 1) * (v / 2) == total,
    decreases i,
{
    let p = bits.push(b);
    let b0: nat = if bits.len() > 0 && bits[0] {
        1nat
    } else {
        0nat
    };
    vstd::arithmetic::power2::lemma_pow2_unfold(i + 1);
    vstd::arithmetic::div_mod::lemma_fundamental_div_mod(v as int, 2);
    if i == 0 {
        assert(bits =~= Seq::<bool>::empty());
        assert(p.skip(1) =~= Seq::<bool>::empty());
        assert(p[0] == b);
        lemma2_to64();
        assert(bits_value(p) == (if b {
            1nat
        } else {
            0nat
        }) + 2 * bits_value(p.skip(1)));
    } else {
        let tail = bits.skip(1);
        assert(bits[0] == p[0]);
        assert(p.skip(1) =~= tail.push(b));
        vstd::arithmetic::power2::lemma_pow2_unfold(i);
        assert(pow2(i) * v == 2 * (pow2((i - 1) as nat) * v)) by (nonlinear_arith)
            requires
                pow2(i) == 2 * pow2((i - 1) as nat),
        ;
        let sub: nat = bits_value(tail) + pow2((i - 1) as nat) * v;
        assert(total == b0 + 2 * sub);
        lemma_bits_value_push(tail, b, v, (i - 1) as nat, sub);
        assert(pow2(i + 1) * (v / 2) == 2 * (pow2(i) * (v / 2))) by (nonlinear_arith)
            requires
                pow2(i + 1) == 2 * pow2(i),
        ;
        assert(bits_value(p) == b0 + 2 * bits_value(tail.push(b)));
    }
}

/// A bit sequence denotes a value below two to its length.
proof fn lemma_bits_value_bound(bits: Seq<bool>)
    ensures
        bits_value(bits) < pow2(bits.len()),
    decreases bits.len(),
{
    vstd::arithmetic::power2::lemma_pow2_pos(bits.len());
    if bits.len() == 0 {
        lemma2_to64();
    } else {
        lemma_bits_value_bound(bits.skip(1));
        vstd::arithmetic::power2::lemma_pow2_unfold(bits.len());
    }
}

} // verus!
