//! Instruction semantics: one operation per opcode, each specified against
//! the processor's mathematical state, plus the fetch-decode-execute cycle
//! driver.
//!
//! Register operands are named by index; register 0 behaves as the hardwired
//! zero register throughout. Arithmetic is two's-complement: the `u32`
//! register values are reinterpreted through [`as_signed`] where an
//! instruction is signed.

use vstd::prelude::*;

verus! {

use vstd::arithmetic::div_mod::lemma_add_mod_noop;
use vstd::arithmetic::div_mod::lemma_fundamental_div_mod;
use vstd::arithmetic::div_mod::lemma_mod_multiples_vanish;
use vstd::arithmetic::div_mod::lemma_small_mod;

use crate::bus::Bus;
use crate::bus::BusView;
use crate::bus::spec_read_word;
use crate::cpu::Cpu;
use crate::cpu::CpuView;
use crate::cpu::reg_store;
use crate::cpu::spec_translate;
use crate::cpu::spec_vread_byte;
use crate::cpu::spec_vread_halfword;
use crate::cpu::spec_vread_word;
use crate::cpu::spec_vwrite_byte;
use crate::cpu::spec_vwrite_halfword;
use crate::cpu::spec_vwrite_word;
use crate::exception::Exception;
use crate::instr::Instruction;

/// The signed (two's-complement) reading of a 32-bit register value:
/// an integer in `[-0x80000000, 0x80000000)`.
pub open spec fn as_signed(a: u32) -> int {
    if a < 0x80000000 {
        a as int
    } else {
        a - 0x100000000
    }
}

/// An integer reduced to a 32-bit register value (wrapping, modulo `2^32`).
pub open spec fn to_u32(x: int) -> u32 {
    (x % 0x100000000) as u32
}

/// A 16-bit immediate sign-extended to 32 bits.
pub open spec fn sext16(imm: u16) -> u32 {
    if imm < 0x8000 {
        imm as u32
    } else {
        (imm + 0xffff0000) as u32
    }
}

/// A byte sign-extended to 32 bits.
pub open spec fn sext8(b: u8) -> u32 {
    if b < 0x80 {
        b as u32
    } else {
        (b + 0xffffff00) as u32
    }
}

/// The processor state after writing `v` to register `i` (a write to
/// register 0 is discarded).
pub open spec fn upd_reg(c: CpuView, i: u8, v: u32) -> CpuView {
    CpuView { regs: reg_store(c.regs, i as int, v), ..c }
}

/// The signed reading of a register value, computed exactly in 64 bits.
fn signed_value(a: u32) -> (r: i64)
    ensures
        r == as_signed(a),
{
    if a < 0x80000000 {
        a as i64
    } else {
        a as i64 - 0x100000000
    }
}

/// A 64-bit intermediate reduced to a 32-bit register value (wrapping).
fn unsigned_value(x: i64) -> (r: u32)
    requires
        -0x100000000 <= x <= 0xffffffff,
    ensures
        r == to_u32(x as int),
{
    proof {
        if x >= 0 {
            lemma_small_mod(x as nat, 0x100000000);
        } else {
            lemma_mod_multiples_vanish(1, x as int, 0x100000000);
            lemma_small_mod((x + 0x100000000) as nat, 0x100000000);
        }
    }
    if x >= 0 {
        x as u32
    } else {
        (x + 0x100000000) as u32
    }
}

/// Sign-extends a 16-bit immediate to 32 bits.
fn sign_extend_halfword(imm: u16) -> (r: u32)
    ensures
        r == sext16(imm),
{
    if imm < 0x8000 {
        imm as u32
    } else {
        imm as u32 + 0xffff0000
    }
}

/// Sign-extends a byte to 32 bits.
fn sign_extend_byte(b: u8) -> (r: u32)
    ensures
        r == sext8(b),
{
    if b < 0x80 {
        b as u32
    } else {
        b as u32 + 0xffffff00
    }
}

/// The redirected program counter of a taken branch: the next-instruction
/// `pc` plus the sign-extended offset in units of whole instructions
/// (shifted left by 2), wrapping modulo `2^32`.
pub open spec fn branch_target(pc: u32, offset: u16) -> u32 {
    to_u32(pc + 4 * sext16(offset))
}

/// Computes a taken branch's redirected program counter.
fn branch_pc(pc: u32, offset: u16) -> (r: u32)
    ensures
        r == branch_target(pc, offset),
{
    let delta = sign_extend_halfword(offset).wrapping_mul(4);
    proof {
        lemma_add_mod_noop(pc as int, 4 * sext16(offset), 0x100000000);
        lemma_small_mod(pc as nat, 0x100000000);
    }
    pc.wrapping_add(delta)
}

/// The return address a call-like instruction links: the instruction-entry
/// `pc` plus 8, wrapping modulo `2^32`.
pub open spec fn link_target(pc: u32) -> u32 {
    to_u32(pc + 8)
}

/// Computes the link-register value.
fn link_pc(pc: u32) -> (r: u32)
    ensures
        r == link_target(pc),
{
    pc.wrapping_add(8)
}

// ------------------------------------------------------------------
// Arithmetic with trap-on-overflow
// ------------------------------------------------------------------

/// `add`: signed addition; on signed overflow the destination is left
/// unmodified and the Overflow exception is reported.
pub open spec fn spec_add(c: CpuView, rs: u8, rt: u8, rd: u8) -> (CpuView, Result<
    (),
    Exception,
>) {
    let sum = as_signed(c.regs[rs as int]) + as_signed(c.regs[rt as int]);
    if sum < -0x80000000 || sum > 0x7fffffff {
        (c, Err(Exception::Overflow))
    } else {
        (upd_reg(c, rd, to_u32(sum)), Ok(()))
    }
}

/// `addi`: signed addition of a sign-extended immediate; traps on overflow.
pub open spec fn spec_addi(c: CpuView, rs: u8, rt: u8, immediate: u16) -> (CpuView, Result<
    (),
    Exception,
>) {
    let sum = as_signed(c.regs[rs as int]) + as_signed(sext16(immediate));
    if sum < -0x80000000 || sum > 0x7fffffff {
        (c, Err(Exception::Overflow))
    } else {
        (upd_reg(c, rt, to_u32(sum)), Ok(()))
    }
}

/// `sub`: signed subtraction; traps on overflow.
pub open spec fn spec_sub(c: CpuView, rs: u8, rt: u8, rd: u8) -> (CpuView, Result<
    (),
    Exception,
>) {
    let diff = as_signed(c.regs[rs as int]) - as_signed(c.regs[rt as int]);
    if diff < -0x80000000 || diff > 0x7fffffff {
        (c, Err(Exception::Overflow))
    } else {
        (upd_reg(c, rd, to_u32(diff)), Ok(()))
    }
}

// ------------------------------------------------------------------
// Arithmetic without trap
// ------------------------------------------------------------------

/// `addu`: wrapping addition.
pub open spec fn spec_addu(c: CpuView, rs: u8, rt: u8, rd: u8) -> CpuView {
    upd_reg(c, rd, to_u32(c.regs[rs as int] + c.regs[rt as int]))
}

/// `addiu`: wrapping addition of a sign-extended immediate.
pub open spec fn spec_addiu(c: CpuView, rs: u8, rt: u8, immediate: u16) -> CpuView {
    upd_reg(c, rt, to_u32(c.regs[rs as int] + sext16(immediate)))
}

/// `subu`: wrapping subtraction.
pub open spec fn spec_subu(c: CpuView, rs: u8, rt: u8, rd: u8) -> CpuView {
    upd_reg(c, rd, to_u32(c.regs[rs as int] - c.regs[rt as int]))
}

// ------------------------------------------------------------------
// Bitwise operations
// ------------------------------------------------------------------

/// `and`.
pub open spec fn spec_and(c: CpuView, rs: u8, rt: u8, rd: u8) -> CpuView {
    upd_reg(c, rd, c.regs[rs as int] & c.regs[rt as int])
}

/// `andi`: the immediate is zero-extended.
pub open spec fn spec_andi(c: CpuView, rs: u8, rt: u8, immediate: u16) -> CpuView {
    upd_reg(c, rt, c.regs[rs as int] & (immediate as u32))
}

/// `or`.
pub open spec fn spec_or(c: CpuView, rs: u8, rt: u8, rd: u8) -> CpuView {
    upd_reg(c, rd, c.regs[rs as int] | c.regs[rt as int])
}

/// `ori`: the immediate is zero-extended.
pub open spec fn spec_ori(c: CpuView, rs: u8, rt: u8, immediate: u16) -> CpuView {
    upd_reg(c, rt, c.regs[rs as int] | (immediate as u32))
}

/// `xor`.
pub open spec fn spec_xor(c: CpuView, rs: u8, rt: u8, rd: u8) -> CpuView {
    upd_reg(c, rd, c.regs[rs as int] ^ c.regs[rt as int])
}

/// `xori`: the immediate is zero-extended.
pub open spec fn spec_xori(c: CpuView, rs: u8, rt: u8, immediate: u16) -> CpuView {
    upd_reg(c, rt, c.regs[rs as int] ^ (immediate as u32))
}

/// `nor`.
pub open spec fn spec_nor(c: CpuView, rs: u8, rt: u8, rd: u8) -> CpuView {
    upd_reg(c, rd, !(c.regs[rs as int] | c.regs[rt as int]))
}

// ------------------------------------------------------------------
// Shifts
// ------------------------------------------------------------------

/// Arithmetic (sign-preserving) right shift of a 32-bit value by `k < 32`
/// places: a logical shift that then fills the vacated high bits with copies
/// of the sign bit.
pub open spec fn sra32(a: u32, k: u32) -> u32 {
    if a < 0x80000000 {
        a >> k
    } else {
        !((!a) >> k)
    }
}

/// `sll`: logical left shift by a 5-bit immediate amount.
pub open spec fn spec_sll(c: CpuView, rt: u8, rd: u8, sa: u8) -> CpuView {
    upd_reg(c, rd, c.regs[rt as int] << (sa as u32))
}

/// `sllv`: logical left shift by the low 5 bits of a register.
pub open spec fn spec_sllv(c: CpuView, rs: u8, rt: u8, rd: u8) -> CpuView {
    upd_reg(c, rd, c.regs[rt as int] << (c.regs[rs as int] % 32))
}

/// `srl`: logical right shift by a 5-bit immediate amount.
pub open spec fn spec_srl(c: CpuView, rt: u8, rd: u8, sa: u8) -> CpuView {
    upd_reg(c, rd, c.regs[rt as int] >> (sa as u32))
}

/// `srlv`: logical right shift by the low 5 bits of a register.
pub open spec fn spec_srlv(c: CpuView, rs: u8, rt: u8, rd: u8) -> CpuView {
    upd_reg(c, rd, c.regs[rt as int] >> (c.regs[rs as int] % 32))
}

/// `sra`: arithmetic right shift by a 5-bit immediate amount.
pub open spec fn spec_sra(c: CpuView, rt: u8, rd: u8, sa: u8) -> CpuView {
    upd_reg(c, rd, sra32(c.regs[rt as int], sa as u32))
}

/// `srav`: arithmetic right shift by the low 5 bits of a register.
pub open spec fn spec_srav(c: CpuView, rs: u8, rt: u8, rd: u8) -> CpuView {
    upd_reg(c, rd, sra32(c.regs[rt as int], c.regs[rs as int] % 32))
}

// ------------------------------------------------------------------
// Comparisons
// ------------------------------------------------------------------

/// `slt`: signed set-on-less-than; the destination becomes 0 or 1.
pub open spec fn spec_slt(c: CpuView, rs: u8, rt: u8, rd: u8) -> CpuView {
    upd_reg(
        c,
        rd,
        if as_signed(c.regs[rs as int]) < as_signed(c.regs[rt as int]) {
            1u32
        } else {
            0u32
        },
    )
}

/// `slti`: signed comparison against the sign-extended immediate.
pub open spec fn spec_slti(c: CpuView, rs: u8, rt: u8, immediate: u16) -> CpuView {
    upd_reg(
        c,
        rt,
        if as_signed(c.regs[rs as int]) < as_signed(sext16(immediate)) {
            1u32
        } else {
            0u32
        },
    )
}

/// `sltu`: unsigned set-on-less-than.
pub open spec fn spec_sltu(c: CpuView, rs: u8, rt: u8, rd: u8) -> CpuView {
    upd_reg(
        c,
        rd,
        if c.regs[rs as int] < c.regs[rt as int] {
            1u32
        } else {
            0u32
        },
    )
}

/// `sltiu`: the immediate is sign-extended, then compared as unsigned (the
/// architecture's quirk).
pub open spec fn spec_sltiu(c: CpuView, rs: u8, rt: u8, immediate: u16) -> CpuView {
    upd_reg(
        c,
        rt,
        if c.regs[rs as int] < sext16(immediate) {
            1u32
        } else {
            0u32
        },
    )
}

// ------------------------------------------------------------------
// Upper-immediate load and hi/lo moves
// ------------------------------------------------------------------

/// `lui`: the immediate becomes the destination's upper 16 bits; the lower
/// 16 bits are zero.
pub open spec fn spec_lui(c: CpuView, rt: u8, immediate: u16) -> CpuView {
    upd_reg(c, rt, ((immediate as u32) * 0x10000) as u32)
}

/// `mfhi`: moves `hi` into a general register.
pub open spec fn spec_mfhi(c: CpuView, rd: u8) -> CpuView {
    upd_reg(c, rd, c.hi)
}

/// `mflo`: moves `lo` into a general register.
pub open spec fn spec_mflo(c: CpuView, rd: u8) -> CpuView {
    upd_reg(c, rd, c.lo)
}

/// `mthi`: moves a general register into `hi`.
pub open spec fn spec_mthi(c: CpuView, rs: u8) -> CpuView {
    CpuView { hi: c.regs[rs as int], ..c }
}

/// `mtlo`: moves a general register into `lo`.
pub open spec fn spec_mtlo(c: CpuView, rs: u8) -> CpuView {
    CpuView { lo: c.regs[rs as int], ..c }
}

// ------------------------------------------------------------------
// Multiply and divide
// ------------------------------------------------------------------

/// Integer division truncated toward zero (the sign-magnitude reading that
/// hardware division uses), as opposed to the floor division of `/` on
/// negatives.
pub open spec fn tdiv(x: int, y: int) -> int
    recommends
        y != 0,
{
    if x >= 0 && y >= 0 {
        x / y
    } else if x < 0 && y < 0 {
        (-x) / (-y)
    } else if x < 0 {
        -((-x) / y)
    } else {
        -(x / (-y))
    }
}

/// The remainder of truncating division: it carries the dividend's sign.
pub open spec fn trem(x: int, y: int) -> int
    recommends
        y != 0,
{
    x - y * tdiv(x, y)
}

/// `mult`: the signed 64-bit product, in two's complement, split across
/// `hi` (upper 32 bits) and `lo` (lower 32 bits).
pub open spec fn spec_mult(c: CpuView, rs: u8, rt: u8) -> CpuView {
    let p = as_signed(c.regs[rs as int]) * as_signed(c.regs[rt as int]);
    let pu = p % 0x10000000000000000;
    CpuView { hi: (pu / 0x100000000) as u32, lo: (pu % 0x100000000) as u32, ..c }
}

/// `multu`: the unsigned 64-bit product split across `hi` and `lo`.
pub open spec fn spec_multu(c: CpuView, rs: u8, rt: u8) -> CpuView {
    let p = (c.regs[rs as int] as int) * (c.regs[rt as int] as int);
    CpuView { hi: (p / 0x100000000) as u32, lo: (p % 0x100000000) as u32, ..c }
}

/// `div`: signed truncating division, quotient into `lo` and remainder into
/// `hi`. A zero divisor, or the one quotient that overflows 32 bits, sets
/// both to 0 — this emulator's explicit default for the architecturally
/// undefined cases.
pub open spec fn spec_div(c: CpuView, rs: u8, rt: u8) -> CpuView {
    let a = as_signed(c.regs[rs as int]);
    let b = as_signed(c.regs[rt as int]);
    if b == 0 || (a == -0x80000000 && b == -1) {
        CpuView { hi: 0, lo: 0, ..c }
    } else {
        CpuView { hi: to_u32(trem(a, b)), lo: to_u32(tdiv(a, b)), ..c }
    }
}

/// `divu`: unsigned division, quotient into `lo` and remainder into `hi`; a
/// zero divisor sets both to 0.
pub open spec fn spec_divu(c: CpuView, rs: u8, rt: u8) -> CpuView {
    let a = c.regs[rs as int];
    let b = c.regs[rt as int];
    if b == 0 {
        CpuView { hi: 0, lo: 0, ..c }
    } else {
        CpuView { hi: (a % b) as u32, lo: (a / b) as u32, ..c }
    }
}

/// Reducing a value already in `[0, 2^32)` modulo `2^32` changes nothing.
proof fn lemma_to_u32_small(x: u32)
    ensures
        to_u32(x as int) == x,
{
    lemma_small_mod(x as nat, 0x100000000);
}

/// The 32-bit wrap of a small negative value is its two's complement.
proof fn lemma_to_u32_neg(x: u32)
    ensures
        to_u32(-(x as int)) == (if x == 0 {
            0u32
        } else {
            (0x100000000 - x) as u32
        }),
{
    if x == 0 {
        lemma_small_mod(0, 0x100000000);
    } else {
        lemma_mod_multiples_vanish(1, -(x as int), 0x100000000);
        lemma_small_mod((0x100000000 - x) as nat, 0x100000000);
    }
}

impl Cpu {
    /// `add`: signed addition with trap on overflow; on overflow the
    /// destination register is unchanged.
    pub fn add(&mut self, rs: u8, rt: u8, rd: u8) -> (r: Result<(), Exception>)
        requires
            old(self).wf(),
            rs < 32,
            rt < 32,
            rd < 32,
        ensures
            final(self).wf(),
            (final(self)@, r) == spec_add(old(self)@, rs, rt, rd),
    {
        let a = signed_value(self.read_register(rs));
        let b = signed_value(self.read_register(rt));
        let sum = a + b;
        if sum < -0x80000000 || sum > 0x7fffffff {
            return Err(Exception::Overflow);
        }
        self.write_register(rd, unsigned_value(sum));
        Ok(())
    }

    /// `addi`: signed addition of a sign-extended immediate with trap on
    /// overflow; on overflow the destination register is unchanged.
    pub fn addi(&mut self, rs: u8, rt: u8, immediate: u16) -> (r: Result<(), Exception>)
        requires
            old(self).wf(),
            rs < 32,
            rt < 32,
        ensures
            final(self).wf(),
            (final(self)@, r) == spec_addi(old(self)@, rs, rt, immediate),
    {
        let a = signed_value(self.read_register(rs));
        let b = signed_value(sign_extend_halfword(immediate));
        let sum = a + b;
        if sum < -0x80000000 || sum > 0x7fffffff {
            return Err(Exception::Overflow);
        }
        self.write_register(rt, unsigned_value(sum));
        Ok(())
    }

    /// `sub`: signed subtraction with trap on overflow; on overflow the
    /// destination register is unchanged.
    pub fn sub(&mut self, rs: u8, rt: u8, rd: u8) -> (r: Result<(), Exception>)
        requires
            old(self).wf(),
            rs < 32,
            rt < 32,
            rd < 32,
        ensures
            final(self).wf(),
            (final(self)@, r) == spec_sub(old(self)@, rs, rt, rd),
    {
        let a = signed_value(self.read_register(rs));
        let b = signed_value(self.read_register(rt));
        let diff = a - b;
        if diff < -0x80000000 || diff > 0x7fffffff {
            return Err(Exception::Overflow);
        }
        self.write_register(rd, unsigned_value(diff));
        Ok(())
    }

    /// `addu`: wrapping (modulo `2^32`) addition; never faults.
    pub fn addu(&mut self, rs: u8, rt: u8, rd: u8)
        requires
            old(self).wf(),
            rs < 32,
            rt < 32,
            rd < 32,
        ensures
            final(self).wf(),
            final(self)@ == spec_addu(old(self)@, rs, rt, rd),
    {
        let a = self.read_register(rs);
        let b = self.read_register(rt);
        let res = a.wrapping_add(b);
        self.write_register(rd, res);
    }

    /// `addiu`: wrapping addition of a sign-extended immediate; never
    /// faults.
    pub fn addiu(&mut self, rs: u8, rt: u8, immediate: u16)
        requires
            old(self).wf(),
            rs < 32,
            rt < 32,
        ensures
            final(self).wf(),
            final(self)@ == spec_addiu(old(self)@, rs, rt, immediate),
    {
        let a = self.read_register(rs);
        let b = sign_extend_halfword(immediate);
        let res = a.wrapping_add(b);
        self.write_register(rt, res);
    }

    /// `subu`: wrapping subtraction; never faults.
    pub fn subu(&mut self, rs: u8, rt: u8, rd: u8)
        requires
            old(self).wf(),
            rs < 32,
            rt < 32,
            rd < 32,
        ensures
            final(self).wf(),
            final(self)@ == spec_subu(old(self)@, rs, rt, rd),
    {
        let a = self.read_register(rs);
        let b = self.read_register(rt);
        self.write_register(rd, a.wrapping_sub(b));
    }

    /// `and`: bitwise conjunction.
    pub fn and(&mut self, rs: u8, rt: u8, rd: u8)
        requires
            old(self).wf(),
            rs < 32,
            rt < 32,
            rd < 32,
        ensures
            final(self).wf(),
            final(self)@ == spec_and(old(self)@, rs, rt, rd),
    {
        let a = self.read_register(rs);
        let b = self.read_register(rt);
        self.write_register(rd, a & b);
    }

    /// `andi`: bitwise conjunction with the zero-extended immediate.
    pub fn andi(&mut self, rs: u8, rt: u8, immediate: u16)
        requires
            old(self).wf(),
            rs < 32,
            rt < 32,
        ensures
            final(self).wf(),
            final(self)@ == spec_andi(old(self)@, rs, rt, immediate),
    {
        let a = self.read_register(rs);
        self.write_register(rt, a & immediate as u32);
    }

    /// `or`: bitwise disjunction.
    pub fn or(&mut self, rs: u8, rt: u8, rd: u8)
        requires
            old(self).wf(),
            rs < 32,
            rt < 32,
            rd < 32,
        ensures
            final(self).wf(),
            final(self)@ == spec_or(old(self)@, rs, rt, rd),
    {
        let a = self.read_register(rs);
        let b = self.read_register(rt);
        self.write_register(rd, a | b);
    }

    /// `ori`: bitwise disjunction with the zero-extended immediate.
    pub fn ori(&mut self, rs: u8, rt: u8, immediate: u16)
        requires
            old(self).wf(),
            rs < 32,
            rt < 32,
        ensures
            final(self).wf(),
            final(self)@ == spec_ori(old(self)@, rs, rt, immediate),
    {
        let a = self.read_register(rs);
        self.write_register(rt, a | immediate as u32);
    }

    /// `xor`: bitwise exclusive disjunction.
    pub fn xor(&mut self, rs: u8, rt: u8, rd: u8)
        requires
            old(self).wf(),
            rs < 32,
            rt < 32,
            rd < 32,
        ensures
            final(self).wf(),
            final(self)@ == spec_xor(old(self)@, rs, rt, rd),
    {
        let a = self.read_register(rs);
        let b = self.read_register(rt);
        self.write_register(rd, a ^ b);
    }

    /// `xori`: bitwise exclusive disjunction with the zero-extended
    /// immediate.
    pub fn xori(&mut self, rs: u8, rt: u8, immediate: u16)
        requires
            old(self).wf(),
            rs < 32,
            rt < 32,
        ensures
            final(self).wf(),
            final(self)@ == spec_xori(old(self)@, rs, rt, immediate),
    {
        let a = self.read_register(rs);
        self.write_register(rt, a ^ immediate as u32);
    }

    /// `nor`: bitwise negated disjunction.
    pub fn nor(&mut self, rs: u8, rt: u8, rd: u8)
        requires
            old(self).wf(),
            rs < 32,
            rt < 32,
            rd < 32,
        ensures
            final(self).wf(),
            final(self)@ == spec_nor(old(self)@, rs, rt, rd),
    {
        let a = self.read_register(rs);
        let b = self.read_register(rt);
        self.write_register(rd, !(a | b));
    }

    /// `sll`: logical left shift by the 5-bit immediate amount.
    pub fn sll(&mut self, rt: u8, rd: u8, sa: u8)
        requires
            old(self).wf(),
            rt < 32,
            rd < 32,
            sa < 32,
        ensures
            final(self).wf(),
            final(self)@ == spec_sll(old(self)@, rt, rd, sa),
    {
        let a = self.read_register(rt);
        self.write_register(rd, a << sa as u32);
    }

    /// `sllv`: logical left shift by the low 5 bits of a register.
    pub fn sllv(&mut self, rs: u8, rt: u8, rd: u8)
        requires
            old(self).wf(),
            rs < 32,
            rt < 32,
            rd < 32,
        ensures
            final(self).wf(),
            final(self)@ == spec_sllv(old(self)@, rs, rt, rd),
    {
        let a = self.read_register(rt);
        let sa = self.read_register(rs) % 32;
        self.write_register(rd, a << sa);
    }

    /// `srl`: logical right shift by the 5-bit immediate amount.
    pub fn srl(&mut self, rt: u8, rd: u8, sa: u8)
        requires
            old(self).wf(),
            rt < 32,
            rd < 32,
            sa < 32,
        ensures
            final(self).wf(),
            final(self)@ == spec_srl(old(self)@, rt, rd, sa),
    {
        let a = self.read_register(rt);
        self.write_register(rd, a >> sa as u32);
    }

    /// `srlv`: logical right shift by the low 5 bits of a register.
    pub fn srlv(&mut self, rs: u8, rt: u8, rd: u8)
        requires
            old(self).wf(),
            rs < 32,
            rt < 32,
            rd < 32,
        ensures
            final(self).wf(),
            final(self)@ == spec_srlv(old(self)@, rs, rt, rd),
    {
        let a = self.read_register(rt);
        let sa = self.read_register(rs) % 32;
        self.write_register(rd, a >> sa);
    }

    /// `sra`: arithmetic (sign-preserving) right shift by the 5-bit
    /// immediate amount.
    pub fn sra(&mut self, rt: u8, rd: u8, sa: u8)
        requires
            old(self).wf(),
            rt < 32,
            rd < 32,
            sa < 32,
        ensures
            final(self).wf(),
            final(self)@ == spec_sra(old(self)@, rt, rd, sa),
    {
        let a = self.read_register(rt);
        self.write_register(rd, shift_right_arithmetic(a, sa as u32));
    }

    /// `srav`: arithmetic right shift by the low 5 bits of a register.
    pub fn srav(&mut self, rs: u8, rt: u8, rd: u8)
        requires
            old(self).wf(),
            rs < 32,
            rt < 32,
            rd < 32,
        ensures
            final(self).wf(),
            final(self)@ == spec_srav(old(self)@, rs, rt, rd),
    {
        let a = self.read_register(rt);
        let sa = self.read_register(rs) % 32;
        self.write_register(rd, shift_right_arithmetic(a, sa));
    }

    /// `slt`: signed set-on-less-than; writes 0 or 1.
    pub fn slt(&mut self, rs: u8, rt: u8, rd: u8)
        requires
            old(self).wf(),
            rs < 32,
            rt < 32,
            rd < 32,
        ensures
            final(self).wf(),
            final(self)@ == spec_slt(old(self)@, rs, rt, rd),
    {
        let a = signed_value(self.read_register(rs));
        let b = signed_value(self.read_register(rt));
        self.write_register(rd, if a < b { 1 } else { 0 });
    }

    /// `slti`: signed set-on-less-than against the sign-extended immediate.
    pub fn slti(&mut self, rs: u8, rt: u8, immediate: u16)
        requires
            old(self).wf(),
            rs < 32,
            rt < 32,
        ensures
            final(self).wf(),
            final(self)@ == spec_slti(old(self)@, rs, rt, immediate),
    {
        let a = signed_value(self.read_register(rs));
        let b = signed_value(sign_extend_halfword(immediate));
        self.write_register(rt, if a < b { 1 } else { 0 });
    }

    /// `sltu`: unsigned set-on-less-than; writes 0 or 1.
    pub fn sltu(&mut self, rs: u8, rt: u8, rd: u8)
        requires
            old(self).wf(),
            rs < 32,
            rt < 32,
            rd < 32,
        ensures
            final(self).wf(),
            final(self)@ == spec_sltu(old(self)@, rs, rt, rd),
    {
        let a = self.read_register(rs);
        let b = self.read_register(rt);
        self.write_register(rd, if a < b { 1 } else { 0 });
    }

    /// `sltiu`: the immediate is sign-extended, then compared as unsigned.
    pub fn sltiu(&mut self, rs: u8, rt: u8, immediate: u16)
        requires
            old(self).wf(),
            rs < 32,
            rt < 32,
        ensures
            final(self).wf(),
            final(self)@ == spec_sltiu(old(self)@, rs, rt, immediate),
    {
        let a = self.read_register(rs);
        let b = sign_extend_halfword(immediate);
        self.write_register(rt, if a < b { 1 } else { 0 });
    }

    /// `lui`: loads the immediate into the destination's upper 16 bits.
    pub fn lui(&mut self, rt: u8, immediate: u16)
        requires
            old(self).wf(),
            rt < 32,
        ensures
            final(self).wf(),
            final(self)@ == spec_lui(old(self)@, rt, immediate),
    {
        self.write_register(rt, immediate as u32 * 0x10000);
    }

    /// `mfhi`: moves `hi` into a general register.
    pub fn mfhi(&mut self, rd: u8)
        requires
            old(self).wf(),
            rd < 32,
        ensures
            final(self).wf(),
            final(self)@ == spec_mfhi(old(self)@, rd),
    {
        let v = self.hi();
        self.write_register(rd, v);
    }

    /// `mflo`: moves `lo` into a general register.
    pub fn mflo(&mut self, rd: u8)
        requires
            old(self).wf(),
            rd < 32,
        ensures
            final(self).wf(),
            final(self)@ == spec_mflo(old(self)@, rd),
    {
        let v = self.lo();
        self.write_register(rd, v);
    }

    /// `mthi`: moves a general register into `hi`.
    pub fn mthi(&mut self, rs: u8)
        requires
            old(self).wf(),
            rs < 32,
        ensures
            final(self).wf(),
            final(self)@ == spec_mthi(old(self)@, rs),
    {
        let v = self.read_register(rs);
        self.set_hi(v);
    }

    /// `mtlo`: moves a general register into `lo`.
    pub fn mtlo(&mut self, rs: u8)
        requires
            old(self).wf(),
            rs < 32,
        ensures
            final(self).wf(),
            final(self)@ == spec_mtlo(old(self)@, rs),
    {
        let v = self.read_register(rs);
        self.set_lo(v);
    }

    /// `break`: never executes; unconditionally signals the Breakpoint
    /// exception. (`break` is a keyword, hence the spelled-out name.)
    pub fn break_op(&self) -> (r: Exception)
        ensures
            r == Exception::Breakpoint,
    {
        Exception::Breakpoint
    }

    /// `syscall`: never executes; unconditionally signals the SystemCall
    /// exception.
    pub fn syscall(&self) -> (r: Exception)
        ensures
            r == Exception::SystemCall,
    {
        Exception::SystemCall
    }
}

/// Arithmetic right shift: for a nonnegative value a logical shift; for a
/// negative one, the complement trick fills the vacated bits with ones.
fn shift_right_arithmetic(a: u32, k: u32) -> (r: u32)
    requires
        k < 32,
    ensures
        r == sra32(a, k),
{
    if a < 0x80000000 {
        a >> k
    } else {
        !((!a) >> k)
    }
}

// ------------------------------------------------------------------
// Branches
// ------------------------------------------------------------------

/// `beq`: branch if the two registers are equal.
pub open spec fn spec_beq(c: CpuView, rs: u8, rt: u8, offset: u16) -> CpuView {
    if c.regs[rs as int] == c.regs[rt as int] {
        CpuView { pc: branch_target(c.pc, offset), ..c }
    } else {
        c
    }
}

/// `bne`: branch if the two registers differ.
pub open spec fn spec_bne(c: CpuView, rs: u8, rt: u8, offset: u16) -> CpuView {
    if c.regs[rs as int] != c.regs[rt as int] {
        CpuView { pc: branch_target(c.pc, offset), ..c }
    } else {
        c
    }
}

/// `bgez`: branch if the register is nonnegative (signed).
pub open spec fn spec_bgez(c: CpuView, rs: u8, offset: u16) -> CpuView {
    if as_signed(c.regs[rs as int]) >= 0 {
        CpuView { pc: branch_target(c.pc, offset), ..c }
    } else {
        c
    }
}

/// `bgtz`: branch if the register is strictly positive (signed).
pub open spec fn spec_bgtz(c: CpuView, rs: u8, offset: u16) -> CpuView {
    if as_signed(c.regs[rs as int]) > 0 {
        CpuView { pc: branch_target(c.pc, offset), ..c }
    } else {
        c
    }
}

/// `blez`: branch if the register is zero or negative (signed).
pub open spec fn spec_blez(c: CpuView, rs: u8, offset: u16) -> CpuView {
    if as_signed(c.regs[rs as int]) <= 0 {
        CpuView { pc: branch_target(c.pc, offset), ..c }
    } else {
        c
    }
}

/// `bltz`: branch if the register is strictly negative (signed).
pub open spec fn spec_bltz(c: CpuView, rs: u8, offset: u16) -> CpuView {
    if as_signed(c.regs[rs as int]) < 0 {
        CpuView { pc: branch_target(c.pc, offset), ..c }
    } else {
        c
    }
}

/// `bgezal`: branch-and-link if nonnegative. The link register (31) takes
/// the return address unconditionally, before the condition is tested, so a
/// condition on register 31 sees the linked value.
pub open spec fn spec_bgezal(c: CpuView, rs: u8, offset: u16) -> CpuView {
    let linked = upd_reg(c, 31, link_target(c.pc));
    if as_signed(linked.regs[rs as int]) >= 0 {
        CpuView { pc: branch_target(linked.pc, offset), ..linked }
    } else {
        linked
    }
}

/// `bltzal`: branch-and-link if strictly negative; the link register is
/// written unconditionally, as for `bgezal`.
pub open spec fn spec_bltzal(c: CpuView, rs: u8, offset: u16) -> CpuView {
    let linked = upd_reg(c, 31, link_target(c.pc));
    if as_signed(linked.regs[rs as int]) < 0 {
        CpuView { pc: branch_target(linked.pc, offset), ..linked }
    } else {
        linked
    }
}

// ------------------------------------------------------------------
// Jumps
// ------------------------------------------------------------------

/// A jump destination: the top 4 bits of the current `pc` are preserved and
/// the low 28 bits are replaced with `target << 2`.
pub open spec fn jump_dest(pc: u32, target: u32) -> u32 {
    (pc & 0xf0000000) | (target << 2)
}

/// `j`: jump within the current 256 MiB region.
pub open spec fn spec_j(c: CpuView, target: u32) -> CpuView {
    CpuView { pc: jump_dest(c.pc, target), ..c }
}

/// `jal`: jump and link register 31 with the return address.
pub open spec fn spec_jal(c: CpuView, target: u32) -> CpuView {
    let linked = upd_reg(c, 31, link_target(c.pc));
    CpuView { pc: jump_dest(linked.pc, target), ..linked }
}

/// `jr`: jump to the register's raw value. A misaligned target still
/// redirects `pc` but reports an address-error: the fault is reported, not
/// prevented.
pub open spec fn spec_jr(c: CpuView, rs: u8) -> (CpuView, Result<(), Exception>) {
    let target = c.regs[rs as int];
    (
        CpuView { pc: target, ..c },
        if target % 4 != 0 {
            Err(Exception::AddressError)
        } else {
            Ok(())
        },
    )
}

/// `jalr`: jump to the register's raw value and link the return address into
/// `rd`; a misaligned target still redirects `pc` but reports an
/// address-error.
pub open spec fn spec_jalr(c: CpuView, rs: u8, rd: u8) -> (CpuView, Result<(), Exception>) {
    let target = c.regs[rs as int];
    let linked = upd_reg(c, rd, link_target(c.pc));
    (
        CpuView { pc: target, ..linked },
        if target % 4 != 0 {
            Err(Exception::AddressError)
        } else {
            Ok(())
        },
    )
}

impl Cpu {
    /// `beq`: branch to `pc + (sign_extend(offset) << 2)` if the registers
    /// are equal.
    pub fn beq(&mut self, rs: u8, rt: u8, offset: u16)
        requires
            old(self).wf(),
            rs < 32,
            rt < 32,
        ensures
            final(self).wf(),
            final(self)@ == spec_beq(old(self)@, rs, rt, offset),
    {
        if self.read_register(rs) == self.read_register(rt) {
            let target = branch_pc(self.pc(), offset);
            self.set_pc(target);
        }
    }

    /// `bne`: branch if the registers differ.
    pub fn bne(&mut self, rs: u8, rt: u8, offset: u16)
        requires
            old(self).wf(),
            rs < 32,
            rt < 32,
        ensures
            final(self).wf(),
            final(self)@ == spec_bne(old(self)@, rs, rt, offset),
    {
        if self.read_register(rs) != self.read_register(rt) {
            let target = branch_pc(self.pc(), offset);
            self.set_pc(target);
        }
    }

    /// `bgez`: branch if the register is nonnegative (signed).
    pub fn bgez(&mut self, rs: u8, offset: u16)
        requires
            old(self).wf(),
            rs < 32,
        ensures
            final(self).wf(),
            final(self)@ == spec_bgez(old(self)@, rs, offset),
    {
        if signed_value(self.read_register(rs)) >= 0 {
            let target = branch_pc(self.pc(), offset);
            self.set_pc(target);
        }
    }

    /// `bgtz`: branch if the register is strictly positive (signed).
    pub fn bgtz(&mut self, rs: u8, offset: u16)
        requires
            old(self).wf(),
            rs < 32,
        ensures
            final(self).wf(),
            final(self)@ == spec_bgtz(old(self)@, rs, offset),
    {
        if signed_value(self.read_register(rs)) > 0 {
            let target = branch_pc(self.pc(), offset);
            self.set_pc(target);
        }
    }

    /// `blez`: branch if the register is zero or negative (signed).
    pub fn blez(&mut self, rs: u8, offset: u16)
        requires
            old(self).wf(),
            rs < 32,
        ensures
            final(self).wf(),
            final(self)@ == spec_blez(old(self)@, rs, offset),
    {
        if signed_value(self.read_register(rs)) <= 0 {
            let target = branch_pc(self.pc(), offset);
            self.set_pc(target);
        }
    }

    /// `bltz`: branch if the register is strictly negative (signed).
    pub fn bltz(&mut self, rs: u8, offset: u16)
        requires
            old(self).wf(),
            rs < 32,
        ensures
            final(self).wf(),
            final(self)@ == spec_bltz(old(self)@, rs, offset),
    {
        if signed_value(self.read_register(rs)) < 0 {
            let target = branch_pc(self.pc(), offset);
            self.set_pc(target);
        }
    }

    /// `bgezal`: branch if nonnegative; the link register takes the return
    /// address even when the branch is not taken.
    pub fn bgezal(&mut self, rs: u8, offset: u16)
        requires
            old(self).wf(),
            rs < 32,
        ensures
            final(self).wf(),
            final(self)@ == spec_bgezal(old(self)@, rs, offset),
    {
        let ra = link_pc(self.pc());
        self.write_register(31, ra);
        if signed_value(self.read_register(rs)) >= 0 {
            let target = branch_pc(self.pc(), offset);
            self.set_pc(target);
        }
    }

    /// `bltzal`: branch if strictly negative; the link register takes the
    /// return address even when the branch is not taken.
    pub fn bltzal(&mut self, rs: u8, offset: u16)
        requires
            old(self).wf(),
            rs < 32,
        ensures
            final(self).wf(),
            final(self)@ == spec_bltzal(old(self)@, rs, offset),
    {
        let ra = link_pc(self.pc());
        self.write_register(31, ra);
        if signed_value(self.read_register(rs)) < 0 {
            let target = branch_pc(self.pc(), offset);
            self.set_pc(target);
        }
    }

    /// `j`: preserves the top 4 bits of the current `pc` and substitutes the
    /// low 28 bits with `target << 2`.
    pub fn j(&mut self, target: u32)
        requires
            old(self).wf(),
        ensures
            final(self).wf(),
            final(self)@ == spec_j(old(self)@, target),
    {
        let dest = (self.pc() & 0xf0000000) | (target << 2u32);
        self.set_pc(dest);
    }

    /// `jal`: as `j`, and links register 31 with the return address.
    pub fn jal(&mut self, target: u32)
        requires
            old(self).wf(),
        ensures
            final(self).wf(),
            final(self)@ == spec_jal(old(self)@, target),
    {
        let ra = link_pc(self.pc());
        self.write_register(31, ra);
        let dest = (self.pc() & 0xf0000000) | (target << 2u32);
        self.set_pc(dest);
    }

    /// `jr`: redirects `pc` to the register's raw value; a misaligned target
    /// is still taken but reports an address-error.
    pub fn jr(&mut self, rs: u8) -> (r: Result<(), Exception>)
        requires
            old(self).wf(),
            rs < 32,
        ensures
            final(self).wf(),
            (final(self)@, r) == spec_jr(old(self)@, rs),
    {
        let target = self.read_register(rs);
        self.set_pc(target);
        if target % 4 != 0 {
            Err(Exception::AddressError)
        } else {
            Ok(())
        }
    }

    /// `mult`: signed 64-bit product of the two registers, split across
    /// `hi` (upper 32 bits) and `lo` (lower 32 bits).
    pub fn mult(&mut self, rs: u8, rt: u8)
        requires
            old(self).wf(),
            rs < 32,
            rt < 32,
        ensures
            final(self).wf(),
            final(self)@ == spec_mult(old(self)@, rs, rt),
    {
        let a = signed_value(self.read_register(rs));
        let b = signed_value(self.read_register(rt));
        proof {
            assert(-0x4000000000000000 <= a * b <= 0x4000000000000000) by (nonlinear_arith)
                requires
                    -0x80000000 <= a <= 0x7fffffff,
                    -0x80000000 <= b <= 0x7fffffff,
            ;
        }
        let p = a * b;
        let pu: u64 = if p >= 0 {
            p as u64
        } else {
            0u64.wrapping_sub((-p) as u64)
        };
        proof {
            if p >= 0 {
                lemma_small_mod(p as nat, 0x10000000000000000);
            } else {
                lemma_mod_multiples_vanish(1, p as int, 0x10000000000000000);
                lemma_small_mod((p + 0x10000000000000000) as nat, 0x10000000000000000);
            }
            assert(pu == (a * b) % 0x10000000000000000);
        }
        let lo = (pu % 0x100000000) as u32;
        let hi = (pu / 0x100000000) as u32;
        self.set_lo(lo);
        self.set_hi(hi);
    }

    /// `multu`: unsigned 64-bit product of the two registers, split across
    /// `hi` and `lo`.
    pub fn multu(&mut self, rs: u8, rt: u8)
        requires
            old(self).wf(),
            rs < 32,
            rt < 32,
        ensures
            final(self).wf(),
            final(self)@ == spec_multu(old(self)@, rs, rt),
    {
        let a = self.read_register(rs) as u64;
        let b = self.read_register(rt) as u64;
        proof {
            assert(a * b <= 0xffffffff * 0xffffffff) by (nonlinear_arith)
                requires
                    a <= 0xffffffff,
                    b <= 0xffffffff,
            ;
        }
        let p = a * b;
        let lo = (p % 0x100000000) as u32;
        let hi = (p / 0x100000000) as u32;
        self.set_lo(lo);
        self.set_hi(hi);
    }

    /// `div`: signed division with truncation toward zero: quotient into
    /// `lo`, remainder into `hi`. Division by zero does not fault: `hi` and
    /// `lo` are set to 0 (this emulator's explicit default for the
    /// architecturally undefined case), and likewise for the one overflowing
    /// quotient.
    pub fn div(&mut self, rs: u8, rt: u8)
        requires
            old(self).wf(),
            rs < 32,
            rt < 32,
        ensures
            final(self).wf(),
            final(self)@ == spec_div(old(self)@, rs, rt),
    {
        let av = self.read_register(rs);
        let bv = self.read_register(rt);
        if bv == 0 || (av == 0x80000000 && bv == 0xffffffff) {
            self.set_lo(0);
            self.set_hi(0);
            return ;
        }
        let neg_a = av >= 0x80000000;
        let neg_b = bv >= 0x80000000;
        let mag_a = if neg_a {
            0u32.wrapping_sub(av)
        } else {
            av
        };
        let mag_b = if neg_b {
            0u32.wrapping_sub(bv)
        } else {
            bv
        };
        let q = mag_a / mag_b;
        let rem = mag_a % mag_b;
        let lo = if neg_a != neg_b {
            0u32.wrapping_sub(q)
        } else {
            q
        };
        let hi = if neg_a {
            0u32.wrapping_sub(rem)
        } else {
            rem
        };
        proof {
            let a = as_signed(av);
            let b = as_signed(bv);
            lemma_fundamental_div_mod(mag_a as int, mag_b as int);
            assert(mag_a == mag_b * q + rem);
            if neg_a && neg_b {
                assert(tdiv(a, b) == q);
                assert(b * (q as int) == -((mag_b as int) * (q as int))) by (nonlinear_arith)
                    requires
                        b == -(mag_b as int),
                ;
                assert(trem(a, b) == -(rem as int));
            } else if neg_a {
                assert(tdiv(a, b) == -(q as int));
                assert(b * (-(q as int)) == -((mag_b as int) * (q as int))) by (nonlinear_arith)
                    requires
                        b == mag_b as int,
                ;
                assert(trem(a, b) == -(rem as int));
            } else if neg_b {
                assert(tdiv(a, b) == -(q as int));
                assert(b * (-(q as int)) == (mag_b as int) * (q as int)) by (nonlinear_arith)
                    requires
                        b == -(mag_b as int),
                ;
                assert(trem(a, b) == rem as int);
            } else {
                assert(tdiv(a, b) == q);
                assert(trem(a, b) == rem as int);
            }
            lemma_to_u32_small(q);
            lemma_to_u32_small(rem);
            lemma_to_u32_neg(q);
            lemma_to_u32_neg(rem);
        }
        self.set_lo(lo);
        self.set_hi(hi);
    }

    /// `divu`: unsigned division: quotient into `lo`, remainder into `hi`;
    /// division by zero sets both to 0.
    pub fn divu(&mut self, rs: u8, rt: u8)
        requires
            old(self).wf(),
            rs < 32,
            rt < 32,
        ensures
            final(self).wf(),
            final(self)@ == spec_divu(old(self)@, rs, rt),
    {
        let a = self.read_register(rs);
        let b = self.read_register(rt);
        if b == 0 {
            self.set_lo(0);
            self.set_hi(0);
        } else {
            self.set_lo(a / b);
            self.set_hi(a % b);
        }
    }

    /// `jalr`: as `jr`, and links the return address into `rd`.
    pub fn jalr(&mut self, rs: u8, rd: u8) -> (r: Result<(), Exception>)
        requires
            old(self).wf(),
            rs < 32,
            rd < 32,
        ensures
            final(self).wf(),
            (final(self)@, r) == spec_jalr(old(self)@, rs, rd),
    {
        let target = self.read_register(rs);
        let ra = link_pc(self.pc());
        self.write_register(rd, ra);
        self.set_pc(target);
        if target % 4 != 0 {
            Err(Exception::AddressError)
        } else {
            Ok(())
        }
    }
}

// ------------------------------------------------------------------
// Memory access
// ------------------------------------------------------------------

/// The effective address of a load or store: the base register plus the
/// sign-extended offset, wrapping modulo `2^32`.
pub open spec fn eff_addr(c: CpuView, base: u8, offset: u16) -> u32 {
    to_u32(c.regs[base as int] + sext16(offset))
}

/// Byte `k` (0 = least significant) of a 32-bit value.
pub open spec fn byte_of(v: u32, k: int) -> u8 {
    if k == 0 {
        (v % 0x100) as u8
    } else if k == 1 {
        ((v / 0x100) % 0x100) as u8
    } else if k == 2 {
        ((v / 0x10000) % 0x100) as u8
    } else {
        (v / 0x1000000) as u8
    }
}

/// `lb`: loads and sign-extends the addressed byte; cannot fault.
pub open spec fn spec_lb(c: CpuView, b: BusView, base: u8, rt: u8, offset: u16) -> CpuView {
    upd_reg(c, rt, sext8(spec_vread_byte(b, eff_addr(c, base, offset))))
}

/// `lbu`: loads and zero-extends the addressed byte; cannot fault.
pub open spec fn spec_lbu(c: CpuView, b: BusView, base: u8, rt: u8, offset: u16) -> CpuView {
    upd_reg(c, rt, spec_vread_byte(b, eff_addr(c, base, offset)) as u32)
}

/// `lh`: loads and sign-extends the addressed halfword; a misaligned
/// effective address faults without touching the register file.
pub open spec fn spec_lh(c: CpuView, b: BusView, base: u8, rt: u8, offset: u16) -> (CpuView, Result<
    (),
    Exception,
>) {
    match spec_vread_halfword(b, eff_addr(c, base, offset)) {
        Ok(v) => (upd_reg(c, rt, sext16(v)), Ok(())),
        Err(e) => (c, Err(e)),
    }
}

/// `lhu`: loads and zero-extends the addressed halfword; a misaligned
/// effective address faults without touching the register file.
pub open spec fn spec_lhu(c: CpuView, b: BusView, base: u8, rt: u8, offset: u16) -> (
    CpuView,
    Result<(), Exception>,
) {
    match spec_vread_halfword(b, eff_addr(c, base, offset)) {
        Ok(v) => (upd_reg(c, rt, v as u32), Ok(())),
        Err(e) => (c, Err(e)),
    }
}

/// `lw`: loads the addressed word; a misaligned effective address faults
/// without touching the register file.
pub open spec fn spec_lw(c: CpuView, b: BusView, base: u8, rt: u8, offset: u16) -> (CpuView, Result<
    (),
    Exception,
>) {
    match spec_vread_word(b, eff_addr(c, base, offset)) {
        Ok(v) => (upd_reg(c, rt, v), Ok(())),
        Err(e) => (c, Err(e)),
    }
}

/// The register value after `lwl` at byte offset `d` within a word: the
/// word's low `4 - d` bytes land in the register's most-significant bytes;
/// the register's low `d` bytes survive.
pub open spec fn lwl_merge(w: u32, reg: u32, d: u32) -> u32
    recommends
        d < 4,
{
    let sh = (d * 8) as u32;
    let fill = (w & (0xffffffffu32 >> sh)) << sh;
    let keep = if d == 0 {
        0u32
    } else {
        reg & (0xffffffffu32 >> (((4 - d) * 8) as u32))
    };
    fill | keep
}

/// The register value after `lwr` at byte offset `d` within a word: the
/// word's high `d + 1` bytes land in the register's least-significant bytes;
/// the register's high `3 - d` bytes survive.
pub open spec fn lwr_merge(w: u32, reg: u32, d: u32) -> u32
    recommends
        d < 4,
{
    let sh = (((3 - d) as u32) * 8) as u32;
    let fill = (w & (0xffffffffu32 << sh)) >> sh;
    let keep = if d == 3 {
        0u32
    } else {
        reg & (0xffffffffu32 << (((d + 1) * 8) as u32))
    };
    keep | fill
}

/// `lwl`: partial-word load that merges bytes from the word-aligned address
/// containing the (possibly unaligned) effective address into the
/// destination's most-significant bytes; cannot fault.
pub open spec fn spec_lwl(c: CpuView, b: BusView, base: u8, rt: u8, offset: u16) -> CpuView {
    let addr = eff_addr(c, base, offset);
    let aligned = (addr - addr % 4) as u32;
    let w = spec_read_word(b, spec_translate(aligned));
    upd_reg(c, rt, lwl_merge(w, c.regs[rt as int], addr % 4))
}

/// `lwr`: the mirror-image partial-word load into the destination's
/// least-significant bytes; cannot fault.
pub open spec fn spec_lwr(c: CpuView, b: BusView, base: u8, rt: u8, offset: u16) -> CpuView {
    let addr = eff_addr(c, base, offset);
    let aligned = (addr - addr % 4) as u32;
    let w = spec_read_word(b, spec_translate(aligned));
    upd_reg(c, rt, lwr_merge(w, c.regs[rt as int], addr % 4))
}

/// `sb`: stores the register's low byte; cannot fault.
pub open spec fn spec_sb(c: CpuView, b: BusView, base: u8, rt: u8, offset: u16) -> BusView {
    spec_vwrite_byte(b, eff_addr(c, base, offset), (c.regs[rt as int] % 0x100) as u8)
}

/// `sh`: stores the register's low halfword; a misaligned effective address
/// faults and performs no memory mutation.
pub open spec fn spec_sh(c: CpuView, b: BusView, base: u8, rt: u8, offset: u16) -> Result<
    BusView,
    Exception,
> {
    spec_vwrite_halfword(b, eff_addr(c, base, offset), (c.regs[rt as int] % 0x10000) as u16)
}

/// `sw`: stores the register; a misaligned effective address faults and
/// performs no memory mutation.
pub open spec fn spec_sw(c: CpuView, b: BusView, base: u8, rt: u8, offset: u16) -> Result<
    BusView,
    Exception,
> {
    spec_vwrite_word(b, eff_addr(c, base, offset), c.regs[rt as int])
}

/// `swl`: partial-word store, one byte at a time from the source register,
/// byte-order reversed: the register's top byte goes to the effective
/// address, then successively lower bytes to successively lower addresses,
/// down to the containing word's base; cannot fault.
pub open spec fn spec_swl(c: CpuView, b: BusView, base: u8, rt: u8, offset: u16) -> BusView {
    let addr = eff_addr(c, base, offset);
    let d = addr % 4;
    let v = c.regs[rt as int];
    let b0 = spec_vwrite_byte(b, addr, byte_of(v, 3));
    if d == 0 {
        b0
    } else {
        let b1 = spec_vwrite_byte(b0, (addr - 1) as u32, byte_of(v, 2));
        if d == 1 {
            b1
        } else {
            let b2 = spec_vwrite_byte(b1, (addr - 2) as u32, byte_of(v, 1));
            if d == 2 {
                b2
            } else {
                spec_vwrite_byte(b2, (addr - 3) as u32, byte_of(v, 0))
            }
        }
    }
}

/// `swr`: the mirror-image partial-word store: the register's low byte goes
/// to the effective address, then successively higher bytes to successively
/// higher addresses, up to the containing word's end; cannot fault.
pub open spec fn spec_swr(c: CpuView, b: BusView, base: u8, rt: u8, offset: u16) -> BusView {
    let addr = eff_addr(c, base, offset);
    let d = addr % 4;
    let v = c.regs[rt as int];
    let b0 = spec_vwrite_byte(b, addr, byte_of(v, 0));
    if d == 3 {
        b0
    } else {
        let b1 = spec_vwrite_byte(b0, (addr + 1) as u32, byte_of(v, 1));
        if d == 2 {
            b1
        } else {
            let b2 = spec_vwrite_byte(b1, (addr + 2) as u32, byte_of(v, 2));
            if d == 1 {
                b2
            } else {
                spec_vwrite_byte(b2, (addr + 3) as u32, byte_of(v, 3))
            }
        }
    }
}

/// Stripping an address's byte offset leaves a word-aligned address.
proof fn lemma_align4(x: u32)
    ensures
        ((x - x % 4) as u32) % 4 == 0,
        x % 4 <= x,
        x % 4 < 4,
{
    assert(((x - x % 4) as u32) % 4 == 0) by (bit_vector);
    assert(x % 4 <= x && x % 4 < 4) by (bit_vector);
}

impl Cpu {
    /// Computes a load/store effective address: base register plus
    /// sign-extended offset, wrapping.
    fn effective_address(&self, base: u8, offset: u16) -> (r: u32)
        requires
            self.wf(),
            base < 32,
        ensures
            r == eff_addr(self@, base, offset),
    {
        self.read_register(base).wrapping_add(sign_extend_halfword(offset))
    }

    /// `lb`: loads and sign-extends a byte.
    pub fn lb(&mut self, base: u8, rt: u8, offset: u16, bus: &mut Bus) -> (r: Result<
        (),
        Exception,
    >)
        requires
            old(self).wf(),
            old(bus).wf(),
            base < 32,
            rt < 32,
        ensures
            final(self).wf(),
            final(bus)@ == old(bus)@,
            final(bus).wf(),
            final(self)@ == spec_lb(old(self)@, old(bus)@, base, rt, offset),
            r == Ok::<(), Exception>(()),
    {
        let address = self.effective_address(base, offset);
        let value = sign_extend_byte(self.read_byte(address, bus));
        self.write_register(rt, value);
        Ok(())
    }

    /// `lbu`: loads and zero-extends a byte.
    pub fn lbu(&mut self, base: u8, rt: u8, offset: u16, bus: &mut Bus) -> (r: Result<
        (),
        Exception,
    >)
        requires
            old(self).wf(),
            old(bus).wf(),
            base < 32,
            rt < 32,
        ensures
            final(self).wf(),
            final(bus)@ == old(bus)@,
            final(bus).wf(),
            final(self)@ == spec_lbu(old(self)@, old(bus)@, base, rt, offset),
            r == Ok::<(), Exception>(()),
    {
        let address = self.effective_address(base, offset);
        let value = self.read_byte(address, bus) as u32;
        self.write_register(rt, value);
        Ok(())
    }

    /// `lh`: loads and sign-extends a halfword; a misaligned address reports
    /// an address-error and leaves the register file untouched.
    pub fn lh(&mut self, base: u8, rt: u8, offset: u16, bus: &mut Bus) -> (r: Result<
        (),
        Exception,
    >)
        requires
            old(self).wf(),
            old(bus).wf(),
            base < 32,
            rt < 32,
        ensures
            final(self).wf(),
            final(bus)@ == old(bus)@,
            final(bus).wf(),
            (final(self)@, r) == spec_lh(old(self)@, old(bus)@, base, rt, offset),
    {
        let address = self.effective_address(base, offset);
        let loaded = match self.read_halfword(address, bus) {
            Ok(v) => v,
            Err(e) => {
                return Err(e);
            },
        };
        self.write_register(rt, sign_extend_halfword(loaded));
        Ok(())
    }

    /// `lhu`: loads and zero-extends a halfword; a misaligned address
    /// reports an address-error and leaves the register file untouched.
    pub fn lhu(&mut self, base: u8, rt: u8, offset: u16, bus: &mut Bus) -> (r: Result<
        (),
        Exception,
    >)
        requires
            old(self).wf(),
            old(bus).wf(),
            base < 32,
            rt < 32,
        ensures
            final(self).wf(),
            final(bus)@ == old(bus)@,
            final(bus).wf(),
            (final(self)@, r) == spec_lhu(old(self)@, old(bus)@, base, rt, offset),
    {
        let address = self.effective_address(base, offset);
        let loaded = match self.read_halfword(address, bus) {
            Ok(v) => v,
            Err(e) => {
                return Err(e);
            },
        };
        self.write_register(rt, loaded as u32);
        Ok(())
    }

    /// `lw`: loads a word; a misaligned address reports an address-error and
    /// leaves the register file untouched.
    pub fn lw(&mut self, base: u8, rt: u8, offset: u16, bus: &mut Bus) -> (r: Result<
        (),
        Exception,
    >)
        requires
            old(self).wf(),
            old(bus).wf(),
            base < 32,
            rt < 32,
        ensures
            final(self).wf(),
            final(bus)@ == old(bus)@,
            final(bus).wf(),
            (final(self)@, r) == spec_lw(old(self)@, old(bus)@, base, rt, offset),
    {
        let address = self.effective_address(base, offset);
        let loaded = match self.read_word(address, bus) {
            Ok(v) => v,
            Err(e) => {
                return Err(e);
            },
        };
        self.write_register(rt, loaded);
        Ok(())
    }

    /// `lwl`: merges bytes of the word containing the effective address into
    /// the destination's most-significant bytes, keeping its low bytes;
    /// always reads from the word-aligned address, so it cannot fault.
    pub fn lwl(&mut self, base: u8, rt: u8, offset: u16, bus: &mut Bus) -> (r: Result<
        (),
        Exception,
    >)
        requires
            old(self).wf(),
            old(bus).wf(),
            base < 32,
            rt < 32,
        ensures
            final(self).wf(),
            final(bus)@ == old(bus)@,
            final(bus).wf(),
            final(self)@ == spec_lwl(old(self)@, old(bus)@, base, rt, offset),
            r == Ok::<(), Exception>(()),
    {
        let address = self.effective_address(base, offset);
        proof {
            lemma_align4(address);
        }
        let aligned = address - address % 4;
        let w = match self.read_word(aligned, bus) {
            Ok(v) => v,
            Err(_) => 0,
        };
        let d = address % 4;
        let sh = d * 8;
        let fill = (w & (0xffffffffu32 >> sh)) << sh;
        let keep = if d == 0 {
            0
        } else {
            self.read_register(rt) & (0xffffffffu32 >> ((4 - d) * 8))
        };
        self.write_register(rt, fill | keep);
        Ok(())
    }

    /// `lwr`: merges bytes of the word containing the effective address into
    /// the destination's least-significant bytes, keeping its high bytes;
    /// always reads from the word-aligned address, so it cannot fault.
    pub fn lwr(&mut self, base: u8, rt: u8, offset: u16, bus: &mut Bus) -> (r: Result<
        (),
        Exception,
    >)
        requires
            old(self).wf(),
            old(bus).wf(),
            base < 32,
            rt < 32,
        ensures
            final(self).wf(),
            final(bus)@ == old(bus)@,
            final(bus).wf(),
            final(self)@ == spec_lwr(old(self)@, old(bus)@, base, rt, offset),
            r == Ok::<(), Exception>(()),
    {
        let address = self.effective_address(base, offset);
        proof {
            lemma_align4(address);
        }
        let aligned = address - address % 4;
        let w = match self.read_word(aligned, bus) {
            Ok(v) => v,
            Err(_) => 0,
        };
        let d = address % 4;
        let sh = (3 - d) * 8;
        let fill = (w & (0xffffffffu32 << sh)) >> sh;
        let keep = if d == 3 {
            0
        } else {
            self.read_register(rt) & (0xffffffffu32 << ((d + 1) * 8))
        };
        self.write_register(rt, keep | fill);
        Ok(())
    }

    /// `sb`: stores the register's low byte at the effective address.
    pub fn sb(&self, base: u8, rt: u8, offset: u16, bus: &mut Bus) -> (r: Result<(), Exception>)
        requires
            self.wf(),
            old(bus).wf(),
            base < 32,
            rt < 32,
        ensures
            final(bus).wf(),
            final(bus)@ == spec_sb(self@, old(bus)@, base, rt, offset),
            r == Ok::<(), Exception>(()),
    {
        let address = self.effective_address(base, offset);
        let value = (self.read_register(rt) % 0x100) as u8;
        self.write_byte(address, value, bus);
        Ok(())
    }

    /// `sh`: stores the register's low halfword; a misaligned address
    /// reports an address-error and performs no memory mutation.
    pub fn sh(&self, base: u8, rt: u8, offset: u16, bus: &mut Bus) -> (r: Result<(), Exception>)
        requires
            self.wf(),
            old(bus).wf(),
            base < 32,
            rt < 32,
        ensures
            final(bus).wf(),
            match spec_sh(self@, old(bus)@, base, rt, offset) {
                Ok(b) => r == Ok::<(), Exception>(()) && final(bus)@ == b,
                Err(e) => r == Err::<(), Exception>(e) && final(bus)@ == old(bus)@,
            },
    {
        let address = self.effective_address(base, offset);
        let value = (self.read_register(rt) % 0x10000) as u16;
        self.write_halfword(address, value, bus)
    }

    /// `sw`: stores the register; a misaligned address reports an
    /// address-error and performs no memory mutation.
    pub fn sw(&self, base: u8, rt: u8, offset: u16, bus: &mut Bus) -> (r: Result<(), Exception>)
        requires
            self.wf(),
            old(bus).wf(),
            base < 32,
            rt < 32,
        ensures
            final(bus).wf(),
            match spec_sw(self@, old(bus)@, base, rt, offset) {
                Ok(b) => r == Ok::<(), Exception>(()) && final(bus)@ == b,
                Err(e) => r == Err::<(), Exception>(e) && final(bus)@ == old(bus)@,
            },
    {
        let address = self.effective_address(base, offset);
        let value = self.read_register(rt);
        self.write_word(address, value, bus)
    }

    /// `swl`: stores the register's most-significant bytes, one byte at a
    /// time from the effective address down to its containing word's base;
    /// cannot fault.
    pub fn swl(&self, base: u8, rt: u8, offset: u16, bus: &mut Bus) -> (r: Result<(), Exception>)
        requires
            self.wf(),
            old(bus).wf(),
            base < 32,
            rt < 32,
        ensures
            final(bus).wf(),
            final(bus)@ == spec_swl(self@, old(bus)@, base, rt, offset),
            r == Ok::<(), Exception>(()),
    {
        let address = self.effective_address(base, offset);
        proof {
            lemma_align4(address);
        }
        let d = address % 4;
        let v = self.read_register(rt);
        self.write_byte(address, (v / 0x1000000) as u8, bus);
        if d >= 1 {
            self.write_byte(address - 1, ((v / 0x10000) % 0x100) as u8, bus);
        }
        if d >= 2 {
            self.write_byte(address - 2, ((v / 0x100) % 0x100) as u8, bus);
        }
        if d >= 3 {
            self.write_byte(address - 3, (v % 0x100) as u8, bus);
        }
        Ok(())
    }

    /// `swr`: stores the register's least-significant bytes, one byte at a
    /// time from the effective address up to its containing word's end;
    /// cannot fault.
    pub fn swr(&self, base: u8, rt: u8, offset: u16, bus: &mut Bus) -> (r: Result<(), Exception>)
        requires
            self.wf(),
            old(bus).wf(),
            base < 32,
            rt < 32,
        ensures
            final(bus).wf(),
            final(bus)@ == spec_swr(self@, old(bus)@, base, rt, offset),
            r == Ok::<(), Exception>(()),
    {
        let address = self.effective_address(base, offset);
        proof {
            lemma_align4(address);
            assert(address % 4 == 1 ==> address <= 0xfffffffd) by (bit_vector);
            assert(address % 4 == 2 ==> address <= 0xfffffffe) by (bit_vector);
            assert(address % 4 == 0 ==> address <= 0xfffffffc) by (bit_vector);
        }
        let d = address % 4;
        let v = self.read_register(rt);
        self.write_byte(address, (v % 0x100) as u8, bus);
        if d <= 2 {
            self.write_byte(address + 1, ((v / 0x100) % 0x100) as u8, bus);
        }
        if d <= 1 {
            self.write_byte(address + 2, ((v / 0x10000) % 0x100) as u8, bus);
        }
        if d == 0 {
            self.write_byte(address + 3, (v / 0x1000000) as u8, bus);
        }
        Ok(())
    }
}

// ------------------------------------------------------------------
// The fetch-decode-execute cycle
// ------------------------------------------------------------------

/// The outcome of executing one decoded instruction against a processor and
/// bus state: the new processor state, the new bus contents, and the fault
/// the instruction signalled, if any. The caller has already advanced `pc`
/// past the instruction.
pub open spec fn spec_execute(c: CpuView, b: BusView, i: Instruction) -> (CpuView, BusView, Result<
    (),
    Exception,
>) {
    match i {
        Instruction::Add { rs, rt, rd } => {
            let p = spec_add(c, rs, rt, rd);
            (p.0, b, p.1)
        },
        Instruction::Addi { rs, rt, immediate } => {
            let p = spec_addi(c, rs, rt, immediate);
            (p.0, b, p.1)
        },
        Instruction::Addiu { rs, rt, immediate } => (spec_addiu(c, rs, rt, immediate), b, Ok(())),
        Instruction::Addu { rs, rt, rd } => (spec_addu(c, rs, rt, rd), b, Ok(())),
        Instruction::And { rs, rt, rd } => (spec_and(c, rs, rt, rd), b, Ok(())),
        Instruction::Andi { rs, rt, immediate } => (spec_andi(c, rs, rt, immediate), b, Ok(())),
        Instruction::Beq { rs, rt, offset } => (spec_beq(c, rs, rt, offset), b, Ok(())),
        Instruction::Bgez { rs, offset } => (spec_bgez(c, rs, offset), b, Ok(())),
        Instruction::Bgezal { rs, offset } => (spec_bgezal(c, rs, offset), b, Ok(())),
        Instruction::Bgtz { rs, offset } => (spec_bgtz(c, rs, offset), b, Ok(())),
        Instruction::Blez { rs, offset } => (spec_blez(c, rs, offset), b, Ok(())),
        Instruction::Bltz { rs, offset } => (spec_bltz(c, rs, offset), b, Ok(())),
        Instruction::Bltzal { rs, offset } => (spec_bltzal(c, rs, offset), b, Ok(())),
        Instruction::Bne { rs, rt, offset } => (spec_bne(c, rs, rt, offset), b, Ok(())),
        Instruction::Break => (c, b, Err(Exception::Breakpoint)),
        Instruction::Div { rs, rt } => (spec_div(c, rs, rt), b, Ok(())),
        Instruction::Divu { rs, rt } => (spec_divu(c, rs, rt), b, Ok(())),
        Instruction::J { target } => (spec_j(c, target), b, Ok(())),
        Instruction::Jal { target } => (spec_jal(c, target), b, Ok(())),
        Instruction::Jalr { rs, rd } => {
            let p = spec_jalr(c, rs, rd);
            (p.0, b, p.1)
        },
        Instruction::Jr { rs } => {
            let p = spec_jr(c, rs);
            (p.0, b, p.1)
        },
        Instruction::Lb { base, rt, offset } => (spec_lb(c, b, base, rt, offset), b, Ok(())),
        Instruction::Lbu { base, rt, offset } => (spec_lbu(c, b, base, rt, offset), b, Ok(())),
        Instruction::Lh { base, rt, offset } => {
            let p = spec_lh(c, b, base, rt, offset);
            (p.0, b, p.1)
        },
        Instruction::Lhu { base, rt, offset } => {
            let p = spec_lhu(c, b, base, rt, offset);
            (p.0, b, p.1)
        },
        Instruction::Lui { rt, immediate } => (spec_lui(c, rt, immediate), b, Ok(())),
        Instruction::Lw { base, rt, offset } => {
            let p = spec_lw(c, b, base, rt, offset);
            (p.0, b, p.1)
        },
        Instruction::Lwl { base, rt, offset } => (spec_lwl(c, b, base, rt, offset), b, Ok(())),
        Instruction::Lwr { base, rt, offset } => (spec_lwr(c, b, base, rt, offset), b, Ok(())),
        Instruction::Mfhi { rd } => (spec_mfhi(c, rd), b, Ok(())),
        Instruction::Mflo { rd } => (spec_mflo(c, rd), b, Ok(())),
        Instruction::Mthi { rs } => (spec_mthi(c, rs), b, Ok(())),
        Instruction::Mtlo { rs } => (spec_mtlo(c, rs), b, Ok(())),
        Instruction::Mult { rs, rt } => (spec_mult(c, rs, rt), b, Ok(())),
        Instruction::Multu { rs, rt } => (spec_multu(c, rs, rt), b, Ok(())),
        Instruction::Nor { rs, rt, rd } => (spec_nor(c, rs, rt, rd), b, Ok(())),
        Instruction::Or { rs, rt, rd } => (spec_or(c, rs, rt, rd), b, Ok(())),
        Instruction::Ori { rs, rt, immediate } => (spec_ori(c, rs, rt, immediate), b, Ok(())),
        Instruction::Sb { base, rt, offset } => (c, spec_sb(c, b, base, rt, offset), Ok(())),
        Instruction::Sh { base, rt, offset } => {
            match spec_sh(c, b, base, rt, offset) {
                Ok(b2) => (c, b2, Ok(())),
                Err(e) => (c, b, Err(e)),
            }
        },
        Instruction::Sll { rt, rd, sa } => (spec_sll(c, rt, rd, sa), b, Ok(())),
        Instruction::Sllv { rs, rt, rd } => (spec_sllv(c, rs, rt, rd), b, Ok(())),
        Instruction::Slt { rs, rt, rd } => (spec_slt(c, rs, rt, rd), b, Ok(())),
        Instruction::Slti { rs, rt, immediate } => (spec_slti(c, rs, rt, immediate), b, Ok(())),
        Instruction::Sltiu { rs, rt, immediate } => (spec_sltiu(c, rs, rt, immediate), b, Ok(())),
        Instruction::Sltu { rs, rt, rd } => (spec_sltu(c, rs, rt, rd), b, Ok(())),
        Instruction::Sra { rt, rd, sa } => (spec_sra(c, rt, rd, sa), b, Ok(())),
        Instruction::Srav { rs, rt, rd } => (spec_srav(c, rs, rt, rd), b, Ok(())),
        Instruction::Srl { rt, rd, sa } => (spec_srl(c, rt, rd, sa), b, Ok(())),
        Instruction::Srlv { rs, rt, rd } => (spec_srlv(c, rs, rt, rd), b, Ok(())),
        Instruction::Sub { rs, rt, rd } => {
            let p = spec_sub(c, rs, rt, rd);
            (p.0, b, p.1)
        },
        Instruction::Subu { rs, rt, rd } => (spec_subu(c, rs, rt, rd), b, Ok(())),
        Instruction::Sw { base, rt, offset } => {
            match spec_sw(c, b, base, rt, offset) {
                Ok(b2) => (c, b2, Ok(())),
                Err(e) => (c, b, Err(e)),
            }
        },
        Instruction::Swl { base, rt, offset } => (c, spec_swl(c, b, base, rt, offset), Ok(())),
        Instruction::Swr { base, rt, offset } => (c, spec_swr(c, b, base, rt, offset), Ok(())),
        Instruction::Syscall => (c, b, Err(Exception::SystemCall)),
        Instruction::Tlbp => (c, b, Err(Exception::ReservedInstruction)),
        Instruction::Tlbr => (c, b, Err(Exception::ReservedInstruction)),
        Instruction::Tlbwi => (c, b, Err(Exception::ReservedInstruction)),
        Instruction::Tlbwr => (c, b, Err(Exception::ReservedInstruction)),
        Instruction::Xor { rs, rt, rd } => (spec_xor(c, rs, rt, rd), b, Ok(())),
        Instruction::Xori { rs, rt, immediate } => (spec_xori(c, rs, rt, immediate), b, Ok(())),
    }
}

/// One whole cycle, given the already-fetched-and-decoded instruction: a
/// coprocessor-TLB opcode is rejected as a reserved instruction before `pc`
/// moves; any other instruction sees `pc` advanced by 4 first and then
/// executes.
pub open spec fn spec_cycle(c: CpuView, b: BusView, i: Instruction) -> (CpuView, BusView, Result<
    (),
    Exception,
>) {
    if i.is_tlb_op() {
        (c, b, Err(Exception::ReservedInstruction))
    } else {
        spec_execute(CpuView { pc: to_u32(c.pc + 4), ..c }, b, i)
    }
}

impl Cpu {
    /// Fetches the raw 32-bit instruction word at the current `pc`, through
    /// address translation and the bus's word read. A misaligned `pc`
    /// (possible after a register jump) reports an address-error; the host
    /// decodes the fetched word externally.
    pub fn fetch_instruction(&self, bus: &Bus) -> (r: Result<u32, Exception>)
        requires
            bus.wf(),
        ensures
            r == spec_vread_word(bus@, self@.pc),
    {
        self.read_word(self.pc(), bus)
    }

    /// Executes one decoded instruction: dispatches on the variant to the
    /// corresponding semantic operation. The caller has already advanced
    /// `pc` and has already rejected the coprocessor-TLB opcodes.
    pub fn execute_instruction(&mut self, instr: Instruction, bus: &mut Bus) -> (r: Result<
        (),
        Exception,
    >)
        requires
            old(self).wf(),
            old(bus).wf(),
            instr.wf(),
            !instr.is_tlb_op(),
        ensures
            final(self).wf(),
            final(bus).wf(),
            (final(self)@, final(bus)@, r) == spec_execute(old(self)@, old(bus)@, instr),
    {
        match instr {
            Instruction::Add { rs, rt, rd } => self.add(rs, rt, rd),
            Instruction::Addi { rs, rt, immediate } => self.addi(rs, rt, immediate),
            Instruction::Addiu { rs, rt, immediate } => {
                self.addiu(rs, rt, immediate);
                Ok(())
            },
            Instruction::Addu { rs, rt, rd } => {
                self.addu(rs, rt, rd);
                Ok(())
            },
            Instruction::And { rs, rt, rd } => {
                self.and(rs, rt, rd);
                Ok(())
            },
            Instruction::Andi { rs, rt, immediate } => {
                self.andi(rs, rt, immediate);
                Ok(())
            },
            Instruction::Beq { rs, rt, offset } => {
                self.beq(rs, rt, offset);
                Ok(())
            },
            Instruction::Bgez { rs, offset } => {
                self.bgez(rs, offset);
                Ok(())
            },
            Instruction::Bgezal { rs, offset } => {
                self.bgezal(rs, offset);
                Ok(())
            },
            Instruction::Bgtz { rs, offset } => {
                self.bgtz(rs, offset);
                Ok(())
            },
            Instruction::Blez { rs, offset } => {
                self.blez(rs, offset);
                Ok(())
            },
            Instruction::Bltz { rs, offset } => {
                self.bltz(rs, offset);
                Ok(())
            },
            Instruction::Bltzal { rs, offset } => {
                self.bltzal(rs, offset);
                Ok(())
            },
            Instruction::Bne { rs, rt, offset } => {
                self.bne(rs, rt, offset);
                Ok(())
            },
            Instruction::Break => Err(self.break_op()),
            Instruction::Div { rs, rt } => {
                self.div(rs, rt);
                Ok(())
            },
            Instruction::Divu { rs, rt } => {
                self.divu(rs, rt);
                Ok(())
            },
            Instruction::J { target } => {
                self.j(target);
                Ok(())
            },
            Instruction::Jal { target } => {
                self.jal(target);
                Ok(())
            },
            Instruction::Jalr { rs, rd } => self.jalr(rs, rd),
            Instruction::Jr { rs } => self.jr(rs),
            Instruction::Lb { base, rt, offset } => self.lb(base, rt, offset, bus),
            Instruction::Lbu { base, rt, offset } => self.lbu(base, rt, offset, bus),
            Instruction::Lh { base, rt, offset } => self.lh(base, rt, offset, bus),
            Instruction::Lhu { base, rt, offset } => self.lhu(base, rt, offset, bus),
            Instruction::Lui { rt, immediate } => {
                self.lui(rt, immediate);
                Ok(())
            },
            Instruction::Lw { base, rt, offset } => self.lw(base, rt, offset, bus),
            Instruction::Lwl { base, rt, offset } => self.lwl(base, rt, offset, bus),
            Instruction::Lwr { base, rt, offset } => self.lwr(base, rt, offset, bus),
            Instruction::Mfhi { rd } => {
                self.mfhi(rd);
                Ok(())
            },
            Instruction::Mflo { rd } => {
                self.mflo(rd);
                Ok(())
            },
            Instruction::Mthi { rs } => {
                self.mthi(rs);
                Ok(())
            },
            Instruction::Mtlo { rs } => {
                self.mtlo(rs);
                Ok(())
            },
            Instruction::Mult { rs, rt } => {
                self.mult(rs, rt);
                Ok(())
            },
            Instruction::Multu { rs, rt } => {
                self.multu(rs, rt);
                Ok(())
            },
            Instruction::Nor { rs, rt, rd } => {
                self.nor(rs, rt, rd);
                Ok(())
            },
            Instruction::Or { rs, rt, rd } => {
                self.or(rs, rt, rd);
                Ok(())
            },
            Instruction::Ori { rs, rt, immediate } => {
                self.ori(rs, rt, immediate);
                Ok(())
            },
            Instruction::Sb { base, rt, offset } => self.sb(base, rt, offset, bus),
            Instruction::Sh { base, rt, offset } => self.sh(base, rt, offset, bus),
            Instruction::Sll { rt, rd, sa } => {
                self.sll(rt, rd, sa);
                Ok(())
            },
            Instruction::Sllv { rs, rt, rd } => {
                self.sllv(rs, rt, rd);
                Ok(())
            },
            Instruction::Slt { rs, rt, rd } => {
                self.slt(rs, rt, rd);
                Ok(())
            },
            Instruction::Slti { rs, rt, immediate } => {
                self.slti(rs, rt, immediate);
                Ok(())
            },
            Instruction::Sltiu { rs, rt, immediate } => {
                self.sltiu(rs, rt, immediate);
                Ok(())
            },
            Instruction::Sltu { rs, rt, rd } => {
                self.sltu(rs, rt, rd);
                Ok(())
            },
            Instruction::Sra { rt, rd, sa } => {
                self.sra(rt, rd, sa);
                Ok(())
            },
            Instruction::Srav { rs, rt, rd } => {
                self.srav(rs, rt, rd);
                Ok(())
            },
            Instruction::Srl { rt, rd, sa } => {
                self.srl(rt, rd, sa);
                Ok(())
            },
            Instruction::Srlv { rs, rt, rd } => {
                self.srlv(rs, rt, rd);
                Ok(())
            },
            Instruction::Sub { rs, rt, rd } => self.sub(rs, rt, rd),
            Instruction::Subu { rs, rt, rd } => {
                self.subu(rs, rt, rd);
                Ok(())
            },
            Instruction::Sw { base, rt, offset } => self.sw(base, rt, offset, bus),
            Instruction::Swl { base, rt, offset } => self.swl(base, rt, offset, bus),
            Instruction::Swr { base, rt, offset } => self.swr(base, rt, offset, bus),
            Instruction::Syscall => Err(self.syscall()),
            Instruction::Tlbp | Instruction::Tlbr | Instruction::Tlbwi | Instruction::Tlbwr => {
                proof {
                    assert(false);
                }
                Ok(())
            },
            Instruction::Xor { rs, rt, rd } => {
                self.xor(rs, rt, rd);
                Ok(())
            },
            Instruction::Xori { rs, rt, immediate } => {
                self.xori(rs, rt, immediate);
                Ok(())
            },
        }
    }

    /// Runs one cycle on an already-decoded instruction: rejects the four
    /// coprocessor-TLB opcodes as reserved instructions (before `pc` moves),
    /// otherwise advances `pc` by 4 and executes the instruction.
    ///
    /// A signalled exception is returned to the host, which owns exception
    /// servicing (vectoring to a handler is outside this core). The host
    /// drives the full cycle as: [`Cpu::fetch_instruction`], external
    /// decode, then this call; a fetch failure likewise goes to exception
    /// servicing without `pc` advancing.
    pub fn cpu_cycle(&mut self, instr: Instruction, bus: &mut Bus) -> (r: Result<(), Exception>)
        requires
            old(self).wf(),
            old(bus).wf(),
            instr.wf(),
        ensures
            final(self).wf(),
            final(bus).wf(),
            (final(self)@, final(bus)@, r) == spec_cycle(old(self)@, old(bus)@, instr),
    {
        match instr {
            Instruction::Tlbp | Instruction::Tlbr | Instruction::Tlbwi | Instruction::Tlbwr => {
                return Err(Exception::ReservedInstruction);
            },
            _ => {},
        }
        let ghost c0 = old(self)@;
        let npc = self.pc().wrapping_add(4);
        self.set_pc(npc);
        proof {
            if c0.pc + 4 <= 0xffffffff {
                lemma_small_mod((c0.pc + 4) as nat, 0x100000000);
            } else {
                lemma_mod_multiples_vanish(1, c0.pc + 4 - 0x100000000, 0x100000000);
                lemma_small_mod((c0.pc + 4 - 0x100000000) as nat, 0x100000000);
            }
            assert(self@ == (CpuView { pc: to_u32(c0.pc + 4), ..c0 }));
        }
        self.execute_instruction(instr, bus)
    }
}

} // verus!
