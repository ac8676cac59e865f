//! Laws of the core, stated and proved once over the specification-level
//! model: the zero register's invariance, store/load round trips, the
//! partial-word load reconstruction, and the bus's soft-fail behaviour.

use vstd::prelude::*;

verus! {

use vstd::arithmetic::div_mod::lemma_div_denominator;
use vstd::arithmetic::div_mod::lemma_div_nonincreasing;
use vstd::arithmetic::div_mod::lemma_fundamental_div_mod;
use vstd::arithmetic::div_mod::lemma_fundamental_div_mod_converse_div;
use vstd::arithmetic::div_mod::lemma_mod_bound;
use vstd::arithmetic::power2::lemma_pow2_pos;
use vstd::arithmetic::power2::pow2;
use vstd::bits::lemma_u32_shr_is_div;

use crate::bus::AddressBusDevice;
use crate::bus::BIOS_SIZE;
use crate::bus::BusView;
use crate::bus::RAM_SIZE;
use crate::bus::SCRATCHPAD_SIZE;
use crate::bus::spec_device_address;
use crate::bus::spec_read_byte;
use crate::bus::spec_read_halfword;
use crate::bus::spec_read_word;
use crate::bus::spec_write_byte;
use crate::bus::spec_write_halfword;
use crate::bus::spec_write_word;
use crate::bus::store_word;
use crate::bus::word_at;
use crate::cpu::CpuView;
use crate::cpu::reg_store;
use crate::cpu::spec_translate;
use crate::cpu::spec_vread_word;
use crate::cpu::spec_vwrite_word;
use crate::exception::Exception;
use crate::exec::as_signed;
use crate::exec::eff_addr;
use crate::exec::lwl_merge;
use crate::exec::lwr_merge;
use crate::exec::spec_lw;
use crate::exec::sra32;
use crate::exec::spec_sw;
use crate::exec::upd_reg;

/// Writing any 32-bit value to register 0 leaves its read value at 0: the
/// zero register is hardwired.
pub proof fn lemma_zero_register(c: CpuView, value: u32)
    requires
        c.regs.len() == 32,
        c.regs[0] == 0,
    ensures
        upd_reg(c, 0, value).regs[0] == 0,
{
    assert(reg_store(c.regs, 0, value) == c.regs);
}

/// A word decomposes into its four little-endian bytes and recomposes to
/// itself.
proof fn lemma_word_bytes_recompose(v: u32)
    ensures
        (v % 0x100) + ((v / 0x100) % 0x100) * 0x100 + ((v / 0x10000) % 0x100) * 0x10000 + (v
            / 0x1000000) * 0x1000000 == v,
{
    lemma_fundamental_div_mod(v as int, 0x100);
    lemma_fundamental_div_mod(v as int / 0x100, 0x100);
    lemma_fundamental_div_mod(v as int / 0x10000, 0x100);
    lemma_div_denominator(v as int, 0x100, 0x100);
    lemma_div_denominator(v as int, 0x10000, 0x100);
}

/// Storing a word in a byte region and reading it back at the same offset
/// yields the word.
proof fn lemma_store_word_at(s: Seq<u8>, i: int, v: u32)
    requires
        0 <= i,
        i + 4 <= s.len(),
    ensures
        word_at(store_word(s, i, v), i) == v,
{
    lemma_word_bytes_recompose(v);
}

/// Round trip through the bus: a word written at a 4-byte-aligned virtual
/// address that routes to RAM or to the scratchpad is read back unchanged.
///
/// The restriction to those two regions is essential: a write to the
/// read-only BIOS range or to an unknown address is dropped, so the value
/// read back there is the old content (or 0), not the written word.
pub proof fn lemma_write_read_word_round_trip(b: BusView, address: u32, v: u32)
    requires
        b.ram.len() == RAM_SIZE,
        b.scratchpad.len() == SCRATCHPAD_SIZE,
        b.bios.len() == BIOS_SIZE,
        address % 4 == 0,
        spec_device_address(spec_translate(address)) is Ram || spec_device_address(
            spec_translate(address),
        ) is Scratchpad,
    ensures
        spec_vwrite_word(b, address, v) == Ok::<BusView, Exception>(
            spec_write_word(b, spec_translate(address), v),
        ),
        spec_vread_word(spec_write_word(b, spec_translate(address), v), address) == Ok::<
            u32,
            Exception,
        >(v),
{
    let pa = spec_translate(address);
    assert((address % 0x20000000) % 4 == address % 4) by (bit_vector);
    assert(pa % 4 == 0 && pa < 0x200000 ==> pa + 4 <= 0x200000) by (bit_vector);
    assert(pa % 4 == 0 && 0x1f800000 <= pa < 0x1f800400 ==> pa - 0x1f800000 + 4 <= 0x400)
        by (bit_vector);
    match spec_device_address(pa) {
        AddressBusDevice::Ram(off) => {
            lemma_store_word_at(b.ram, off as int, v);
        },
        AddressBusDevice::Scratchpad(off) => {
            lemma_store_word_at(b.scratchpad, off as int, v);
        },
        _ => {},
    }
}

/// `sw` followed by `lw` at the same 4-byte-aligned effective address (one
/// that routes to RAM or the scratchpad) loads exactly the stored register
/// value: the load's destination `rt2` takes the word that `sw` stored from
/// `rt`, and the load succeeds.
pub proof fn lemma_sw_lw_round_trip(c: CpuView, b: BusView, base: u8, rt: u8, rt2: u8, offset: u16)
    requires
        c.regs.len() == 32,
        base < 32,
        rt < 32,
        rt2 < 32,
        b.ram.len() == RAM_SIZE,
        b.scratchpad.len() == SCRATCHPAD_SIZE,
        b.bios.len() == BIOS_SIZE,
        eff_addr(c, base, offset) % 4 == 0,
        spec_device_address(spec_translate(eff_addr(c, base, offset))) is Ram
            || spec_device_address(spec_translate(eff_addr(c, base, offset))) is Scratchpad,
    ensures
        spec_sw(c, b, base, rt, offset) is Ok,
        spec_lw(c, spec_sw(c, b, base, rt, offset).unwrap(), base, rt2, offset) == (
            upd_reg(c, rt2, c.regs[rt as int]),
            Ok::<(), Exception>(()),
        ),
{
    lemma_write_read_word_round_trip(b, eff_addr(c, base, offset), c.regs[rt as int]);
}

/// The `lwl`/`lwr` byte-merges reconstruct the full original word at every
/// one of the four byte offsets: `lwl` at offset `d` merges the word's low
/// `4 - d` bytes into a destination's top, and `lwr` at the paired offset
/// `(d + 3) % 4` (the unaligned-load idiom's companion access) merges the
/// word's top `d` bytes into a destination's bottom; shifted back into
/// place, the two loads recombine to the whole memory word, whatever the
/// two pre-seeded destination registers held.
pub proof fn lemma_lwl_lwr_reconstruct(w: u32, r1: u32, r2: u32, d: u32)
    requires
        d < 4,
    ensures
        (lwl_merge(w, r1, d) >> mul8(d)) | (lwr_merge(w, r2, ((d + 3) % 4) as u32) << mul8(
            ((4 - d) % 4) as u32,
        )) == w,
{
    let a = lwl_merge(w, r1, d);
    let b = lwr_merge(w, r2, ((d + 3) % 4) as u32);
    if d == 0 {
        assert(a == ((w & (0xffffffffu32 >> 0u32)) << 0u32) | 0u32);
        assert(b == 0u32 | ((w & (0xffffffffu32 << 0u32)) >> 0u32));
        assert(((((w & (0xffffffffu32 >> 0u32)) << 0u32) | 0u32) >> 0u32) | ((0u32 | ((w
            & (0xffffffffu32 << 0u32)) >> 0u32)) << 0u32) == w) by (bit_vector);
    } else if d == 1 {
        assert(a == ((w & (0xffffffffu32 >> 8u32)) << 8u32) | (r1 & (0xffffffffu32 >> 24u32)));
        assert(b == (r2 & (0xffffffffu32 << 8u32)) | ((w & (0xffffffffu32 << 24u32)) >> 24u32));
        assert(((((w & (0xffffffffu32 >> 8u32)) << 8u32) | (r1 & (0xffffffffu32 >> 24u32)))
            >> 8u32) | (((r2 & (0xffffffffu32 << 8u32)) | ((w & (0xffffffffu32 << 24u32))
            >> 24u32)) << 24u32) == w) by (bit_vector);
    } else if d == 2 {
        assert(a == ((w & (0xffffffffu32 >> 16u32)) << 16u32) | (r1 & (0xffffffffu32 >> 16u32)));
        assert(b == (r2 & (0xffffffffu32 << 16u32)) | ((w & (0xffffffffu32 << 16u32)) >> 16u32));
        assert(((((w & (0xffffffffu32 >> 16u32)) << 16u32) | (r1 & (0xffffffffu32 >> 16u32)))
            >> 16u32) | (((r2 & (0xffffffffu32 << 16u32)) | ((w & (0xffffffffu32 << 16u32))
            >> 16u32)) << 16u32) == w) by (bit_vector);
    } else {
        assert(a == ((w & (0xffffffffu32 >> 24u32)) << 24u32) | (r1 & (0xffffffffu32 >> 8u32)));
        assert(b == (r2 & (0xffffffffu32 << 24u32)) | ((w & (0xffffffffu32 << 8u32)) >> 8u32));
        assert(((((w & (0xffffffffu32 >> 24u32)) << 24u32) | (r1 & (0xffffffffu32 >> 8u32)))
            >> 24u32) | (((r2 & (0xffffffffu32 << 24u32)) | ((w & (0xffffffffu32 << 8u32))
            >> 8u32)) << 8u32) == w) by (bit_vector);
    }
}

/// Eight times a byte offset, as a 32-bit shift amount.
pub open spec fn mul8(d: u32) -> u32
    recommends
        d < 4,
{
    (d * 8) as u32
}

/// The arithmetic right shift computes division by a power of two on the
/// signed reading of the value, rounding toward negative infinity.
pub proof fn lemma_sra_is_signed_division(a: u32, k: u32)
    requires
        k < 32,
    ensures
        as_signed(sra32(a, k)) == as_signed(a) / (pow2(k as nat) as int),
{
    lemma_pow2_pos(k as nat);
    let m = pow2(k as nat) as int;
    if a < 0x80000000 {
        lemma_u32_shr_is_div(a, k);
        lemma_div_nonincreasing(a as int, m);
    } else {
        let n = !a;
        assert(!a == 0xffffffffu32 - a) by (bit_vector);
        lemma_u32_shr_is_div(n, k);
        let q = n as int / m;
        lemma_div_nonincreasing(n as int, m);
        assert((!(n >> k)) == 0xffffffffu32 - (n >> k)) by (bit_vector)
            requires
                n >> k <= 0xffffffffu32,
        ;
        lemma_fundamental_div_mod(n as int, m);
        lemma_mod_bound(n as int, m);
        let s = n as int % m;
        assert((-1 - q) * m == -m - q * m) by (nonlinear_arith);
        assert(as_signed(a) == (-1 - q) * m + (m - 1 - s));
        lemma_fundamental_div_mod_converse_div(as_signed(a), m, -1 - q, m - 1 - s);
    }
}

/// Reads at an address inside no declared device range return 0, at every
/// access width, and raise nothing.
pub proof fn lemma_unknown_read_zero(b: BusView, address: u32)
    requires
        spec_device_address(address) is Unknown,
    ensures
        spec_read_byte(b, address) == 0,
        spec_read_halfword(b, address) == 0,
        spec_read_word(b, address) == 0,
{
}

/// Writes to an address inside no declared device range are no-ops, at every
/// access width.
pub proof fn lemma_unknown_write_noop(b: BusView, address: u32, v8: u8, v16: u16, v32: u32)
    requires
        spec_device_address(address) is Unknown,
    ensures
        spec_write_byte(b, address, v8) == b,
        spec_write_halfword(b, address, v16) == b,
        spec_write_word(b, address, v32) == b,
{
}

/// Writes to the read-only BIOS range are no-ops, at every access width: the
/// ROM's contents are unchanged, so a subsequent read sees the old bytes.
pub proof fn lemma_bios_write_noop(b: BusView, address: u32, v8: u8, v16: u16, v32: u32)
    requires
        spec_device_address(address) is Bios,
    ensures
        spec_write_byte(b, address, v8) == b,
        spec_write_halfword(b, address, v16) == b,
        spec_write_word(b, address, v32) == b,
{
}

} // verus!
