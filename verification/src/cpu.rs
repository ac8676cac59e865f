//! The processor core: architectural register state, address translation and
//! virtual-address memory access.
//!
//! The register file holds 32 general-purpose registers. Register 0 is
//! hardwired to zero: it always reads 0 and writes to it are silently
//! discarded. `hi` and `lo` hold multiply/divide results; `pc` is the program
//! counter, reset to the BIOS entry point at construction.

use vstd::prelude::*;

verus! {

use crate::bus::Bus;
use crate::bus::BusView;
use crate::bus::access_fits;
use crate::bus::spec_read_byte;
use crate::bus::spec_read_halfword;
use crate::bus::spec_read_word;
use crate::bus::spec_write_byte;
use crate::bus::spec_write_halfword;
use crate::bus::spec_write_word;
use crate::exception::Exception;

/// The virtual address the processor starts fetching from: the BIOS entry
/// point, in segment kseg1.
pub const RESET_PC: u32 = 0xbfc00000;

/// A virtual address classified into its memory segment, carrying the
/// physical address the segment's rule produces.
pub enum MemorySpace {
    Kuseg(u32),
    Kseg0(u32),
    Kseg1(u32),
    Kseg2(u32),
}

impl MemorySpace {
    /// The physical address, whichever segment produced it.
    pub fn into_inner(self) -> (r: u32)
        ensures
            r == self.spec_inner(),
    {
        match self {
            MemorySpace::Kuseg(address) => address,
            MemorySpace::Kseg0(address) => address,
            MemorySpace::Kseg1(address) => address,
            MemorySpace::Kseg2(address) => address,
        }
    }

    /// The physical address carried by any of the four segments.
    pub open spec fn spec_inner(self) -> u32 {
        match self {
            MemorySpace::Kuseg(address) => address,
            MemorySpace::Kseg0(address) => address,
            MemorySpace::Kseg1(address) => address,
            MemorySpace::Kseg2(address) => address,
        }
    }
}

/// The physical address a virtual address translates to: kuseg, kseg0 and
/// kseg1 addresses are masked to their low 29 bits; kseg2 addresses pass
/// through unmodified. A pure function of the address; translation cannot
/// fail.
pub open spec fn spec_translate(address: u32) -> u32 {
    if address < 0xc0000000 {
        (address % 0x20000000) as u32
    } else {
        address
    }
}

/// Classifies a virtual address into its segment and produces the physical
/// address (program address to physical address).
pub fn translate_address(address: u32) -> (r: MemorySpace)
    ensures
        r.spec_inner() == spec_translate(address),
        address < 0x80000000 ==> r is Kuseg,
        0x80000000 <= address < 0xa0000000 ==> r is Kseg0,
        0xa0000000 <= address < 0xc0000000 ==> r is Kseg1,
        0xc0000000 <= address ==> r is Kseg2,
{
    if address < 0x80000000 {
        MemorySpace::Kuseg(address % 0x20000000)
    } else if address < 0xa0000000 {
        MemorySpace::Kseg0(address % 0x20000000)
    } else if address < 0xc0000000 {
        MemorySpace::Kseg1(address % 0x20000000)
    } else {
        MemorySpace::Kseg2(address)
    }
}

/// The architectural state of the processor, as mathematical values: the 32
/// register read-values, the `hi`/`lo` pair and the program counter.
pub struct CpuView {
    pub regs: Seq<u32>,
    pub hi: u32,
    pub lo: u32,
    pub pc: u32,
}

/// The register file after writing `v` to register `i`: a write to register 0
/// is discarded, any other register takes the value.
pub open spec fn reg_store(regs: Seq<u32>, i: int, v: u32) -> Seq<u32> {
    if i == 0 {
        regs
    } else {
        regs.update(i, v)
    }
}

/// The processor core.
pub struct Cpu {
    register_file: Vec<u32>,
    hi: u32,
    lo: u32,
    pc: u32,
}

impl View for Cpu {
    type V = CpuView;

    closed spec fn view(&self) -> CpuView {
        CpuView { regs: self.register_file@, hi: self.hi, lo: self.lo, pc: self.pc }
    }
}

impl Cpu {
    /// The register file has its fixed 32 entries and register 0 reads 0.
    pub open spec fn wf(&self) -> bool {
        &&& self@.regs.len() == 32
        &&& self@.regs[0] == 0
    }

    /// A fresh processor: all registers, `hi` and `lo` zero, and the program
    /// counter at the BIOS entry point.
    pub fn new() -> (r: Cpu)
        ensures
            r.wf(),
            r@.regs == Seq::new(32, |i: int| 0u32),
            r@.hi == 0,
            r@.lo == 0,
            r@.pc == RESET_PC,
    {
        let mut register_file: Vec<u32> = Vec::new();
        let mut i: usize = 0;
        while i < 32
            invariant
                i <= 32,
                register_file@.len() == i,
                forall|k: int| 0 <= k < i ==> register_file@[k] == 0u32,
            decreases 32 - i,
        {
            register_file.push(0);
            i += 1;
        }
        proof {
            assert(register_file@ =~= Seq::new(32, |i: int| 0u32));
        }
        Cpu { register_file, hi: 0, lo: 0, pc: RESET_PC }
    }

    /// Reads a general-purpose register. Register 0 always yields 0.
    pub fn read_register(&self, index: u8) -> (r: u32)
        requires
            self.wf(),
            index < 32,
        ensures
            r == self@.regs[index as int],
            index == 0 ==> r == 0,
    {
        self.register_file[index as usize]
    }

    /// Writes a general-purpose register. A write to register 0 is silently
    /// discarded, so register 0 still reads 0 afterwards.
    pub fn write_register(&mut self, index: u8, value: u32)
        requires
            old(self).wf(),
            index < 32,
        ensures
            final(self).wf(),
            final(self)@ == (CpuView { regs: reg_store(old(self)@.regs, index as int, value), ..old(self)@ }),
    {
        if index != 0 {
            self.register_file[index as usize] = value;
        }
        proof {
            assert(final(self)@.regs =~= reg_store(old(self)@.regs, index as int, value));
        }
    }

    /// The program counter.
    pub fn pc(&self) -> (r: u32)
        ensures
            r == self@.pc,
    {
        self.pc
    }

    /// Redirects the program counter.
    pub fn set_pc(&mut self, value: u32)
        ensures
            final(self)@ == (CpuView { pc: value, ..old(self)@ }),
    {
        self.pc = value;
    }

    /// The `hi` multiply/divide result register.
    pub fn hi(&self) -> (r: u32)
        ensures
            r == self@.hi,
    {
        self.hi
    }

    /// Sets the `hi` multiply/divide result register.
    pub fn set_hi(&mut self, value: u32)
        ensures
            final(self)@ == (CpuView { hi: value, ..old(self)@ }),
    {
        self.hi = value;
    }

    /// The `lo` multiply/divide result register.
    pub fn lo(&self) -> (r: u32)
        ensures
            r == self@.lo,
    {
        self.lo
    }

    /// Sets the `lo` multiply/divide result register.
    pub fn set_lo(&mut self, value: u32)
        ensures
            final(self)@ == (CpuView { lo: value, ..old(self)@ }),
    {
        self.lo = value;
    }
}

/// The byte read at virtual address `address`: translation, then the bus.
/// Byte reads cannot fault.
pub open spec fn spec_vread_byte(b: BusView, address: u32) -> u8 {
    spec_read_byte(b, spec_translate(address))
}

/// The halfword read at virtual address `address`: an address-error for a
/// misaligned (odd) address, otherwise translation and the bus.
pub open spec fn spec_vread_halfword(b: BusView, address: u32) -> Result<u16, Exception> {
    if address % 2 != 0 {
        Err(Exception::AddressError)
    } else {
        Ok(spec_read_halfword(b, spec_translate(address)))
    }
}

/// The word read at virtual address `address`: an address-error for an
/// address that is not a multiple of 4, otherwise translation and the bus.
pub open spec fn spec_vread_word(b: BusView, address: u32) -> Result<u32, Exception> {
    if address % 4 != 0 {
        Err(Exception::AddressError)
    } else {
        Ok(spec_read_word(b, spec_translate(address)))
    }
}

/// The bus contents after a byte write at a virtual address. Byte writes
/// cannot fault.
pub open spec fn spec_vwrite_byte(b: BusView, address: u32, value: u8) -> BusView {
    spec_write_byte(b, spec_translate(address), value)
}

/// The bus contents after a halfword write at a virtual address, or an
/// address-error (with the bus untouched) for a misaligned address.
pub open spec fn spec_vwrite_halfword(b: BusView, address: u32, value: u16) -> Result<
    BusView,
    Exception,
> {
    if address % 2 != 0 {
        Err(Exception::AddressError)
    } else {
        Ok(spec_write_halfword(b, spec_translate(address), value))
    }
}

/// The bus contents after a word write at a virtual address, or an
/// address-error (with the bus untouched) for a misaligned address.
pub open spec fn spec_vwrite_word(b: BusView, address: u32, value: u32) -> Result<
    BusView,
    Exception,
> {
    if address % 4 != 0 {
        Err(Exception::AddressError)
    } else {
        Ok(spec_write_word(b, spec_translate(address), value))
    }
}

/// Translation keeps an address's alignment: the 29-bit mask removes only
/// high bits.
proof fn lemma_translate_alignment(address: u32)
    ensures
        spec_translate(address) % 4 == address % 4,
        spec_translate(address) % 2 == address % 2,
{
    assert((address % 0x20000000) % 4 == address % 4) by (bit_vector);
    assert((address % 0x20000000) % 2 == address % 2) by (bit_vector);
}

/// An aligned access never straddles a region boundary: every region's base
/// and size are multiples of 4.
proof fn lemma_aligned_fits(pa: u32)
    ensures
        pa % 4 == 0 ==> access_fits(pa, 4),
        pa % 2 == 0 ==> access_fits(pa, 2),
{
    assert(pa % 4 == 0 && pa < 0x200000 ==> pa + 4 <= 0x200000) by (bit_vector);
    assert(pa % 4 == 0 && 0x1f800000 <= pa < 0x1f800400 ==> pa - 0x1f800000 + 4 <= 0x400)
        by (bit_vector);
    assert(pa % 4 == 0 && 0x1fc00000 <= pa < 0x1fc80000 ==> pa - 0x1fc00000 + 4 <= 0x80000)
        by (bit_vector);
    assert(pa % 2 == 0 && pa < 0x200000 ==> pa + 2 <= 0x200000) by (bit_vector);
    assert(pa % 2 == 0 && 0x1f800000 <= pa < 0x1f800400 ==> pa - 0x1f800000 + 2 <= 0x400)
        by (bit_vector);
    assert(pa % 2 == 0 && 0x1fc00000 <= pa < 0x1fc80000 ==> pa - 0x1fc00000 + 2 <= 0x80000)
        by (bit_vector);
}

impl Cpu {
    /// Reads a byte through translation and the bus; infallible.
    pub(crate) fn read_byte(&self, address: u32, bus: &Bus) -> (r: u8)
        requires
            bus.wf(),
        ensures
            r == spec_vread_byte(bus@, address),
    {
        match bus.read_byte(translate_address(address).into_inner()) {
            Ok(v) => v,
            Err(_) => 0,
        }
    }

    /// Reads a halfword through translation and the bus; faults on a
    /// misaligned address.
    pub(crate) fn read_halfword(&self, address: u32, bus: &Bus) -> (r: Result<u16, Exception>)
        requires
            bus.wf(),
        ensures
            r == spec_vread_halfword(bus@, address),
    {
        if address % 2 != 0 {
            return Err(Exception::AddressError);
        }
        proof {
            lemma_translate_alignment(address);
            lemma_aligned_fits(spec_translate(address));
        }
        bus.read_halfword(translate_address(address).into_inner())
    }

    /// Reads a word through translation and the bus; faults on a misaligned
    /// address.
    pub(crate) fn read_word(&self, address: u32, bus: &Bus) -> (r: Result<u32, Exception>)
        requires
            bus.wf(),
        ensures
            r == spec_vread_word(bus@, address),
    {
        if address % 4 != 0 {
            return Err(Exception::AddressError);
        }
        proof {
            lemma_translate_alignment(address);
            lemma_aligned_fits(spec_translate(address));
        }
        bus.read_word(translate_address(address).into_inner())
    }

    /// Writes a byte through translation and the bus; infallible.
    pub(crate) fn write_byte(&self, address: u32, value: u8, bus: &mut Bus)
        requires
            old(bus).wf(),
        ensures
            final(bus).wf(),
            final(bus)@ == spec_vwrite_byte(old(bus)@, address, value),
    {
        let _ = bus.write_byte(translate_address(address).into_inner(), value);
    }

    /// Writes a halfword through translation and the bus; faults on a
    /// misaligned address without touching memory.
    pub(crate) fn write_halfword(&self, address: u32, value: u16, bus: &mut Bus) -> (r: Result<
        (),
        Exception,
    >)
        requires
            old(bus).wf(),
        ensures
            final(bus).wf(),
            r is Ok <==> spec_vwrite_halfword(old(bus)@, address, value) is Ok,
            match spec_vwrite_halfword(old(bus)@, address, value) {
                Ok(b) => r == Ok::<(), Exception>(()) && final(bus)@ == b,
                Err(e) => r == Err::<(), Exception>(e) && final(bus)@ == old(bus)@,
            },
    {
        if address % 2 != 0 {
            return Err(Exception::AddressError);
        }
        proof {
            lemma_translate_alignment(address);
            lemma_aligned_fits(spec_translate(address));
        }
        bus.write_halfword(translate_address(address).into_inner(), value)
    }

    /// Writes a word through translation and the bus; faults on a misaligned
    /// address without touching memory.
    pub(crate) fn write_word(&self, address: u32, value: u32, bus: &mut Bus) -> (r: Result<
        (),
        Exception,
    >)
        requires
            old(bus).wf(),
        ensures
            final(bus).wf(),
            r is Ok <==> spec_vwrite_word(old(bus)@, address, value) is Ok,
            match spec_vwrite_word(old(bus)@, address, value) {
                Ok(b) => r == Ok::<(), Exception>(()) && final(bus)@ == b,
                Err(e) => r == Err::<(), Exception>(e) && final(bus)@ == old(bus)@,
            },
    {
        if address % 4 != 0 {
            return Err(Exception::AddressError);
        }
        proof {
            lemma_translate_alignment(address);
            lemma_aligned_fits(spec_translate(address));
        }
        bus.write_word(translate_address(address).into_inner(), value)
    }
}

} // verus!
