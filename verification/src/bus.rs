//! The memory bus: device routing and byte-addressable storage.
//!
//! The bus owns three contiguous byte regions at fixed, non-overlapping
//! physical ranges: main RAM at `[0x00000000, 0x00200000)`, a scratchpad at
//! `[0x1f800000, 0x1f800400)`, and the BIOS ROM at `[0x1fc00000, 0x1fc80000)`.
//! Every other physical address is unknown: reads yield 0 and writes are
//! dropped, so unimplemented peripherals can be stubbed without faulting.
//! Multi-byte accesses are little-endian and are routed once, by their
//! starting address.

use vstd::prelude::*;

verus! {

use crate::exception::Exception;

/// Size in bytes of main RAM.
pub const RAM_SIZE: u32 = 0x200000;

/// Base physical address of the scratchpad.
pub const SCRATCHPAD_BASE: u32 = 0x1f800000;

/// Size in bytes of the scratchpad.
pub const SCRATCHPAD_SIZE: u32 = 0x400;

/// Base physical address of the BIOS ROM.
pub const BIOS_BASE: u32 = 0x1fc00000;

/// Size in bytes of the BIOS ROM region.
pub const BIOS_SIZE: u32 = 0x80000;

/// The device a physical address routes to, together with the device-local
/// offset (the address minus the region's base).
#[derive(Debug, Clone, Copy, PartialEq, Eq, Structural)]
pub enum AddressBusDevice {
    Ram(u32),
    Scratchpad(u32),
    Bios(u32),
    Unknown(u32),
}

/// Routing of a physical address, as a pure function.
pub open spec fn spec_device_address(address: u32) -> AddressBusDevice {
    if address < RAM_SIZE {
        AddressBusDevice::Ram(address)
    } else if SCRATCHPAD_BASE <= address < SCRATCHPAD_BASE + SCRATCHPAD_SIZE {
        AddressBusDevice::Scratchpad((address - SCRATCHPAD_BASE) as u32)
    } else if BIOS_BASE <= address < BIOS_BASE + BIOS_SIZE {
        AddressBusDevice::Bios((address - BIOS_BASE) as u32)
    } else {
        AddressBusDevice::Unknown(address)
    }
}

/// Classifies a physical address into the device that owns it.
fn bus_device_address(address: u32) -> (d: AddressBusDevice)
    ensures
        d == spec_device_address(address),
{
    if address < RAM_SIZE {
        AddressBusDevice::Ram(address)
    } else if SCRATCHPAD_BASE <= address && address < SCRATCHPAD_BASE + SCRATCHPAD_SIZE {
        AddressBusDevice::Scratchpad(address - SCRATCHPAD_BASE)
    } else if BIOS_BASE <= address && address < BIOS_BASE + BIOS_SIZE {
        AddressBusDevice::Bios(address - BIOS_BASE)
    } else {
        AddressBusDevice::Unknown(address)
    }
}

/// Whether an `n`-byte access starting at `address` stays inside the region
/// that the address routes to. Accesses to unknown addresses always fit: they
/// touch no storage. Aligned accesses always fit, since every region's base
/// and size are multiples of 4; only a multi-byte access that starts unaligned
/// near a region's end can straddle, and such an access is left undefined by
/// this design.
pub open spec fn access_fits(address: u32, n: nat) -> bool {
    match spec_device_address(address) {
        AddressBusDevice::Ram(off) => off + n <= RAM_SIZE,
        AddressBusDevice::Scratchpad(off) => off + n <= SCRATCHPAD_SIZE,
        AddressBusDevice::Bios(off) => off + n <= BIOS_SIZE,
        AddressBusDevice::Unknown(_) => true,
    }
}

/// The little-endian 16-bit value formed by `s[i]` and `s[i + 1]`.
pub open spec fn half_at(s: Seq<u8>, i: int) -> u16 {
    (s[i] + s[i + 1] * 0x100) as u16
}

/// The little-endian 32-bit value formed by `s[i]` through `s[i + 3]`.
pub open spec fn word_at(s: Seq<u8>, i: int) -> u32 {
    (s[i] + s[i + 1] * 0x100 + s[i + 2] * 0x10000 + s[i + 3] * 0x1000000) as u32
}

/// `s` with the little-endian bytes of `v` stored at `i` and `i + 1`.
pub open spec fn store_half(s: Seq<u8>, i: int, v: u16) -> Seq<u8> {
    s.update(i, (v % 0x100) as u8).update(i + 1, (v / 0x100) as u8)
}

/// `s` with the little-endian bytes of `v` stored at `i` through `i + 3`.
pub open spec fn store_word(s: Seq<u8>, i: int, v: u32) -> Seq<u8> {
    s.update(i, (v % 0x100) as u8).update(i + 1, ((v / 0x100) % 0x100) as u8).update(
        i + 2,
        ((v / 0x10000) % 0x100) as u8,
    ).update(i + 3, (v / 0x1000000) as u8)
}

/// The contents of the three memory regions, each as a byte sequence indexed
/// by the device-local offset.
pub struct BusView {
    pub ram: Seq<u8>,
    pub scratchpad: Seq<u8>,
    pub bios: Seq<u8>,
}

/// The byte read at physical address `address`: the routed device's byte, or
/// 0 for an unknown address.
pub open spec fn spec_read_byte(b: BusView, address: u32) -> u8 {
    match spec_device_address(address) {
        AddressBusDevice::Ram(off) => b.ram[off as int],
        AddressBusDevice::Scratchpad(off) => b.scratchpad[off as int],
        AddressBusDevice::Bios(off) => b.bios[off as int],
        AddressBusDevice::Unknown(_) => 0,
    }
}

/// The little-endian halfword read at physical address `address`.
pub open spec fn spec_read_halfword(b: BusView, address: u32) -> u16 {
    match spec_device_address(address) {
        AddressBusDevice::Ram(off) => half_at(b.ram, off as int),
        AddressBusDevice::Scratchpad(off) => half_at(b.scratchpad, off as int),
        AddressBusDevice::Bios(off) => half_at(b.bios, off as int),
        AddressBusDevice::Unknown(_) => 0,
    }
}

/// The little-endian word read at physical address `address`.
pub open spec fn spec_read_word(b: BusView, address: u32) -> u32 {
    match spec_device_address(address) {
        AddressBusDevice::Ram(off) => word_at(b.ram, off as int),
        AddressBusDevice::Scratchpad(off) => word_at(b.scratchpad, off as int),
        AddressBusDevice::Bios(off) => word_at(b.bios, off as int),
        AddressBusDevice::Unknown(_) => 0,
    }
}

/// The bus contents after a byte write: RAM and scratchpad take the byte;
/// writes to the read-only BIOS and to unknown addresses are dropped.
pub open spec fn spec_write_byte(b: BusView, address: u32, value: u8) -> BusView {
    match spec_device_address(address) {
        AddressBusDevice::Ram(off) => (BusView { ram: b.ram.update(off as int, value), ..b }),
        AddressBusDevice::Scratchpad(off) => (BusView {
            scratchpad: b.scratchpad.update(off as int, value),
            ..b
        }),
        AddressBusDevice::Bios(_) => b,
        AddressBusDevice::Unknown(_) => b,
    }
}

/// The bus contents after a little-endian halfword write.
pub open spec fn spec_write_halfword(b: BusView, address: u32, value: u16) -> BusView {
    match spec_device_address(address) {
        AddressBusDevice::Ram(off) => (BusView { ram: store_half(b.ram, off as int, value), ..b }),
        AddressBusDevice::Scratchpad(off) => (BusView {
            scratchpad: store_half(b.scratchpad, off as int, value),
            ..b
        }),
        AddressBusDevice::Bios(_) => b,
        AddressBusDevice::Unknown(_) => b,
    }
}

/// The bus contents after a little-endian word write.
pub open spec fn spec_write_word(b: BusView, address: u32, value: u32) -> BusView {
    match spec_device_address(address) {
        AddressBusDevice::Ram(off) => (BusView { ram: store_word(b.ram, off as int, value), ..b }),
        AddressBusDevice::Scratchpad(off) => (BusView {
            scratchpad: store_word(b.scratchpad, off as int, value),
            ..b
        }),
        AddressBusDevice::Bios(_) => b,
        AddressBusDevice::Unknown(_) => b,
    }
}

/// The BIOS region's contents for a given image: the image's bytes, truncated
/// or zero-extended to the region's fixed size.
pub open spec fn bios_contents(image: Seq<u8>) -> Seq<u8> {
    Seq::new(
        BIOS_SIZE as nat,
        |i: int|
            if i < image.len() {
                image[i]
            } else {
                0u8
            },
    )
}

/// The memory device router. Owns main RAM, the scratchpad and the BIOS ROM.
pub struct Bus {
    ram: Vec<u8>,
    scratchpad: Vec<u8>,
    bios: Vec<u8>,
}

impl View for Bus {
    type V = BusView;

    closed spec fn view(&self) -> BusView {
        BusView { ram: self.ram@, scratchpad: self.scratchpad@, bios: self.bios@ }
    }
}

impl Bus {
    /// Each region holds exactly as many bytes as its physical range spans.
    pub open spec fn wf(&self) -> bool {
        &&& self@.ram.len() == RAM_SIZE
        &&& self@.scratchpad.len() == SCRATCHPAD_SIZE
        &&& self@.bios.len() == BIOS_SIZE
    }

    /// Builds a bus with zeroed RAM and scratchpad and the given BIOS image,
    /// truncated or zero-extended to the BIOS region's fixed size.
    pub fn new(bios: Vec<u8>) -> (r: Bus)
        ensures
            r.wf(),
            r@.ram == Seq::new(RAM_SIZE as nat, |i: int| 0u8),
            r@.scratchpad == Seq::new(SCRATCHPAD_SIZE as nat, |i: int| 0u8),
            r@.bios == bios_contents(bios@),
    {
        let ram = zeroed_region(RAM_SIZE as usize);
        let scratchpad = zeroed_region(SCRATCHPAD_SIZE as usize);
        let mut padded: Vec<u8> = Vec::new();
        let mut i: usize = 0;
        while i < BIOS_SIZE as usize
            invariant
                i <= BIOS_SIZE,
                padded@.len() == i,
                forall|k: int|
                    0 <= k < i ==> padded@[k] == (if k < bios@.len() {
                        bios@[k]
                    } else {
                        0u8
                    }),
            decreases BIOS_SIZE - i,
        {
            if i < bios.len() {
                padded.push(bios[i]);
            } else {
                padded.push(0);
            }
            i += 1;
        }
        proof {
            assert(padded@ =~= bios_contents(bios@));
        }
        Bus { ram, scratchpad, bios: padded }
    }

    /// Reads the byte at a physical address; 0 for an unknown address.
    ///
    /// The result is reserved as fallible so that future devices that signal
    /// bus errors do not require an interface change; no current device path
    /// fails.
    pub fn read_byte(&self, address: u32) -> (r: Result<u8, Exception>)
        requires
            self.wf(),
        ensures
            r == Ok::<u8, Exception>(spec_read_byte(self@, address)),
    {
        match bus_device_address(address) {
            AddressBusDevice::Ram(off) => Ok(self.ram[off as usize]),
            AddressBusDevice::Scratchpad(off) => Ok(self.scratchpad[off as usize]),
            AddressBusDevice::Bios(off) => Ok(self.bios[off as usize]),
            AddressBusDevice::Unknown(_) => Ok(0),
        }
    }

    /// Reads the little-endian halfword at a physical address; 0 for an
    /// unknown address.
    pub fn read_halfword(&self, address: u32) -> (r: Result<u16, Exception>)
        requires
            self.wf(),
            access_fits(address, 2),
        ensures
            r == Ok::<u16, Exception>(spec_read_halfword(self@, address)),
    {
        match bus_device_address(address) {
            AddressBusDevice::Ram(off) => Ok(
                self.ram[off as usize] as u16 + self.ram[off as usize + 1] as u16 * 0x100,
            ),
            AddressBusDevice::Scratchpad(off) => Ok(
                self.scratchpad[off as usize] as u16 + self.scratchpad[off as usize + 1] as u16
                    * 0x100,
            ),
            AddressBusDevice::Bios(off) => Ok(
                self.bios[off as usize] as u16 + self.bios[off as usize + 1] as u16 * 0x100,
            ),
            AddressBusDevice::Unknown(_) => Ok(0),
        }
    }

    /// Reads the little-endian word at a physical address; 0 for an unknown
    /// address.
    pub fn read_word(&self, address: u32) -> (r: Result<u32, Exception>)
        requires
            self.wf(),
            access_fits(address, 4),
        ensures
            r == Ok::<u32, Exception>(spec_read_word(self@, address)),
    {
        match bus_device_address(address) {
            AddressBusDevice::Ram(off) => Ok(word_from(&self.ram, off as usize)),
            AddressBusDevice::Scratchpad(off) => Ok(word_from(&self.scratchpad, off as usize)),
            AddressBusDevice::Bios(off) => Ok(word_from(&self.bios, off as usize)),
            AddressBusDevice::Unknown(_) => Ok(0),
        }
    }

    /// Writes a byte at a physical address. Writes to the BIOS region (the
    /// ROM is read-only) and to unknown addresses are accepted but dropped.
    pub fn write_byte(&mut self, address: u32, value: u8) -> (r: Result<(), Exception>)
        requires
            old(self).wf(),
        ensures
            final(self).wf(),
            final(self)@ == spec_write_byte(old(self)@, address, value),
            r == Ok::<(), Exception>(()),
    {
        match bus_device_address(address) {
            AddressBusDevice::Ram(off) => {
                self.ram[off as usize] = value;
                Ok(())
            },
            AddressBusDevice::Scratchpad(off) => {
                self.scratchpad[off as usize] = value;
                Ok(())
            },
            AddressBusDevice::Bios(_) => Ok(()),
            AddressBusDevice::Unknown(_) => Ok(()),
        }
    }

    /// Writes a little-endian halfword at a physical address; BIOS and
    /// unknown-address writes are dropped.
    pub fn write_halfword(&mut self, address: u32, value: u16) -> (r: Result<(), Exception>)
        requires
            old(self).wf(),
            access_fits(address, 2),
        ensures
            final(self).wf(),
            final(self)@ == spec_write_halfword(old(self)@, address, value),
            r == Ok::<(), Exception>(()),
    {
        match bus_device_address(address) {
            AddressBusDevice::Ram(off) => {
                self.ram[off as usize] = (value % 0x100) as u8;
                self.ram[off as usize + 1] = (value / 0x100) as u8;
                Ok(())
            },
            AddressBusDevice::Scratchpad(off) => {
                self.scratchpad[off as usize] = (value % 0x100) as u8;
                self.scratchpad[off as usize + 1] = (value / 0x100) as u8;
                Ok(())
            },
            AddressBusDevice::Bios(_) => Ok(()),
            AddressBusDevice::Unknown(_) => Ok(()),
        }
    }

    /// Writes a little-endian word at a physical address; BIOS and
    /// unknown-address writes are dropped.
    pub fn write_word(&mut self, address: u32, value: u32) -> (r: Result<(), Exception>)
        requires
            old(self).wf(),
            access_fits(address, 4),
        ensures
            final(self).wf(),
            final(self)@ == spec_write_word(old(self)@, address, value),
            r == Ok::<(), Exception>(()),
    {
        match bus_device_address(address) {
            AddressBusDevice::Ram(off) => {
                word_into(&mut self.ram, off as usize, value);
                Ok(())
            },
            AddressBusDevice::Scratchpad(off) => {
                word_into(&mut self.scratchpad, off as usize, value);
                Ok(())
            },
            AddressBusDevice::Bios(_) => Ok(()),
            AddressBusDevice::Unknown(_) => Ok(()),
        }
    }
}

/// A zero-filled byte region of the given size.
fn zeroed_region(size: usize) -> (r: Vec<u8>)
    ensures
        r@ == Seq::new(size as nat, |i: int| 0u8),
{
    let mut r: Vec<u8> = Vec::new();
    let mut i: usize = 0;
    while i < size
        invariant
            i <= size,
            r@.len() == i,
            forall|k: int| 0 <= k < i ==> r@[k] == 0u8,
        decreases size - i,
    {
        r.push(0);
        i += 1;
    }
    proof {
        assert(r@ =~= Seq::new(size as nat, |i: int| 0u8));
    }
    r
}

/// The little-endian word at offset `i` of a byte region.
fn word_from(s: &Vec<u8>, i: usize) -> (r: u32)
    requires
        i + 4 <= s@.len(),
        s@.len() <= usize::MAX,
    ensures
        r == word_at(s@, i as int),
{
    s[i] as u32 + s[i + 1] as u32 * 0x100 + s[i + 2] as u32 * 0x10000 + s[i + 3] as u32 * 0x1000000
}

/// Stores the little-endian bytes of `value` at offset `i` of a byte region.
fn word_into(s: &mut Vec<u8>, i: usize, value: u32)
    requires
        i + 4 <= old(s)@.len(),
        old(s)@.len() <= usize::MAX,
    ensures
        final(s)@ == store_word(old(s)@, i as int, value),
{
    s[i] = (value % 0x100) as u8;
    s[i + 1] = ((value / 0x100) % 0x100) as u8;
    s[i + 2] = ((value / 0x10000) % 0x100) as u8;
    s[i + 3] = (value / 0x1000000) as u8;
}

} // verus!
