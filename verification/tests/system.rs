//! Whole-core behaviour: address translation, bus routing and soft-fail
//! rules, store/load round trips, partial-word reconstruction, and the cycle
//! protocol.

use mips_emu::bus::Bus;
use mips_emu::cpu::Cpu;
use mips_emu::exception::Exception;
use mips_emu::instr::Instruction;

#[test]
fn zero_register_write_discarded() {
    let mut cpu = Cpu::new();
    cpu.write_register(0, 0xdeadbeef);
    assert_eq!(cpu.read_register(0), 0);

    cpu.write_register(1, 60);
    cpu.write_register(2, 9);
    cpu.addu(1, 2, 0);
    assert_eq!(cpu.read_register(0), 0);
}

#[test]
fn sw_lw_round_trip_ram() {
    let mut cpu = Cpu::new();
    let mut bus = Bus::new(vec![]);
    cpu.write_register(1, 0x100);
    cpu.write_register(2, 0x12345678);

    cpu.sw(1, 2, 0, &mut bus).unwrap();
    cpu.lw(1, 3, 0, &mut bus).unwrap();
    assert_eq!(cpu.read_register(3), 0x12345678);
}

#[test]
fn sw_lw_round_trip_scratchpad() {
    let mut cpu = Cpu::new();
    let mut bus = Bus::new(vec![]);
    cpu.write_register(1, 0x1f800010);
    cpu.write_register(2, 0xcafef00d);

    cpu.sw(1, 2, 0, &mut bus).unwrap();
    cpu.lw(1, 3, 0, &mut bus).unwrap();
    assert_eq!(cpu.read_register(3), 0xcafef00d);
}

#[test]
fn sw_lw_round_trip_kseg0_and_kseg1_alias_ram() {
    let mut cpu = Cpu::new();
    let mut bus = Bus::new(vec![]);
    cpu.write_register(1, 0x80000020);
    cpu.write_register(2, 0x0000abcd);

    // kseg0 address 0x80000020 translates to physical 0x20 in RAM.
    cpu.sw(1, 2, 0, &mut bus).unwrap();
    assert_eq!(bus.read_word(0x20), Ok(0x0000abcd));

    // The kseg1 alias of the same physical address reads it back.
    cpu.write_register(4, 0xa0000020);
    cpu.lw(4, 3, 0, &mut bus).unwrap();
    assert_eq!(cpu.read_register(3), 0x0000abcd);
}

#[test]
fn sw_lw_no_round_trip_outside_devices() {
    // At an address no device claims, the store is dropped and the load
    // yields 0, both without faulting: no round trip there.
    let mut cpu = Cpu::new();
    let mut bus = Bus::new(vec![]);
    cpu.write_register(1, 0x1f000000);
    cpu.write_register(2, 0x12345678);

    assert_eq!(cpu.sw(1, 2, 0, &mut bus), Ok(()));
    cpu.lw(1, 3, 0, &mut bus).unwrap();
    assert_eq!(cpu.read_register(3), 0);
}

#[test]
fn bios_reads_image_and_drops_writes() {
    let mut bus = Bus::new(vec![1, 2, 3, 4]);
    assert_eq!(bus.read_word(0x1fc00000), Ok(0x04030201));
    assert_eq!(bus.read_halfword(0x1fc00002), Ok(0x0403));
    assert_eq!(bus.read_byte(0x1fc00003), Ok(4));

    // The ROM is read-only: the write is accepted but discarded.
    assert_eq!(bus.write_word(0x1fc00000, 0xffffffff), Ok(()));
    assert_eq!(bus.read_word(0x1fc00000), Ok(0x04030201));

    // Past the image, the region reads as zeroes.
    assert_eq!(bus.read_word(0x1fc00004), Ok(0));
}

#[test]
fn unknown_addresses_read_zero_and_drop_writes() {
    let mut bus = Bus::new(vec![]);
    assert_eq!(bus.read_byte(0x1f000000), Ok(0));
    assert_eq!(bus.read_halfword(0x1f000000), Ok(0));
    assert_eq!(bus.read_word(0x1f000000), Ok(0));

    assert_eq!(bus.write_word(0x1f000000, 0xffffffff), Ok(()));
    assert_eq!(bus.write_halfword(0x1f000004, 0xffff), Ok(()));
    assert_eq!(bus.write_byte(0x1f000008, 0xff), Ok(()));
    assert_eq!(bus.read_word(0x1f000000), Ok(0));
    assert_eq!(bus.read_halfword(0x1f000004), Ok(0));
    assert_eq!(bus.read_byte(0x1f000008), Ok(0));
}

#[test]
fn lwl_lwr_reconstruct_word_at_all_offsets() {
    let mut cpu = Cpu::new();
    let mut bus = Bus::new(vec![]);
    let word: u32 = 0xddccbbaa;
    bus.write_word(0, word).unwrap();
    cpu.write_register(1, 0);

    for d in 0..4u32 {
        cpu.write_register(2, 0x69696969);
        cpu.lwl(1, 2, d as u16, &mut bus).unwrap();
        let left = cpu.read_register(2);

        cpu.write_register(3, 0x42424242);
        cpu.lwr(1, 3, ((d + 3) % 4) as u16, &mut bus).unwrap();
        let right = cpu.read_register(3);

        let rebuilt = (left >> (8 * d)) | (right << (8 * ((4 - d) % 4)));
        assert_eq!(rebuilt, word);
    }
}

#[test]
fn sh_misaligned_performs_no_mutation() {
    let mut cpu = Cpu::new();
    let mut bus = Bus::new(vec![]);
    bus.write_word(0, 0x11223344).unwrap();

    cpu.write_register(1, 1);
    cpu.write_register(2, 0xffff);
    assert_eq!(cpu.sh(1, 2, 0, &mut bus), Err(Exception::AddressError));
    assert_eq!(bus.read_word(0), Ok(0x11223344));
}

#[test]
fn sw_misaligned_performs_no_mutation() {
    let mut cpu = Cpu::new();
    let mut bus = Bus::new(vec![]);
    bus.write_word(0, 0x11223344).unwrap();

    cpu.write_register(1, 2);
    cpu.write_register(2, 0xffffffff);
    assert_eq!(cpu.sw(1, 2, 0, &mut bus), Err(Exception::AddressError));
    assert_eq!(bus.read_word(0), Ok(0x11223344));
}

#[test]
fn lh_misaligned_leaves_register_untouched() {
    let mut cpu = Cpu::new();
    let mut bus = Bus::new(vec![]);
    bus.write_word(0, 0xffffffff).unwrap();
    cpu.write_register(2, 77);

    cpu.write_register(1, 1);
    assert_eq!(cpu.lh(1, 2, 0, &mut bus), Err(Exception::AddressError));
    assert_eq!(cpu.read_register(2), 77);

    assert_eq!(cpu.lw(1, 2, 0, &mut bus), Err(Exception::AddressError));
    assert_eq!(cpu.read_register(2), 77);
}

#[test]
fn div_overflowing_quotient_defaults_to_zero() {
    let mut cpu = Cpu::new();
    cpu.write_register(1, 0x80000000);
    cpu.write_register(2, -1i32 as u32);

    cpu.div(1, 2);
    assert_eq!((cpu.hi(), cpu.lo()), (0, 0));
}

#[test]
fn div_truncates_toward_zero() {
    let mut cpu = Cpu::new();
    cpu.write_register(1, -7i32 as u32);
    cpu.write_register(2, 2);

    cpu.div(1, 2);
    assert_eq!(cpu.lo(), -3i32 as u32);
    assert_eq!(cpu.hi(), -1i32 as u32);

    cpu.write_register(1, 7);
    cpu.write_register(2, -2i32 as u32);
    cpu.div(1, 2);
    assert_eq!(cpu.lo(), -3i32 as u32);
    assert_eq!(cpu.hi(), 1);
}

#[test]
fn multu_full_product() {
    let mut cpu = Cpu::new();
    cpu.write_register(1, 0xffffffff);
    cpu.write_register(2, 0xffffffff);

    cpu.multu(1, 2);
    assert_eq!(cpu.hi(), 0xfffffffe);
    assert_eq!(cpu.lo(), 0x00000001);
}

#[test]
fn mult_negative_product_sign_extends_into_hi() {
    let mut cpu = Cpu::new();
    cpu.write_register(1, -1i32 as u32);
    cpu.write_register(2, 1);

    cpu.mult(1, 2);
    assert_eq!(cpu.lo(), 0xffffffff);
    assert_eq!(cpu.hi(), 0xffffffff);
}

#[test]
fn sltiu_sign_extends_then_compares_unsigned() {
    let mut cpu = Cpu::new();
    cpu.write_register(1, 1);

    // The immediate -1 sign-extends to 0xffffffff before the unsigned
    // comparison, so almost every register value is below it.
    cpu.sltiu(1, 2, 0xffff);
    assert_eq!(cpu.read_register(2), 1);

    cpu.write_register(1, 0xffffffff);
    cpu.sltiu(1, 2, 0xffff);
    assert_eq!(cpu.read_register(2), 0);
}

#[test]
fn variable_shifts_use_low_five_bits() {
    let mut cpu = Cpu::new();
    cpu.write_register(1, 2);
    cpu.write_register(2, 33);

    cpu.sllv(2, 1, 3);
    assert_eq!(cpu.read_register(3), 4);

    cpu.write_register(1, 8);
    cpu.srlv(2, 1, 3);
    assert_eq!(cpu.read_register(3), 4);

    cpu.write_register(1, -8i32 as u32);
    cpu.srav(2, 1, 3);
    assert_eq!(cpu.read_register(3), -4i32 as u32);
}

#[test]
fn sra_keeps_sign_srl_does_not() {
    let mut cpu = Cpu::new();
    cpu.write_register(1, 0x80000000);

    cpu.sra(1, 2, 31);
    assert_eq!(cpu.read_register(2), 0xffffffff);

    cpu.srl(1, 2, 31);
    assert_eq!(cpu.read_register(2), 1);
}

#[test]
fn fetch_reads_bios_entry_point() {
    let cpu = Cpu::new();
    let bus = Bus::new(vec![0x13, 0x00, 0x00, 0x3c]);

    // The program counter resets to 0xbfc00000 (kseg1), which translates to
    // the BIOS base.
    assert_eq!(cpu.pc(), 0xbfc00000);
    assert_eq!(cpu.fetch_instruction(&bus), Ok(0x3c000013));
}

#[test]
fn fetch_with_misaligned_pc_faults() {
    let mut cpu = Cpu::new();
    let bus = Bus::new(vec![]);
    cpu.set_pc(0xbfc00002);

    assert_eq!(cpu.fetch_instruction(&bus), Err(Exception::AddressError));
    // The program counter is not advanced by a failed fetch.
    assert_eq!(cpu.pc(), 0xbfc00002);
}

#[test]
fn cycle_rejects_tlb_opcodes_without_advancing() {
    let mut cpu = Cpu::new();
    let mut bus = Bus::new(vec![]);

    for instr in [Instruction::Tlbp, Instruction::Tlbr, Instruction::Tlbwi, Instruction::Tlbwr] {
        assert_eq!(cpu.cpu_cycle(instr, &mut bus), Err(Exception::ReservedInstruction));
        assert_eq!(cpu.pc(), 0xbfc00000);
    }
}

#[test]
fn cycle_advances_pc_before_executing() {
    let mut cpu = Cpu::new();
    let mut bus = Bus::new(vec![]);

    let r = cpu.cpu_cycle(Instruction::Addiu { rs: 0, rt: 1, immediate: 5 }, &mut bus);
    assert_eq!(r, Ok(()));
    assert_eq!(cpu.pc(), 0xbfc00004);
    assert_eq!(cpu.read_register(1), 5);
}

#[test]
fn cycle_link_addresses_are_relative_to_advanced_pc() {
    let mut cpu = Cpu::new();
    let mut bus = Bus::new(vec![]);

    // After the advance to 0xbfc00004 the jump links 0xbfc0000c.
    let r = cpu.cpu_cycle(Instruction::Jal { target: 0x03f00054 }, &mut bus);
    assert_eq!(r, Ok(()));
    assert_eq!(cpu.pc(), 0xbfc00150);
    assert_eq!(cpu.read_register(31), 0xbfc0000c);
}

#[test]
fn cycle_break_and_syscall_always_raise() {
    let mut cpu = Cpu::new();
    let mut bus = Bus::new(vec![]);

    assert_eq!(cpu.cpu_cycle(Instruction::Break, &mut bus), Err(Exception::Breakpoint));
    assert_eq!(cpu.pc(), 0xbfc00004);
    assert_eq!(cpu.cpu_cycle(Instruction::Syscall, &mut bus), Err(Exception::SystemCall));
    assert_eq!(cpu.pc(), 0xbfc00008);
}

#[test]
fn cycle_store_reaches_memory() {
    let mut cpu = Cpu::new();
    let mut bus = Bus::new(vec![]);
    cpu.write_register(1, 0x40);
    cpu.write_register(2, 0xfeedface);

    let r = cpu.cpu_cycle(Instruction::Sw { base: 1, rt: 2, offset: 4 }, &mut bus);
    assert_eq!(r, Ok(()));
    assert_eq!(bus.read_word(0x44), Ok(0xfeedface));
}

#[test]
fn instruction_validity_checks_register_fields() {
    assert!(Instruction::Add { rs: 1, rt: 2, rd: 3 }.valid());
    assert!(!Instruction::Add { rs: 32, rt: 2, rd: 3 }.valid());
    assert!(!Instruction::Sll { rt: 1, rd: 2, sa: 32 }.valid());
    assert!(Instruction::J { target: 0x3ffffff }.valid());
}

#[test]
fn byte_and_halfword_round_trips() {
    let mut cpu = Cpu::new();
    let mut bus = Bus::new(vec![]);
    cpu.write_register(1, 0x1f800000);
    cpu.write_register(2, 0x8f);

    // Store a byte in the scratchpad and load it back both ways.
    cpu.sb(1, 2, 5, &mut bus).unwrap();
    cpu.lbu(1, 3, 5, &mut bus).unwrap();
    assert_eq!(cpu.read_register(3), 0x8f);
    cpu.lb(1, 3, 5, &mut bus).unwrap();
    assert_eq!(cpu.read_register(3), 0xffffff8f);

    cpu.write_register(2, 0x8001);
    cpu.sh(1, 2, 8, &mut bus).unwrap();
    cpu.lhu(1, 3, 8, &mut bus).unwrap();
    assert_eq!(cpu.read_register(3), 0x8001);
    cpu.lh(1, 3, 8, &mut bus).unwrap();
    assert_eq!(cpu.read_register(3), 0xffff8001);
}

#[test]
fn addiu_sign_extends_immediate() {
    let mut cpu = Cpu::new();
    cpu.write_register(1, 5);

    cpu.addiu(1, 2, 0xffff);
    assert_eq!(cpu.read_register(2), 4);
}
