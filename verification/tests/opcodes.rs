//! Per-opcode behaviour of the execution core.

use mips_emu::bus::Bus;
use mips_emu::cpu::Cpu;
use mips_emu::exception::Exception;

#[test]
fn add() {
    let mut cpu = Cpu::new();
    cpu.write_register(1, 60);
    cpu.write_register(2, 9);

    assert_eq!(cpu.add(1, 2, 3), Ok(()));
    assert_eq!(cpu.read_register(3), 69);
}

#[test]
fn add_with_overflow() {
    let mut cpu = Cpu::new();
    cpu.write_register(1, 0x80000000);
    cpu.write_register(2, 0x80000000);
    cpu.write_register(3, 12);

    assert_eq!(cpu.add(1, 2, 3), Err(Exception::Overflow));
    assert_eq!(cpu.read_register(3), 12);
}

#[test]
fn addi() {
    let mut cpu = Cpu::new();
    cpu.write_register(1, 60);

    assert_eq!(cpu.addi(1, 2, 9), Ok(()));
    assert_eq!(cpu.read_register(2), 69);
}

#[test]
fn addi_with_overflow() {
    let mut cpu = Cpu::new();
    cpu.write_register(1, 0x80000000);
    cpu.write_register(2, 12);

    assert_eq!(cpu.addi(1, 2, 0xffff), Err(Exception::Overflow));
    assert_eq!(cpu.read_register(2), 12);
}

#[test]
fn addiu() {
    let mut cpu = Cpu::new();
    cpu.write_register(1, 0xffffffff);

    cpu.addiu(1, 2, 1);
    assert_eq!(cpu.read_register(2), 0);
}

#[test]
fn addu() {
    let mut cpu = Cpu::new();
    cpu.write_register(1, 0x80000000);
    cpu.write_register(2, 0x80000000);

    cpu.addu(1, 2, 3);
    assert_eq!(cpu.read_register(3), 0);
}

#[test]
fn and() {
    let mut cpu = Cpu::new();
    cpu.write_register(1, 0xff00ff00);
    cpu.write_register(2, 0x00ff00ff);

    cpu.and(1, 2, 3);
    assert_eq!(cpu.read_register(3), 0x00000000);
}

#[test]
fn andi() {
    let mut cpu = Cpu::new();
    cpu.write_register(1, 0xff00ff00);

    cpu.andi(1, 2, 0xff00);
    assert_eq!(cpu.read_register(2), 0x0000ff00);
}

#[test]
fn beq_branch_taken() {
    let mut cpu = Cpu::new();
    cpu.write_register(1, 1);
    cpu.write_register(2, 1);
    cpu.set_pc(68);

    cpu.beq(1, 2, -10i16 as u16);
    assert_eq!(cpu.pc(), 28);
}

#[test]
fn beq_branch_not_taken() {
    let mut cpu = Cpu::new();
    cpu.write_register(1, 1);
    cpu.write_register(2, 2);
    cpu.set_pc(68);

    cpu.beq(1, 2, -10i16 as u16);
    assert_eq!(cpu.pc(), 68);
}

#[test]
fn bgez_branch_taken() {
    let mut cpu = Cpu::new();
    cpu.write_register(1, 20);
    cpu.set_pc(16);

    cpu.bgez(1, 25);
    assert_eq!(cpu.pc(), 116);
}

#[test]
fn bgez_branch_not_taken() {
    let mut cpu = Cpu::new();
    cpu.write_register(1, -20i32 as u32);
    cpu.set_pc(16);

    cpu.bgez(1, 25);
    assert_eq!(cpu.pc(), 16);
}

#[test]
fn bgezal_branch_taken() {
    let mut cpu = Cpu::new();
    cpu.write_register(1, 20);
    cpu.set_pc(16);

    cpu.bgezal(1, 25);
    assert_eq!(cpu.pc(), 116);
    assert_eq!(cpu.read_register(31), 24);
}

#[test]
fn bgezal_branch_not_taken() {
    let mut cpu = Cpu::new();
    cpu.write_register(1, -20i32 as u32);
    cpu.set_pc(16);

    cpu.bgezal(1, 25);
    assert_eq!(cpu.pc(), 16);
    assert_eq!(cpu.read_register(31), 24);
}

#[test]
fn bgtz_branch_taken() {
    let mut cpu = Cpu::new();
    cpu.write_register(1, 20);
    cpu.set_pc(16);

    cpu.bgtz(1, 25);
    assert_eq!(cpu.pc(), 116);
}

#[test]
fn bgtz_branch_not_taken() {
    let mut cpu = Cpu::new();
    cpu.write_register(1, 0);
    cpu.set_pc(16);

    cpu.bgtz(1, 25);
    assert_eq!(cpu.pc(), 16);
}

#[test]
fn blez_branch_taken() {
    let mut cpu = Cpu::new();
    cpu.write_register(1, -10i16 as u32);
    cpu.set_pc(16);

    cpu.blez(1, 25);
    assert_eq!(cpu.pc(), 116);
}

#[test]
fn blez_branch_not_taken() {
    let mut cpu = Cpu::new();
    cpu.write_register(1, 20);
    cpu.set_pc(16);

    cpu.blez(1, 25);
    assert_eq!(cpu.pc(), 16);
}

#[test]
fn bltz_branch_taken() {
    let mut cpu = Cpu::new();
    cpu.write_register(1, -10i16 as u32);
    cpu.set_pc(16);

    cpu.bltz(1, 25);
    assert_eq!(cpu.pc(), 116);
}

#[test]
fn bltz_branch_not_taken() {
    let mut cpu = Cpu::new();
    cpu.write_register(1, 0);
    cpu.set_pc(16);

    cpu.bltz(1, 25);
    assert_eq!(cpu.pc(), 16);
}

#[test]
fn bltzal_branch_taken() {
    let mut cpu = Cpu::new();
    cpu.write_register(1, -10i16 as u32);
    cpu.set_pc(16);

    cpu.bltzal(1, 25);
    assert_eq!(cpu.pc(), 116);
    assert_eq!(cpu.read_register(31), 24);
}

#[test]
fn bltzal_branch_not_taken() {
    let mut cpu = Cpu::new();
    cpu.write_register(1, 0);
    cpu.set_pc(16);

    cpu.bltzal(1, 25);
    assert_eq!(cpu.pc(), 16);
    assert_eq!(cpu.read_register(31), 24);
}

#[test]
fn bne_branch_taken() {
    let mut cpu = Cpu::new();
    cpu.write_register(1, 1);
    cpu.write_register(2, 2);
    cpu.set_pc(68);

    cpu.bne(1, 2, -10i16 as u16);
    assert_eq!(cpu.pc(), 28);
}

#[test]
fn bne_branch_not_taken() {
    let mut cpu = Cpu::new();
    cpu.write_register(1, 1);
    cpu.write_register(2, 1);
    cpu.set_pc(68);

    cpu.bne(1, 2, -10i16 as u16);
    assert_eq!(cpu.pc(), 68);
}

#[test]
fn div() {
    let mut cpu = Cpu::new();
    cpu.write_register(1, 5);
    cpu.write_register(2, 2);

    cpu.div(1, 2);
    assert_eq!((cpu.hi(), cpu.lo()), (1, 2));
}

#[test]
fn div_zero() {
    let mut cpu = Cpu::new();
    cpu.write_register(1, 6);
    cpu.write_register(2, 0);

    cpu.div(1, 2);
    assert_eq!((cpu.hi(), cpu.lo()), (0, 0));
}

#[test]
fn divu() {
    let mut cpu = Cpu::new();
    cpu.write_register(1, 5);
    cpu.write_register(2, 2);

    cpu.divu(1, 2);
    assert_eq!((cpu.hi(), cpu.lo()), (1, 2));
}

#[test]
fn divu_zero() {
    let mut cpu = Cpu::new();
    cpu.write_register(1, 6);
    cpu.write_register(2, 0);

    cpu.divu(1, 2);
    assert_eq!((cpu.hi(), cpu.lo()), (0, 0));
}

#[test]
fn j() {
    let mut cpu = Cpu::new();
    cpu.set_pc(0xbfc00000);

    cpu.j(0x03f00054);
    assert_eq!(cpu.pc(), 0xbfc00150);
}

#[test]
fn jal() {
    let mut cpu = Cpu::new();
    cpu.set_pc(0xbfc00000);

    cpu.jal(0x03f00054);
    assert_eq!(cpu.pc(), 0xbfc00150);
    assert_eq!(cpu.read_register(31), 0xbfc00008);
}

#[test]
fn jalr() {
    let mut cpu = Cpu::new();
    cpu.write_register(1, 0xfffffffc);
    cpu.set_pc(0);

    assert_eq!(cpu.jalr(1, 2), Ok(()));
    assert_eq!(cpu.pc(), 0xfffffffc);
    assert_eq!(cpu.read_register(2), 0x00000008);
}

#[test]
fn jalr_exception() {
    let mut cpu = Cpu::new();
    cpu.write_register(1, 0xfffffffd);
    cpu.set_pc(0);

    assert_eq!(cpu.jalr(1, 2), Err(Exception::AddressError));
    assert_eq!(cpu.pc(), 0xfffffffd);
    assert_eq!(cpu.read_register(2), 0x00000008);
}

#[test]
fn jr() {
    let mut cpu = Cpu::new();
    cpu.write_register(1, 0xfffffffc);

    assert_eq!(cpu.jr(1), Ok(()));
    assert_eq!(cpu.pc(), 0xfffffffc);
}

#[test]
fn jr_exception() {
    let mut cpu = Cpu::new();
    cpu.write_register(1, 0xfffffffd);

    assert_eq!(cpu.jr(1), Err(Exception::AddressError));
    assert_eq!(cpu.pc(), 0xfffffffd);
}

#[test]
fn lb() {
    let mut cpu = Cpu::new();
    let mut bus = Bus::new(vec![]);
    cpu.write_register(1, 0);
    bus.write_word(0, 0x0000ff00).unwrap();

    assert_eq!(cpu.lb(1, 2, 1, &mut bus), Ok(()));
    assert_eq!(cpu.read_register(2), -1i32 as u32);
}

#[test]
fn lbu() {
    let mut cpu = Cpu::new();
    let mut bus = Bus::new(vec![]);
    cpu.write_register(1, 0);
    bus.write_word(0, 0x00ff0000).unwrap();

    cpu.lbu(1, 2, 2, &mut bus).unwrap();
    assert_eq!(cpu.read_register(2), 0xff);
}

#[test]
fn lh() {
    let mut cpu = Cpu::new();
    let mut bus = Bus::new(vec![]);
    cpu.write_register(1, 0);
    bus.write_word(0, 0xffff0000).unwrap();

    cpu.lh(1, 2, 2, &mut bus).unwrap();
    assert_eq!(cpu.read_register(2), -1i32 as u32);
}

#[test]
fn lhu() {
    let mut cpu = Cpu::new();
    let mut bus = Bus::new(vec![]);
    cpu.write_register(1, 0);
    bus.write_word(0, 0x0000ffff).unwrap();

    cpu.lhu(1, 2, 0, &mut bus).unwrap();
    assert_eq!(cpu.read_register(2), 0xffff);
}

#[test]
fn lui() {
    let mut cpu = Cpu::new();

    cpu.lui(1, 0xffff);
    assert_eq!(cpu.read_register(1), 0xffff0000);
}

#[test]
fn lw() {
    let mut cpu = Cpu::new();
    let mut bus = Bus::new(vec![]);
    cpu.write_register(1, 0);
    bus.write_word(0, 0xffffffff).unwrap();

    cpu.lw(1, 2, 0, &mut bus).unwrap();
    assert_eq!(cpu.read_register(2), 0xffffffff);
}

#[test]
fn lwl() {
    let mut cpu = Cpu::new();
    let mut bus = Bus::new(vec![]);
    cpu.write_register(1, 0);
    cpu.write_register(2, 0x69696969);
    bus.write_word(0, 0xffffffff).unwrap();

    cpu.lwl(1, 2, 3, &mut bus).unwrap();
    assert_eq!(cpu.read_register(2), 0xff696969);

    cpu.write_register(2, 0x69696969);
    cpu.lwl(1, 2, 2, &mut bus).unwrap();
    assert_eq!(cpu.read_register(2), 0xffff6969);

    cpu.write_register(2, 0x69696969);
    cpu.lwl(1, 2, 1, &mut bus).unwrap();
    assert_eq!(cpu.read_register(2), 0xffffff69);

    cpu.write_register(2, 0x69696969);
    cpu.lwl(1, 2, 0, &mut bus).unwrap();
    assert_eq!(cpu.read_register(2), 0xffffffff);
}

#[test]
fn lwr() {
    let mut cpu = Cpu::new();
    let mut bus = Bus::new(vec![]);
    cpu.write_register(1, 0);
    cpu.write_register(2, 0x69696969);
    bus.write_word(4, 0xffffffff).unwrap();

    cpu.lwr(1, 2, 7, &mut bus).unwrap();
    assert_eq!(cpu.read_register(2), 0xffffffff);

    cpu.write_register(2, 0x69696969);
    cpu.lwr(1, 2, 6, &mut bus).unwrap();
    assert_eq!(cpu.read_register(2), 0x69ffffff);

    cpu.write_register(2, 0x69696969);
    cpu.lwr(1, 2, 5, &mut bus).unwrap();
    assert_eq!(cpu.read_register(2), 0x6969ffff);

    cpu.write_register(2, 0x69696969);
    cpu.lwr(1, 2, 4, &mut bus).unwrap();
    assert_eq!(cpu.read_register(2), 0x696969ff);
}

#[test]
fn mfhi() {
    let mut cpu = Cpu::new();
    cpu.set_hi(69);

    cpu.mfhi(1);
    assert_eq!(cpu.read_register(1), 69);
}

#[test]
fn mflo() {
    let mut cpu = Cpu::new();
    cpu.set_lo(69);

    cpu.mflo(1);
    assert_eq!(cpu.read_register(1), 69);
}

#[test]
fn mthi() {
    let mut cpu = Cpu::new();
    cpu.write_register(1, 33);

    cpu.mthi(1);
    assert_eq!(cpu.hi(), 33);
}

#[test]
fn mtlo() {
    let mut cpu = Cpu::new();
    cpu.write_register(1, 33);

    cpu.mtlo(1);
    assert_eq!(cpu.lo(), 33);
}

#[test]
fn mult() {
    let mut cpu = Cpu::new();
    cpu.write_register(1, -1i32 as u32);
    cpu.write_register(2, -2i32 as u32);

    cpu.mult(1, 2);
    assert_eq!(cpu.lo(), 2);
    assert_eq!(cpu.hi(), 0);
}

#[test]
fn mult_hi_not_zero() {
    let mut cpu = Cpu::new();
    cpu.write_register(1, 0x7fffffff);
    cpu.write_register(2, 0x7fffffff);

    cpu.mult(1, 2);
    assert_eq!(cpu.lo(), 0x00000001);
    assert_eq!(cpu.hi(), 0x3fffffff);
}

#[test]
fn multu() {
    let mut cpu = Cpu::new();
    cpu.write_register(1, 3);
    cpu.write_register(2, 4);

    cpu.mult(1, 2);
    assert_eq!(cpu.lo(), 12);
    assert_eq!(cpu.hi(), 0);
}

#[test]
fn multu_hi_not_zero() {
    let mut cpu = Cpu::new();
    cpu.write_register(1, 2_000_000_000);
    cpu.write_register(2, 4);

    cpu.mult(1, 2);
    assert_eq!(cpu.lo(), 0xDCD65000);
    assert_eq!(cpu.hi(), 0x00000001);
}

#[test]
fn nor() {
    let mut cpu = Cpu::new();
    cpu.write_register(1, 0x01234567);
    cpu.write_register(2, 0xfedcba98);

    cpu.nor(1, 2, 3);
    assert_eq!(cpu.read_register(3), 0);
}

#[test]
fn or() {
    let mut cpu = Cpu::new();
    cpu.write_register(1, 0x01234567);
    cpu.write_register(2, 0xfedcba98);

    cpu.or(1, 2, 3);
    assert_eq!(cpu.read_register(3), 0xffffffff);
}

#[test]
fn ori() {
    let mut cpu = Cpu::new();
    cpu.write_register(1, 0x01234567);

    cpu.ori(1, 2, 0xba98);
    assert_eq!(cpu.read_register(2), 0x0123ffff);
}

#[test]
fn sb() {
    let mut cpu = Cpu::new();
    let mut bus = Bus::new(vec![]);
    cpu.write_register(1, 0);
    cpu.write_register(2, 0x0066aaff);

    cpu.sb(1, 2, 3, &mut bus).unwrap();
    assert_eq!(bus.read_byte(3), Ok(0xff));
}

#[test]
fn sh() {
    let mut cpu = Cpu::new();
    let mut bus = Bus::new(vec![]);
    cpu.write_register(1, 0);
    cpu.write_register(2, 0x0066aaff);

    cpu.sh(1, 2, 2, &mut bus).unwrap();
    assert_eq!(bus.read_halfword(2), Ok(0xaaff));
}

#[test]
fn sh_not_aligned() {
    let cpu = Cpu::new();
    let mut bus = Bus::new(vec![]);

    assert_eq!(cpu.sh(1, 2, 1, &mut bus), Err(Exception::AddressError));
}

#[test]
fn sll() {
    let mut cpu = Cpu::new();
    cpu.write_register(1, 2);

    cpu.sll(1, 2, 1);
    assert_eq!(cpu.read_register(2), 4);
}

#[test]
fn sllv() {
    let mut cpu = Cpu::new();
    cpu.write_register(1, 2);
    cpu.write_register(2, 1);

    cpu.sllv(2, 1, 3);
    assert_eq!(cpu.read_register(3), 4);
}

#[test]
fn slt() {
    let mut cpu = Cpu::new();
    cpu.write_register(1, -2i32 as u32);
    cpu.write_register(2, -1i32 as u32);

    cpu.slt(1, 2, 3);
    assert_eq!(cpu.read_register(3), 1);

    cpu.slt(2, 1, 3);
    assert_eq!(cpu.read_register(3), 0);

    cpu.slt(1, 1, 3);
    assert_eq!(cpu.read_register(3), 0);
}

#[test]
fn slti() {
    let mut cpu = Cpu::new();
    cpu.write_register(1, -2i32 as u32);

    cpu.slti(1, 2, -1i16 as u16);
    assert_eq!(cpu.read_register(2), 1);

    cpu.slti(1, 2, -3i16 as u16);
    assert_eq!(cpu.read_register(2), 0);

    cpu.slti(1, 2, -2i16 as u16);
    assert_eq!(cpu.read_register(2), 0);
}

#[test]
fn sltiu() {
    let mut cpu = Cpu::new();
    cpu.write_register(1, 1);

    cpu.slti(1, 2, 2);
    assert_eq!(cpu.read_register(2), 1);

    cpu.slti(1, 2, 0);
    assert_eq!(cpu.read_register(2), 0);

    cpu.slti(1, 2, 1);
    assert_eq!(cpu.read_register(2), 0);
}

#[test]
fn sltu() {
    let mut cpu = Cpu::new();
    cpu.write_register(1, 1);
    cpu.write_register(2, 2);

    cpu.slt(1, 2, 3);
    assert_eq!(cpu.read_register(3), 1);

    cpu.slt(2, 1, 3);
    assert_eq!(cpu.read_register(3), 0);

    cpu.slt(1, 1, 3);
    assert_eq!(cpu.read_register(3), 0);
}

#[test]
fn sra() {
    let mut cpu = Cpu::new();
    cpu.write_register(1, -4i32 as u32);

    cpu.sra(1, 2, 1);
    assert_eq!(cpu.read_register(2), -2i32 as u32);

    cpu.write_register(1, 16);

    cpu.sra(1, 2, 2);
    assert_eq!(cpu.read_register(2), 4);
}

#[test]
fn srav() {
    let mut cpu = Cpu::new();
    cpu.write_register(1, -4i32 as u32);
    cpu.write_register(2, 1);

    cpu.srav(2, 1, 3);
    assert_eq!(cpu.read_register(3), -2i32 as u32);

    cpu.write_register(1, 16);
    cpu.write_register(2, 2);

    cpu.srav(2, 1, 3);
    assert_eq!(cpu.read_register(3), 4);
}

#[test]
fn srl() {
    let mut cpu = Cpu::new();
    cpu.write_register(1, 4);

    cpu.srl(1, 2, 1);
    assert_eq!(cpu.read_register(2), 2);
}

#[test]
fn srlv() {
    let mut cpu = Cpu::new();
    cpu.write_register(1, 4);
    cpu.write_register(2, 1);

    cpu.srlv(2, 1, 3);
    assert_eq!(cpu.read_register(3), 2);
}

#[test]
fn sub() {
    let mut cpu = Cpu::new();
    cpu.write_register(1, 2);
    cpu.write_register(2, 1);

    assert_eq!(cpu.sub(1, 2, 3), Ok(()));
    assert_eq!(cpu.read_register(3), 1);
}

#[test]
fn sub_with_overflow() {
    let mut cpu = Cpu::new();
    cpu.write_register(1, 0x80000000);
    cpu.write_register(2, 1);

    assert_eq!(cpu.sub(1, 2, 3), Err(Exception::Overflow));
    assert_eq!(cpu.read_register(3), 0);
}

#[test]
fn subu() {
    let mut cpu = Cpu::new();
    cpu.write_register(1, 2);
    cpu.write_register(2, 1);

    cpu.subu(1, 2, 3);
    assert_eq!(cpu.read_register(3), 1);
}

#[test]
fn sw() {
    let mut cpu = Cpu::new();
    let mut bus = Bus::new(vec![]);
    cpu.write_register(1, 0);
    cpu.write_register(2, 0xffff8888);

    cpu.sw(1, 2, 0, &mut bus).unwrap();
    assert_eq!(bus.read_word(0), Ok(0xffff8888));
}

#[test]
fn sw_not_aligned() {
    let cpu = Cpu::new();
    let mut bus = Bus::new(vec![]);

    assert_eq!(cpu.sw(1, 2, 3, &mut bus), Err(Exception::AddressError));
}

#[test]
fn swl() {
    let mut cpu = Cpu::new();
    let mut bus = Bus::new(vec![]);
    cpu.write_register(2, 0x00224466);
    bus.write_word(0, 0x55555555).unwrap();

    cpu.swl(1, 2, 0, &mut bus).unwrap();
    assert_eq!(bus.read_word(0), Ok(0x55555500));

    bus.write_word(0, 0x77777777).unwrap();
    cpu.swl(1, 2, 1, &mut bus).unwrap();
    assert_eq!(bus.read_word(0), Ok(0x77770022));

    bus.write_word(0, 0x33333333).unwrap();
    cpu.swl(1, 2, 2, &mut bus).unwrap();
    assert_eq!(bus.read_word(0), Ok(0x33002244));

    bus.write_word(0, 0x11111111).unwrap();
    cpu.swl(1, 2, 3, &mut bus).unwrap();
    assert_eq!(bus.read_word(0), Ok(0x00224466));
}

#[test]
fn swr() {
    let mut cpu = Cpu::new();
    let mut bus = Bus::new(vec![]);
    cpu.write_register(2, 0x00224466);
    bus.write_word(0, 0x55555555).unwrap();

    cpu.swr(1, 2, 0, &mut bus).unwrap();
    assert_eq!(bus.read_word(0), Ok(0x00224466));

    bus.write_word(0, 0x77777777).unwrap();
    cpu.swr(1, 2, 1, &mut bus).unwrap();
    assert_eq!(bus.read_word(0), Ok(0x22446677));

    bus.write_word(0, 0x33333333).unwrap();
    cpu.swr(1, 2, 2, &mut bus).unwrap();
    assert_eq!(bus.read_word(0), Ok(0x44663333));

    bus.write_word(0, 0x11111111).unwrap();
    cpu.swr(1, 2, 3, &mut bus).unwrap();
    assert_eq!(bus.read_word(0), Ok(0x66111111));
}

#[test]
fn xor() {
    let mut cpu = Cpu::new();
    cpu.write_register(1, 0x01234567);
    cpu.write_register(2, 0xfedcba98);

    cpu.xor(1, 2, 3);
    assert_eq!(cpu.read_register(3), 0xffffffff);
}

#[test]
fn xori() {
    let mut cpu = Cpu::new();
    cpu.write_register(1, 0x01234567);

    cpu.xori(1, 2, 0xba98);
    assert_eq!(cpu.read_register(2), 0x0123ffff);
}
